use rust_tour::hash_maps::{keys_of, understanding_hash_map, values_equal_to};
use rust_tour::traits::{understanding_rust_inheritance, Human, Pilot, Role, Wizard};
use rust_tour::vectors::understanding_rust_vec;
use std::collections::HashMap;

struct Admin;

impl Role for Admin {
    fn get_role_with_no_return_or_block(&self) {}

    fn get_role_with_no_block(&self) -> () {}
}

#[test]
fn role_default_method_needs_no_override() {
    let admin = Admin;
    admin.get_role_with_no_return_or_block();
    admin.get_role_with_no_block();
    admin.get_role_return_and_block();
}

#[test]
fn method_syntax_picks_the_inherent_method() {
    let human = Human;
    assert_eq!(human.fly(), "Human flying");
}

#[test]
fn trait_methods_are_reached_through_the_trait() {
    let human = Human;
    assert_eq!(Pilot::fly(&human), "Pilot flying");
    assert_eq!(Wizard::fly(&human), "Wizard flying");
    assert_eq!(<Human as Pilot>::fly(&human), "Pilot flying");
    assert_eq!(<Human as Wizard>::fly(&human), "Wizard flying");
}

#[test]
fn inheritance_calls_in_order() {
    assert_eq!(
        understanding_rust_inheritance(),
        ["Human flying", "Pilot flying", "Wizard flying", "Wizard flying"]
    );
}

#[test]
fn vector_after_three_pushes() {
    let summary = understanding_rust_vec();
    assert!(!summary.is_empty);
    assert_eq!(summary.first, 0);
    assert_eq!(summary.length, 3);
}

#[test]
fn vector_is_reversed_then_sorted() {
    let summary = understanding_rust_vec();
    assert_eq!(summary.reversed, vec![2, 1, 0]);
    assert_eq!(summary.sorted, vec![0, 1, 2]);
}

#[test]
fn vector_gets_a_one_in_front() {
    let summary = understanding_rust_vec();
    assert_eq!(summary.rearranged, vec![1, 0, 1, 2]);
    assert!(summary.contains_one);
}

#[test]
fn hash_map_after_three_insertions() {
    let summary = understanding_hash_map();
    assert_eq!(summary.value_one, Some(String::from("script_saga_follower_one")));
    assert_eq!(summary.length, 3);
}

#[test]
fn hash_map_yields_each_key_once() {
    let mut keys = understanding_hash_map().keys;
    keys.sort();
    assert_eq!(keys, vec![0, 1, 2]);
}

#[test]
fn keys_of_collects_every_key_once() {
    let mut map: HashMap<i32, String> = HashMap::new();
    assert!(keys_of(&map).is_empty());
    map.insert(7, String::from("a"));
    map.insert(-3, String::from("a"));
    map.insert(7, String::from("b"));
    let mut keys = keys_of(&map);
    keys.sort();
    assert_eq!(keys, vec![-3, 7]);
}

#[test]
fn hash_map_filter_finds_the_first_follower() {
    let summary = understanding_hash_map();
    assert_eq!(summary.filtered, vec![String::from("script_saga_follower_one")]);
}

#[test]
fn hash_map_after_removal() {
    let summary = understanding_hash_map();
    assert!(!summary.contains);
    assert!(!summary.is_empty);
}

#[test]
fn values_equal_to_counts_every_key_that_holds_the_value() {
    let mut map: HashMap<i32, String> = HashMap::new();
    map.insert(1, String::from("a"));
    map.insert(2, String::from("b"));
    map.insert(3, String::from("a"));
    map.insert(-4, String::from("a"));
    let wanted = String::from("a");
    assert_eq!(values_equal_to(&map, &wanted), vec![String::from("a"); 3]);
    let wanted = String::from("b");
    assert_eq!(values_equal_to(&map, &wanted), vec![String::from("b")]);
}

#[test]
fn values_equal_to_finds_nothing_where_nothing_matches() {
    let mut map: HashMap<i32, String> = HashMap::new();
    let wanted = String::from("a");
    assert!(values_equal_to(&map, &wanted).is_empty());
    map.insert(1, String::from("b"));
    map.insert(2, String::from("aa"));
    assert!(values_equal_to(&map, &wanted).is_empty());
}
