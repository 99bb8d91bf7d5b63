use rust_tour::lifetimes::{
    execute_life_time, function_with_correct_return_ref, function_with_lifetime_reference,
    function_with_one_param, function_without_lifetime_reference, understanding_lifetime,
    ScriptSagaFollower,
};
use rust_tour::ownership::{
    understand_borrow_rules, understand_ownership, variable_in_rust, MY_CONSTANT,
};
use rust_tour::results::{function_return_a_result, function_return_an_option};
use rust_tour::script_saga_function_one;
use rust_tour::strings::{check_deref_coercion, understanding_rust_strings};

#[test]
fn function_one_returns_the_fixed_pair() {
    let arg2 = String::from("Shashank");
    assert_eq!(script_saga_function_one(1, &arg2, true), (23, true));
}

#[test]
fn function_one_ignores_its_arguments() {
    let empty = String::new();
    assert_eq!(script_saga_function_one(0, &empty, false), (23, true));
    assert_eq!(script_saga_function_one(u32::MAX, &empty, true), (23, true));
}

#[test]
fn result_is_ok_one() {
    assert_eq!(function_return_a_result(), Ok(1));
}

#[test]
fn option_is_some_one() {
    assert_eq!(function_return_an_option(), Some(1));
}

#[test]
fn constant_holds_its_text() {
    assert_eq!(MY_CONSTANT, "script_saga");
}

#[test]
fn variables_and_ownership_run_to_the_end() {
    variable_in_rust();
    understand_ownership();
    understanding_lifetime();
}

#[test]
fn shared_borrow_reads_the_string() {
    assert_eq!(understand_borrow_rules(), "follow_script_saga");
}

#[test]
fn references_are_only_read() {
    let number = 7;
    let flag = false;
    function_without_lifetime_reference(&number, &flag);
    assert_eq!(number, 7);
    assert!(!flag);
}

#[test]
fn mutable_string_is_left_as_it_was() {
    let number = 7;
    let flag = true;
    let mut text = String::from("solana");
    function_with_lifetime_reference(&number, &flag, &mut text);
    assert_eq!(text, "solana");
}

#[test]
fn one_param_comes_back() {
    let text = String::from("script");
    let back = function_with_one_param(&text);
    assert_eq!(back, "script");
    assert_eq!(back.as_ptr(), text.as_ptr());
    assert_eq!(function_with_one_param(""), "");
}

#[test]
fn correct_return_ref_comes_back() {
    let text = String::from("saga");
    let back = function_with_correct_return_ref(&text);
    assert_eq!(back, "saga");
    assert_eq!(back.as_ptr(), text.as_ptr());
}

#[test]
fn execute_life_time_returns_the_first() {
    assert_eq!(execute_life_time("script", "saga"), "script");
    assert_eq!(execute_life_time("saga", "script"), "saga");
    rust_tour::lifetimes::script_saga();
}

#[test]
fn follower_method_returns_the_first_name() {
    let first = String::from("script");
    let follower = ScriptSagaFollower { first_name: &first, last_name: String::from("saga") };
    let name = follower.method_with_self_return_ref("other");
    assert_eq!(name, "script");
    assert_eq!(name.as_ptr(), first.as_ptr());
}

#[test]
fn follower_method_with_self_consumes_the_follower() {
    let follower = ScriptSagaFollower { first_name: "script", last_name: String::from("saga") };
    assert_eq!(follower.last_name, "saga");
    follower.method_with_self(1, true);
}

#[test]
fn last_string_created_is_empty() {
    assert_eq!(understanding_rust_strings(), "");
    assert_eq!(format!("{:?}", understanding_rust_strings()), "\"\"");
}

#[test]
fn deref_coercion_accepts_both_kinds() {
    let owned = String::from("script_saga");
    check_deref_coercion(&owned);
    check_deref_coercion("script_saga");
    assert_eq!(owned, "script_saga");
}

