//! Vectors: arrays that grow.
//!
//! A `Vec` keeps its elements on the heap, so its length need not be known
//! when the program is compiled.

use crate::std_contracts::{is_ascending, vec_capacity, vec_contains, vec_into_iter_next, vec_sort};
use vstd::relations::{sorted_by, total_ordering};
use vstd::seq_lib::lemma_sorted_unique;
use vstd::prelude::*;

verus! {

/// What [`understanding_rust_vec`] reads from its vector on the way, and
/// the vector it ends with.
pub struct VecSummary {
    /// Whether the vector was empty after three pushes.
    pub is_empty: bool,
    /// The element at index 0 after the pushes.
    pub first: i32,
    /// The length after the pushes.
    pub length: usize,
    /// The vector after it was reversed.
    pub reversed: Vec<i32>,
    /// The reversed vector after it was sorted.
    pub sorted: Vec<i32>,
    /// Whether the rearranged vector contains a 1.
    pub contains_one: bool,
    /// The sorted vector after a 1 was inserted in front.
    pub rearranged: Vec<i32>,
}

/// Sorting undoes reversal: the only ascending arrangement of the elements
/// of a reversed ascending sequence is that ascending sequence.
pub proof fn lemma_sort_undoes_reverse(ascending: Seq<i32>, sorted: Seq<i32>)
    requires
        is_ascending(ascending),
        is_ascending(sorted),
        sorted.to_multiset() == ascending.reverse().to_multiset(),
    ensures
        sorted == ascending,
{
    let leq = |a: i32, b: i32| a <= b;
    ascending.lemma_reverse_to_multiset();
    assert(sorted_by(ascending, leq));
    assert(sorted_by(sorted, leq));
    assert(total_ordering(leq));
    lemma_sorted_unique(sorted, ascending, leq);
}

/// Creates a vector, pushes 0, 1 and 2, reads it in several ways, and then
/// reverses it, sorts it and inserts a 1 at the front.
///
/// After the pushes the vector is not empty, starts with 0 and has length 3.
/// Reversing gives `[2, 1, 0]`, sorting gives `[0, 1, 2]`, and the insertion
/// leaves `[1, 0, 1, 2]`, which contains a 1.
pub fn understanding_rust_vec() -> (summary: VecSummary)
    ensures
        !summary.is_empty,
        summary.first == 0,
        summary.length == 3,
        summary.reversed@ == seq![2i32, 1, 0],
        summary.sorted@ == seq![0i32, 1, 2],
        summary.contains_one,
        summary.rearranged@ == seq![1i32, 0, 1, 2],
{
    // Two ways to create an empty vector.
    let mut vec_one: Vec<i32> = Vec::new();
    let vec_two: Vec<bool> = vec![];

    vec_one.push(0);
    vec_one.push(1);
    vec_one.push(2);

    let is_empty = vec_one.is_empty();

    // Indexing gives the element; `get` gives an `Option`.
    let first = vec_one[0];
    let value_at_zero_index = vec_one.get(0);

    let length = vec_one.len();

    // Three ways to walk over the elements.
    for element in vec_one.as_slice() {
    }

    for index in 0..vec_one.len() {
    }

    for element in vec_one.iter() {
    }

    // An owning iterator is advanced by hand with `next`.
    let mut vec_two_iter = vec_two.into_iter();
    vec_into_iter_next(&mut vec_two_iter);

    vec_capacity(&vec_one);
    let ghost pushed = vec_one@;
    vec_one.reverse();
    let reversed = vec_one.clone();
    vec_sort(&mut vec_one);
    proof {
        lemma_sort_undoes_reverse(pushed, vec_one@);
    }
    let sorted = vec_one.clone();
    vec_one.insert(0, 1);
    let does_contain: i32 = 1;
    let contains_one = vec_contains(&vec_one, &does_contain);
    assert(vec_one@[0] == does_contain);
    let array_sliced = vec_one.as_slice();

    VecSummary { is_empty, first, length, reversed, sorted, contains_one, rearranged: vec_one }
}

} // verus!
