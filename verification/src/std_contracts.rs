//! Contracts for the few items of the standard library that the tour uses
//! and that `vstd` leaves unspecified. None of them is proved: each states
//! what the standard library's documentation says.

use std::collections::HashMap;
use vstd::prelude::*;

verus! {

/// `core::fmt::Error`, the unit-like error of the formatting traits. It is
/// only carried through signatures; nothing is said about its contents.
#[verifier::external_type_specification]
#[verifier::external_body]
pub struct ExFmtError(core::fmt::Error);

/// `String::from(&str)` allocates a `String` holding the same characters as
/// the slice it is given.
pub assume_specification<'a>[ <String as core::convert::From<&str>>::from ](s: &str) -> (owned: String)
    ensures
        owned@ == s@,
;

/// `<[T]>::reverse` reverses the order of the elements in place.
pub assume_specification<T>[ <[T]>::reverse ](slice: &mut [T])
    ensures
        final(slice)@ == old(slice)@.reverse(),
;

/// `HashMap::capacity` tells how many entries the map can hold before it
/// allocates again. The number depends on the allocator, so nothing is said
/// of it.
#[verifier::external_body]
pub(crate) fn hash_map_capacity(map: &HashMap<i32, String>) -> usize {
    map.capacity()
}

/// `Vec::capacity` tells how many elements the vector can hold before it
/// allocates again. The number depends on the allocator, so nothing is said
/// of it.
#[verifier::external_body]
pub(crate) fn vec_capacity(vec: &Vec<i32>) -> usize {
    vec.capacity()
}

/// `Iterator::next` on the owning iterator of a vector hands out the next
/// element, if one is left. Nothing is said of which.
#[verifier::external_body]
pub(crate) fn vec_into_iter_next(iter: &mut std::vec::IntoIter<bool>) -> Option<bool> {
    iter.next()
}

/// Whether no element of `s` is greater than one that comes after it.
pub open spec fn is_ascending(s: Seq<i32>) -> bool {
    forall|i: int, j: int| 0 <= i < j < s.len() ==> s[i] <= s[j]
}

/// `<[T]>::sort` on integers: afterwards the vector holds the same elements,
/// each as often as before, in ascending order.
#[verifier::external_body]
pub(crate) fn vec_sort(vec: &mut Vec<i32>)
    ensures
        final(vec)@.to_multiset() == old(vec)@.to_multiset(),
        is_ascending(final(vec)@),
{
    vec.sort();
}

/// `<[T]>::contains` on integers: whether some element equals `value`.
#[verifier::external_body]
pub(crate) fn vec_contains(vec: &Vec<i32>, value: &i32) -> (found: bool)
    ensures
        found == vec@.contains(*value),
{
    vec.contains(value)
}

} // verus!
