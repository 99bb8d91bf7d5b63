//! `Result` and `Option`: the two enums of the standard library that carry
//! either a value or its absence.

use vstd::prelude::*;

verus! {

/// A function whose return type is a `Result`.
///
/// The deciding condition is fixed to `true`, so the outcome is always the
/// success `Ok(1)`; the error branch shows how a failure would be built.
pub fn function_return_a_result() -> (outcome: Result<i32, String>)
    ensures
        outcome == Ok::<i32, String>(1),
{
    let condition = true;

    if condition {
        Ok(1)
    } else {
        Err(String::from("value"))
    }
}

/// A function whose return type is an `Option`.
///
/// The deciding condition is fixed to `true`, so the outcome is always
/// `Some(1)`.
pub fn function_return_an_option() -> (outcome: Option<i32>)
    ensures
        outcome == Some(1i32),
{
    let condition = true;

    if condition {
        Some(1)
    } else {
        None
    }
}

} // verus!
