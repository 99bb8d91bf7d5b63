//! Pattern matching with `match` and `if let`, and destructuring with
//! `let`.
//!
//! A pattern that fits every value of its type is irrefutable; `let`,
//! function parameters and `for` take only such patterns. A pattern that
//! may fail to fit is refutable and belongs in `match`, `if let` or
//! `while let`.

use vstd::prelude::*;

verus! {

/// The roles that the first `match` tells apart.
#[allow(non_camel_case_types)]
pub enum ScriptSaga {
    ADMIN,
    DEVELOPER,
    USER,
    DESIGNER,
}

/// A tuple struct: its fields are matched by position.
pub struct Point(pub i32, pub i32, pub i32);

/// A struct with named fields: they are matched by name.
pub struct Coordinate {
    pub x: i32,
    pub y: i32,
    pub z: i32,
}

/// Matching on enum variants, on a `Result`, on a tuple of values, and on
/// one case alone with `if let`.
///
/// Every arm of a `match` gives the same type. Returns the two values that
/// the matches bring out: the number inside the `Ok`, which is 1, and the
/// number that `if let` finds inside `Some(5)`.
pub fn understanding_pattern_matching() -> (shown: (i32, Option<i32>))
    ensures
        shown == (1i32, Some(5i32)),
{
    let script_saga_enum = ScriptSaga::ADMIN;

    // The arms are tried in order; `_` takes whatever is left and binds
    // nothing.
    match script_saga_enum {
        ScriptSaga::ADMIN => {},
        ScriptSaga::DESIGNER => {},
        ScriptSaga::USER => {},
        _ => {},
    }

    // Handling both outcomes of a `Result`.
    match something_that_returns_result_type(true) {
        Ok(value) => {},
        Err(_value) => {},
    };

    // A `match` is an expression: the chosen arm is its value.
    let value = match something_that_returns_result_type(true) {
        Ok(value) => value,
        Err(_value) => 0,
    };

    // Several values are matched at once as a tuple.
    let statement_one: i32 = 0;
    let statement_two: bool = true;

    let (res1, res2) = match (statement_one, statement_two) {
        (0, true) => (0i32, 1i32),
        (_, _) => (0i32, 1i32),
    };

    // `if let` looks at one case and ignores the rest.
    let option = Some(5i32);
    let mut inner: Option<i32> = None;

    if let Some(val) = option {
        inner = Some(val);
    }

    (value, inner)
}

/// A function that can only succeed: it must be called with a condition that
/// holds, and then returns `Ok(1)`.
pub fn something_that_returns_result_type(some_condition: bool) -> (outcome: Result<
    i32,
    core::fmt::Error,
>)
    requires
        some_condition,
    ensures
        outcome == Ok::<i32, core::fmt::Error>(1),
{
    Ok(1)
}

/// Destructuring tuples, arrays, tuple structs and structs with named
/// fields.
///
/// A field that is not needed is skipped with `_` by position or with `..`
/// for the rest. Once an arm fits every value, the arms after it are never
/// reached.
pub fn understanding_rust_destructuring_with_pattern_matching() {
    let arr_1: [i32; 2] = [1, 2];
    // Several variables are bound in one line by a tuple pattern.
    let (a, mut b, c) = (1i32, 2i32, arr_1);

    // An array is not a tuple: its elements are reached by position.
    let a = arr_1[0];

    let origin = Point(0, 0, 0);
    // Parentheses for a tuple struct.
    let Point(x, y, z) = origin;

    // Curly brackets for named fields.
    let coordinate_one = Coordinate { x: 0, y: 0, z: 0 };
    let Coordinate { x, y, z } = coordinate_one;

    let a = vec![1i32, 2, 3, 4];

    // Every field is named, or skipped with `_` or `..`.
    let Point(x, _, _) = origin;

    let Coordinate { x, .. } = coordinate_one;

    match origin {
        Point(x, _, _) => {},
        // Never reached: the arm above fits every point.
        Point(x, y, _) => {},
    }

    match origin {
        Point(x, ..) => {},
        // Never reached either.
        Point(x, y, ..) => {},
    }
}

} // verus!
