//! A tour of everyday Rust, written so that every claim it makes about a
//! value is a contract that Verus proves.
//!
//! Each module covers one topic. A function that only exercises syntax has
//! nothing to promise; a function that produces something to show hands it
//! back as a plain value and states exactly what that value is.

// Many bindings exist only to show how a value is bound.
#![allow(unused_variables, unused_assignments, unused_mut, unreachable_patterns)]

use vstd::prelude::*;

pub mod advanced_patterns;
pub mod control_flow;
pub mod data_types;
pub mod hash_maps;
pub mod lifetimes;
pub mod ownership;
pub mod patterns;
pub mod results;
pub mod std_contracts;
pub mod strings;
pub mod traits;
pub mod vectors;

verus! {

/// The shape of a function: typed arguments in, one typed value out.
///
/// A leading underscore binds an argument without using it. The last
/// expression of the body is the returned value, here always `(23, true)`.
pub fn script_saga_function_one(_arg1: u32, _arg2: &String, _arg3: bool) -> (pair: (u32, bool))
    ensures
        pair == (23u32, true),
{
    (23, true)
}

} // verus!
