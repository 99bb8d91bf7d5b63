//! Strings: `&str` and `String`.
//!
//! A string slice `&str` refers to text stored elsewhere, for a literal in
//! the program binary. A `String` owns its text on the heap and can grow.

use vstd::prelude::*;

verus! {

/// Ways to create a `String`, and how to get a `&str` from one.
///
/// The last `String` created is empty. Returns the text of the slice taken
/// from it, which is empty too.
pub fn understanding_rust_strings() -> (shown: String)
    ensures
        shown@ == Seq::<char>::empty(),
{
    // A literal is a slice of the program binary.
    let static_str: &str = "script_saga";

    let dynamic_str = String::new();

    // Three ways to create an owned string.
    let dynamic_str = "script_saga".to_string();
    let dynamic_str = String::from("script_saga");
    let dynamic_str = String::new();

    // From `String` to `&str`.
    let str_type = dynamic_str.as_str();

    // A `&String` is accepted where a `&str` is asked for: `String`
    // dereferences to `str`.
    check_deref_coercion(&dynamic_str);

    str_type.to_owned()
}

/// Takes a string slice and does nothing with it.
pub fn check_deref_coercion(arg_one: &str) {
}

} // verus!
