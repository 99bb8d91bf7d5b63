//! Variables, ownership and borrowing.
//!
//! Every value has one owner at a time and is dropped when its owner goes
//! out of scope. A value of known size is copied on assignment; a heap value
//! is moved. To read or change a value without taking it, borrow it: at any
//! time either one mutable reference or any number of shared ones.

use vstd::prelude::*;

verus! {

/// Constants state their type and are written in capitals.
pub const MY_CONSTANT: &'static str = "script_saga";

/// Ways to declare a variable: with or without a type, shadowing an earlier
/// name, borrowing, and mutable bindings.
pub fn variable_in_rust() {
    // A string slice lives in the program binary.
    let a: &str = "script_saga";
    // The type can be left to the compiler.
    let a = "script_saga";
    // Declaring the name again shadows the earlier binding.
    let a = "script_saga".as_bytes();

    let arg_bool = true;
    let arg_int: i32 = 32;

    // A reference to another variable.
    let pointer_arg = &arg_bool;

    let named = MY_CONSTANT;

    let mut arg_mutable = false;
    arg_mutable = true;
}

/// Copy and move: an integer is copied by assignment, a `String` is moved.
pub fn understand_ownership() {
    let a: u32 = 4;
    // The size is known at compile time: `b` is a copy and `a` stays valid.
    let b = a;

    let unsized_data = String::from("ScriptSaga");
    // Ownership passes to the new variable; `unsized_data` is no longer valid.
    let get_ownership = unsized_data;
}

/// Shared and mutable borrows of one `String`.
///
/// Two shared borrows coexist; the mutable borrow is taken only after the
/// last use of a shared one. Returns the text read through the first shared
/// borrow, `"follow_script_saga"`.
pub fn understand_borrow_rules() -> (shown: String)
    ensures
        shown@ == "follow_script_saga"@,
{
    let mut arg1: String = String::from("follow_script_saga");

    // Any number of shared borrows may read the value.
    let immutable_borrow_arg1_first = &arg1;
    let immutable_borrow_arg1_second = &arg1;

    let shown = immutable_borrow_arg1_first.clone();

    // Valid here: the shared borrows are no longer used.
    let mutable_borrow_arg1 = &mut arg1;

    shown
}

} // verus!
