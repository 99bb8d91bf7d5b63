//! Lifetimes: the scope within which a reference is valid.
//!
//! The compiler fills in lifetimes by three rules. Each reference parameter
//! gets its own lifetime; with exactly one input lifetime, every output gets
//! it; in a method, every output gets the lifetime of `self`. Where these
//! rules do not settle every reference, the lifetimes are written out.

use vstd::prelude::*;

verus! {

/// Inside one scope no lifetime has to be written.
pub fn understanding_lifetime() {
    let a: i32 = 5;
    let b = &a;
}

/// Each reference parameter silently gets a lifetime of its own.
pub fn function_without_lifetime_reference(arg1: &i32, arg2: &bool) {
}

/// One named lifetime shared by all three references. The `String` behind
/// the mutable reference is left as it was.
pub fn function_with_lifetime_reference<'solana>(
    arg1: &'solana i32,
    arg2: &'solana bool,
    arg3: &'solana mut String,
)
    ensures
        *final(arg3) == *old(arg3),
{
}

/// With a single reference parameter the result takes its lifetime. Returns
/// the argument itself.
pub fn function_with_one_param(arg1: &str) -> (same: &str)
    ensures
        same == arg1,
{
    arg1
}

/// The same with the parameter's lifetime spelled out. Returns the argument
/// itself.
pub fn function_with_correct_return_ref<'a>(arg1: &'a str) -> (same: &str)
    ensures
        same == arg1,
{
    arg1
}

/// Two slices from different scopes handed to a function that asks for one
/// common lifetime: the call stands inside the shorter scope.
pub fn script_saga() {
    let arg1 = "script";
    {
        let arg2 = "saga";
        execute_life_time(&arg1, &arg2);
    }
}

/// Both parameters and the result share one lifetime. Returns the first
/// argument.
pub fn execute_life_time<'a>(arg1: &'a str, arg2: &'a str) -> (first: &'a str)
    ensures
        first == arg1,
{
    arg1
}

/// A struct that stores a reference names the lifetime of what it borrows.
pub struct ScriptSagaFollower<'a> {
    pub first_name: &'a str,
    pub last_name: String,
}

impl<'a> ScriptSagaFollower<'a> {
    /// A method that takes `self` by value and returns nothing needs no
    /// lifetime.
    pub fn method_with_self(self, arg1: i32, arg2: bool) {
    }

    /// The result borrows from the struct's field, not from `arg1`, so it is
    /// given the struct's lifetime. Returns the stored first name.
    pub fn method_with_self_return_ref<'b>(self, arg1: &'b str) -> (name: &'a str)
        ensures
            name == self.first_name,
    {
        self.first_name
    }
}

} // verus!
