//! Traits and method resolution.
//!
//! Rust has no inheritance. Shared behaviour is written as traits, and a
//! type may implement several of them. When a type has a method of its own
//! and trait methods of the same name, the call syntax decides which one
//! runs.

use vstd::prelude::*;

verus! {

/// The forms a trait method can take.
///
/// Every method of a trait is as visible as the trait itself.
pub trait Role {
    /// Declared without a return type.
    fn get_role_with_no_return_or_block(&self);

    /// Declared with the unit return type written out.
    fn get_role_with_no_block(&self) -> ();

    /// Declared with a body: implementing it is optional, and this body runs
    /// where it is not overridden.
    fn get_role_return_and_block(&self) -> () {
    }
}

/// Someone who flies an aircraft.
pub trait Pilot {
    /// What is said on take-off.
    fn fly(&self) -> &'static str;
}

/// Someone who flies by magic.
pub trait Wizard {
    /// What is said on take-off.
    fn fly(&self) -> &'static str;
}

/// A type with a `fly` of its own and one from each trait.
pub struct Human;

impl Human {
    /// The method of the type itself. Returns `"Human flying"`.
    pub fn fly(&self) -> (said: &'static str)
        ensures
            said@ == "Human flying"@,
    {
        "Human flying"
    }
}

impl Pilot for Human {
    /// Returns `"Pilot flying"`.
    fn fly(&self) -> (said: &'static str)
        ensures
            said@ == "Pilot flying"@,
    {
        "Pilot flying"
    }
}

impl Wizard for Human {
    /// Returns `"Wizard flying"`.
    fn fly(&self) -> (said: &'static str)
        ensures
            said@ == "Wizard flying"@,
    {
        "Wizard flying"
    }
}

/// Calls `fly` on a [`Human`] in four ways and returns what each call said.
///
/// Method syntax picks the method of the type itself. A trait's method is
/// reached through the trait's name, or through the fully qualified form
/// that names both the type and the trait.
pub fn understanding_rust_inheritance() -> (said: [&'static str; 4])
    ensures
        said[0]@ == "Human flying"@,
        said[1]@ == "Pilot flying"@,
        said[2]@ == "Wizard flying"@,
        said[3]@ == "Wizard flying"@,
{
    let human = Human;
    let direct = human.fly();
    let as_pilot = Pilot::fly(&human);
    let as_wizard = Wizard::fly(&human);

    let qualified = <Human as Wizard>::fly(&human);

    [direct, as_pilot, as_wizard, qualified]
}

} // verus!
