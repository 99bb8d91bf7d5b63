//! Structs and enums.
//!
//! A struct keeps values of different types in one place. A tuple struct
//! gives a tuple a name of its own, so that two tuples of the same shape
//! stay different types. An enum is one of several variants, each with its
//! own payload, reached with `::`.

use vstd::prelude::*;

verus! {

/// A struct with named fields.
pub struct ScriptSagaFollower {
    pub first_name: String,
    pub last_name: String,
    pub mobile_number: u64,
    pub country_code: u16,
}

/// A position along three axes.
pub struct CartesianCoordinate(pub i32, pub i32, pub i32);

/// A rotation by three angles: the same shape as [`CartesianCoordinate`],
/// and a different type.
pub struct EulerCoordinate(pub i32, pub i32, pub i32);

/// An enum with a variant of each kind.
#[derive(Debug)]
pub enum ScriptSagaEnum {
    /// No payload.
    SimpleVariant,
    /// Fields by position.
    PointStructVariant(i32, i32, i32),
    /// Fields by name.
    StructVariant { first_name: String, last_name: String },
    /// A single field.
    SingleArgs(String),
}

/// What a [`ScriptSagaEnum`] holds, with each string as its characters.
pub enum ScriptSagaEnumView {
    SimpleVariant,
    PointStructVariant(i32, i32, i32),
    StructVariant { first_name: Seq<char>, last_name: Seq<char> },
    SingleArgs(Seq<char>),
}

impl View for ScriptSagaEnum {
    type V = ScriptSagaEnumView;

    open spec fn view(&self) -> ScriptSagaEnumView {
        match *self {
            ScriptSagaEnum::SimpleVariant => ScriptSagaEnumView::SimpleVariant,
            ScriptSagaEnum::PointStructVariant(x, y, z) => ScriptSagaEnumView::PointStructVariant(
                x,
                y,
                z,
            ),
            ScriptSagaEnum::StructVariant { first_name, last_name } => {
                ScriptSagaEnumView::StructVariant {
                    first_name: first_name@,
                    last_name: last_name@,
                }
            },
            ScriptSagaEnum::SingleArgs(text) => ScriptSagaEnumView::SingleArgs(text@),
        }
    }
}

/// Builds two tuple structs and one struct with named fields.
///
/// Returns the struct: both names empty, mobile number 123456789 and
/// country code 91.
pub fn implementing_rust_struct() -> (user: ScriptSagaFollower)
    ensures
        user.first_name@ == Seq::<char>::empty(),
        user.last_name@ == Seq::<char>::empty(),
        user.mobile_number == 123456789,
        user.country_code == 91,
{
    let robot_cartesian_coordinate = CartesianCoordinate(0, 0, 0);
    let robot_euler_coordinate = EulerCoordinate(10, 20, 30);

    let user: ScriptSagaFollower = ScriptSagaFollower {
        first_name: String::from(""),
        last_name: String::from(""),
        mobile_number: 123456789,
        country_code: 91,
    };

    proof {
        reveal_strlit("");
    }

    user
}

/// Builds one value of each variant.
///
/// Returns them in the order of declaration: the simple variant, the point
/// `(32, 32, 32)`, the names `"script"` and `"saga"`, and an empty string.
pub fn understanding_rust_enums() -> (variants: (
    ScriptSagaEnum,
    ScriptSagaEnum,
    ScriptSagaEnum,
    ScriptSagaEnum,
))
    ensures
        variants.0@ == ScriptSagaEnumView::SimpleVariant,
        variants.1@ == ScriptSagaEnumView::PointStructVariant(32, 32, 32),
        variants.2@ == (ScriptSagaEnumView::StructVariant {
            first_name: "script"@,
            last_name: "saga"@,
        }),
        variants.3@ == ScriptSagaEnumView::SingleArgs(Seq::<char>::empty()),
{
    let my_enum_simple_variant = ScriptSagaEnum::SimpleVariant;
    let my_enum_point_variant = ScriptSagaEnum::PointStructVariant(32, 32, 32);
    let my_enum_struct_variant = ScriptSagaEnum::StructVariant {
        first_name: "script".to_string(),
        last_name: "saga".to_string(),
    };
    let my_enum_single_args = ScriptSagaEnum::SingleArgs("".to_string());

    proof {
        reveal_strlit("");
        assert(""@ =~= Seq::<char>::empty());
    }

    (my_enum_simple_variant, my_enum_point_variant, my_enum_struct_variant, my_enum_single_args)
}

} // verus!
