//! Patterns beyond plain variants: ranges, alternatives, guards and `@`
//! bindings.
//!
//! A `match` is exhaustive: its arms together cover every value, and the
//! first arm that fits is taken. Each function here names the arm that a
//! value takes.

use vstd::prelude::*;

verus! {

/// The arm taken by a number matched against inclusive ranges and a list of
/// alternatives.
#[derive(Clone, Copy, Debug, PartialEq, Eq, Structural)]
pub enum NumberRange {
    /// `0..=10`
    ZeroToTen,
    /// `11..=20`
    ElevenToTwenty,
    /// `21 | 22 | 23`
    TwentyOneToTwentyThree,
    /// Any other number.
    Elsewhere,
}

/// The arm taken by a number matched with guards on range and parity.
#[derive(Clone, Copy, Debug, PartialEq, Eq, Structural)]
pub enum NumberGuard {
    /// Between 1 and 10 and even.
    EvenOneToTen,
    /// Between 11 and 20 and odd.
    OddElevenToTwenty,
    /// No guard held.
    Unguarded,
}

/// A point in space, matched by its fields.
#[derive(Clone, Copy, Debug, PartialEq, Eq, Structural)]
pub struct Coordinate {
    pub x: i32,
    pub y: i32,
    pub z: i32,
}

/// The arm taken by a [`Coordinate`] destructured under guards.
#[derive(Clone, Copy, Debug, PartialEq, Eq, Structural)]
pub enum CoordinateGuard {
    /// `x`, `y` and `z` are all above 5.
    AllAboveFive,
    /// `x` and `y` are below 5 and `z` is above 5.
    OnlyZAboveFive,
    /// No guard held.
    Unguarded,
}

/// An enum with a struct-like variant, matched on the nested field.
#[allow(non_camel_case_types)]
#[derive(Clone, Copy, Debug, PartialEq, Eq, Structural)]
pub enum ScriptSagaFollower {
    FOLLOWER { follower_count: i32 },
}

/// The arm taken by a [`ScriptSagaFollower`] matched on its follower count.
#[derive(Clone, Copy, Debug, PartialEq, Eq, Structural)]
pub enum FollowerRange {
    /// Between 1 and 10; the `@` binding keeps the count.
    OneToTen { count: i32 },
    /// Between 11 and 20; the nested range binds nothing.
    ElevenToTwenty,
    /// Above 20, decided by a guard.
    AboveTwenty,
    /// Zero or negative.
    Elsewhere,
}

/// The arms taken by the four sample values of
/// [`understanding_advanced_pattern_matching`].
#[derive(Clone, Copy, Debug, PartialEq, Eq, Structural)]
pub struct ArmsTaken {
    pub range: NumberRange,
    pub guard: NumberGuard,
    pub coordinate: CoordinateGuard,
    pub follower: FollowerRange,
}

/// Which range a number lies in.
pub open spec fn number_range(number: int) -> NumberRange {
    if 0 <= number <= 10 {
        NumberRange::ZeroToTen
    } else if 11 <= number <= 20 {
        NumberRange::ElevenToTwenty
    } else if 21 <= number <= 23 {
        NumberRange::TwentyOneToTwentyThree
    } else {
        NumberRange::Elsewhere
    }
}

/// Which guard on range and parity a number meets.
pub open spec fn number_guard(number: int) -> NumberGuard {
    if 1 <= number <= 10 && number % 2 == 0 {
        NumberGuard::EvenOneToTen
    } else if 11 <= number <= 20 && number % 2 == 1 {
        NumberGuard::OddElevenToTwenty
    } else {
        NumberGuard::Unguarded
    }
}

/// Which guard the fields of a point meet.
pub open spec fn coordinate_guard(point: Coordinate) -> CoordinateGuard {
    if point.x > 5 && point.y > 5 && point.z > 5 {
        CoordinateGuard::AllAboveFive
    } else if point.x < 5 && point.y < 5 && point.z > 5 {
        CoordinateGuard::OnlyZAboveFive
    } else {
        CoordinateGuard::Unguarded
    }
}

/// Which range a follower count lies in.
pub open spec fn follower_range(follower: ScriptSagaFollower) -> FollowerRange {
    let count = follower->follower_count;
    if 1 <= count <= 10 {
        FollowerRange::OneToTen { count }
    } else if 11 <= count <= 20 {
        FollowerRange::ElevenToTwenty
    } else if count > 20 {
        FollowerRange::AboveTwenty
    } else {
        FollowerRange::Elsewhere
    }
}

/// Matches a number against range and alternative patterns. In a range
/// pattern `start..=end` the end is included.
pub fn match_number_range(number: i32) -> (arm: NumberRange)
    ensures
        arm == number_range(number as int),
{
    match number {
        0..=10 => NumberRange::ZeroToTen,
        11..=20 => NumberRange::ElevenToTwenty,
        21 | 22 | 23 => NumberRange::TwentyOneToTwentyThree,
        _ => NumberRange::Elsewhere,
    }
}

/// Matches a number with match guards: an arm is taken only if its pattern
/// fits and its `if` condition holds.
pub fn match_number_guard(number: i32) -> (arm: NumberGuard)
    ensures
        arm == number_guard(number as int),
{
    match number {
        n if n >= 1 && n <= 10 && n % 2 == 0 => NumberGuard::EvenOneToTen,
        n if n >= 11 && n <= 20 && n % 2 != 0 => NumberGuard::OddElevenToTwenty,
        _ => NumberGuard::Unguarded,
    }
}

/// Destructures a point and decides by guards over its fields.
pub fn match_coordinate_guard(point: Coordinate) -> (arm: CoordinateGuard)
    ensures
        arm == coordinate_guard(point),
{
    match point {
        Coordinate { x, y, z } if x > 5 && y > 5 && z > 5 => CoordinateGuard::AllAboveFive,
        Coordinate { x, y, z } if x < 5 && y < 5 && z > 5 => CoordinateGuard::OnlyZAboveFive,
        _ => CoordinateGuard::Unguarded,
    }
}

/// Matches inside a struct-like variant. `name @ pattern` tests the field
/// against the pattern and binds it to `name`; a bare nested pattern tests
/// it and binds nothing.
pub fn match_follower_range(follower: ScriptSagaFollower) -> (arm: FollowerRange)
    ensures
        arm == follower_range(follower),
{
    match follower {
        ScriptSagaFollower::FOLLOWER { follower_count: count @ 1..=10 } => FollowerRange::OneToTen {
            count,
        },
        ScriptSagaFollower::FOLLOWER { follower_count: 11..=20 } => FollowerRange::ElevenToTwenty,
        ScriptSagaFollower::FOLLOWER { follower_count } if follower_count > 20 => {
            FollowerRange::AboveTwenty
        },
        _ => FollowerRange::Elsewhere,
    }
}

/// Runs the four matches on sample values: the number 0 twice, the point
/// `(1, 1, 1)` and a follower count of 5.
///
/// Zero falls in the first range and meets no guard, the point meets no
/// guard, and the count is bound by the first follower arm.
pub fn understanding_advanced_pattern_matching() -> (arms: ArmsTaken)
    ensures
        arms == (ArmsTaken {
            range: NumberRange::ZeroToTen,
            guard: NumberGuard::Unguarded,
            coordinate: CoordinateGuard::Unguarded,
            follower: FollowerRange::OneToTen { count: 5 },
        }),
{
    let number: i32 = 0;
    let range = match_number_range(number);

    let number: i32 = 0;
    let guard = match_number_guard(number);

    let point1 = Coordinate { x: 1, y: 1, z: 1 };
    let coordinate = match_coordinate_guard(point1);

    let script_saga_follower = ScriptSagaFollower::FOLLOWER { follower_count: 5 };
    let follower = match_follower_range(script_saga_follower);

    ArmsTaken { range, guard, coordinate, follower }
}

} // verus!
