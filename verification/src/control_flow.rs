//! Control flow: `if`, `for` and `while`.

use vstd::prelude::*;

verus! {

/// The values that each loop of [`understanding_loops`] visits, in the
/// order in which it visits them.
pub struct LoopVisits {
    /// Visited by `for` over the range `0..10`.
    pub range: Vec<i32>,
    /// Visited by `while` counting up to 100.
    pub counter: Vec<i32>,
    /// Visited by `for` over the positions of an array, copying each element
    /// out.
    pub by_value: Vec<i32>,
    /// Visited by `for` over the array's iterator, through references.
    pub by_reference: Vec<i32>,
}

/// The numbers from 0 up to, not including, `end`.
pub open spec fn count_up(end: nat) -> Seq<i32>
    recommends
        end <= i32::MAX,
{
    Seq::new(end, |i: int| i as i32)
}

/// `if`, `else if` and `else`, conditions joined by `&&` and `||`, and `if`
/// as an expression that initialises a variable.
///
/// A condition is always a `bool`: no other value stands for true or false.
pub fn understanding_if_else() {
    let some_condition: bool = true;
    let some_other_condition: bool = true;

    if some_condition {
        // runs when the condition holds
    } else {
        // runs when it does not
    }

    if some_condition && some_other_condition {
        // runs when both sides hold
    }
    if some_condition || some_other_condition {
        // runs when at least one side holds
    }

    if some_condition {
        // the first condition that holds decides
    } else if some_other_condition {
        // tried only when the conditions before it failed
    } else {
        // runs when none held
    }

    // Both branches give a value of the same type.
    let args: i32 = if some_condition {
        0
    } else {
        1
    };
}

/// The loop forms: `for` over a range whose end is excluded, `while` on a
/// condition, `for` over the positions of an array and `for` over its
/// iterator.
///
/// Returns what each loop visits: 0 to 9, 0 to 99, and the array
/// `[1, 2, 3, 4, 5]` twice.
pub fn understanding_loops() -> (visits: LoopVisits)
    ensures
        visits.range@ == count_up(10),
        visits.counter@ == count_up(100),
        visits.by_value@ == seq![1i32, 2, 3, 4, 5],
        visits.by_reference@ == seq![1i32, 2, 3, 4, 5],
{
    let mut range: Vec<i32> = Vec::new();
    for i in 0i32..10
        invariant
            range@ == count_up(i as nat),
    {
        range.push(i);
        assert(range@ =~= count_up((i + 1) as nat));
    }

    let mut counter: Vec<i32> = Vec::new();
    let mut x: i32 = 0;
    while x < 100
        invariant
            0 <= x <= 100,
            counter@ == count_up(x as nat),
        decreases 100 - x,
    {
        counter.push(x);
        x += 1;
        assert(counter@ =~= count_up(x as nat));
    }

    let a: [i32; 5] = [1, 2, 3, 4, 5];

    let mut by_value: Vec<i32> = Vec::new();
    for index in 0..a.len()
        invariant
            by_value@ == a@.take(index as int),
    {
        let number = a[index];
        by_value.push(number);
        assert(by_value@ =~= a@.take(index + 1));
    }
    assert(by_value@ =~= a@);

    let mut by_reference: Vec<i32> = Vec::new();
    for number in cursor: a.iter()
        invariant
            cursor.seq().len() == 5,
            forall|k: int| 0 <= k < 5 ==> *cursor.seq()[k] == a@[k],
            by_reference@ == a@.take(cursor.index()),
    {
        by_reference.push(*number);
        assert(by_reference@ =~= a@.take(cursor.index() + 1));
    }
    assert(by_reference@ =~= a@);

    LoopVisits { range, counter, by_value, by_reference }
}

} // verus!
