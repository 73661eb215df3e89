//! Bounded cyclic stepper: the inclusive wrap-around increment/decrement
//! primitive reused by every editable field.

use vstd::prelude::*;

verus! {

/// The next value of a cyclic step over the inclusive range
/// `[min_val, max_val]`: incrementing past `max_val` wraps to `min_val`,
/// decrementing past `min_val` wraps to `max_val`.
pub open spec fn spec_step(current_val: u8, min_val: u8, max_val: u8, increment: bool) -> u8 {
    if increment {
        if current_val == max_val {
            min_val
        } else {
            (current_val + 1) as u8
        }
    } else {
        if current_val == min_val {
            max_val
        } else {
            (current_val - 1) as u8
        }
    }
}

/// Increments or decrements by 1 through the inclusive range
/// `[min_val, max_val]`, wrapping around at either end.
pub fn inclusive_iterator(current_val: u8, min_val: u8, max_val: u8, increment: bool) -> (next: u8)
    requires
        min_val <= current_val <= max_val,
    ensures
        next == spec_step(current_val, min_val, max_val, increment),
        min_val <= next <= max_val,
{
    if increment {
        if current_val == max_val {
            min_val
        } else {
            current_val + 1
        }
    } else if current_val == min_val {
        max_val
    } else {
        current_val - 1
    }
}

/// A cyclic step up followed by a cyclic step down over the same range
/// returns the starting value, for every value inside the range.
pub proof fn lemma_step_round_trip(v: u8, min_val: u8, max_val: u8)
    requires
        min_val <= v <= max_val,
    ensures
        spec_step(spec_step(v, min_val, max_val, true), min_val, max_val, false) == v,
{
}

} // verus!
