//! Decisions of the frame driver that do not touch the host: the instruction
//! budget per frame.

use vstd::prelude::*;

verus! {

/// Instructions run per frame at start-up.
pub const DEFAULT_SPEED: u32 = 10;

/// Fewest instructions per frame.
pub const MIN_SPEED: u32 = 2;

/// Most instructions per frame.
pub const MAX_SPEED: u32 = 50;

/// Change of the budget per speed key press.
pub const SPEED_STEP: u32 = 2;

/// The budget after one speed key press: up by a step, at most the maximum;
/// or down by a step, at least the minimum.
pub open spec fn adjusted_speed(speed: u32, faster: bool) -> int {
    if faster {
        if speed + SPEED_STEP > MAX_SPEED { MAX_SPEED as int } else { speed + SPEED_STEP }
    } else {
        if speed - SPEED_STEP < MIN_SPEED { MIN_SPEED as int } else { speed - SPEED_STEP }
    }
}

/// Applies one speed key press to the instruction budget.
pub fn adjust_speed(speed: u32, faster: bool) -> (r: u32)
    ensures
        r == adjusted_speed(speed, faster),
{
    if faster {
        if speed > MAX_SPEED - SPEED_STEP { MAX_SPEED } else { speed + SPEED_STEP }
    } else {
        if speed < MIN_SPEED + SPEED_STEP { MIN_SPEED } else { speed - SPEED_STEP }
    }
}

} // verus!
