//! Plain snapshots of the world outside the simulation: the screen size
//! and the per-frame input state. Both are handed in by the caller each
//! frame, so every step of the simulation is a function of its arguments.

use vstd::prelude::*;
use crate::{SCREEN_LIMIT, SHIP_WIDTH};

verus! {

/// Logical screen size, in milli-pixels.
#[derive(Clone, Copy)]
pub struct Screen {
    pub width: i64,
    pub height: i64,
}

impl Screen {
    /// A usable screen: wide enough to hold the ship, and within the
    /// size range the fixed-point model represents.
    pub open spec fn wf(self) -> bool {
        &&& SHIP_WIDTH <= self.width <= SCREEN_LIMIT
        &&& 0 <= self.height <= SCREEN_LIMIT
    }
}

/// Input state sampled once per frame: the two steering keys are
/// level-triggered (held), start and abort are edge-triggered
/// (pressed this frame).
#[derive(Clone, Copy)]
pub struct FrameInput {
    pub left_held: bool,
    pub right_held: bool,
    pub start_pressed: bool,
    pub abort_pressed: bool,
}

impl FrameInput {
    /// A frame with no key held or pressed.
    pub fn idle() -> (i: FrameInput)
        ensures
            !i.left_held,
            !i.right_held,
            !i.start_pressed,
            !i.abort_pressed,
    {
        FrameInput { left_held: false, right_held: false, start_pressed: false, abort_pressed: false }
    }
}

} // verus!
