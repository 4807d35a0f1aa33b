//! The one random primitive the simulation draws on: a uniform pick
//! from a closed range, used when an asteroid spawns.

use vstd::prelude::*;

verus! {

/// Relies on `macroquad::rand::gen_range` for `u32`: the draw is computed
/// as `low + (high - low) * r` with `r` in `[0, 1)` and truncated back to
/// an integer, so the result never leaves the two bounds. Nothing more is
/// assumed of a random draw.
#[verifier::external_body]
pub(crate) fn random_in_range(low: u32, high: u32) -> (r: u32)
    requires
        low <= high,
    ensures
        low <= r <= high,
{
    macroquad::rand::gen_range(low, high)
}

} // verus!
