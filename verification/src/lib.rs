//! Core simulation of a small "dodge the asteroids" arcade game.
//!
//! The player's ship sits near the bottom of the screen and steers
//! horizontally while circular asteroids drift through the play field;
//! a round lasts until the ship collides with an asteroid or the player
//! aborts, and the best survival time is kept for the whole session.
//!
//! All geometry and time is modelled in fixed-point integers: lengths,
//! positions and speeds are milli-pixels (`1000` per pixel), time is in
//! milliseconds. The frame clock, the input snapshot and the screen size
//! are explicit parameters of every step, so the whole simulation is a
//! deterministic function of its inputs apart from the random asteroid
//! spawns, which go through a single random-range primitive.

use vstd::prelude::*;

pub mod asteroid;
pub mod env;
pub mod game;
pub mod rng;
pub mod ship;
pub mod state;

verus! {

/// Milli-pixels per pixel: the fixed-point scale of every length in the crate.
pub const SCALE: i64 = 1000;

/// Ship sprite width, in milli-pixels.
pub const SHIP_WIDTH: i64 = 25_000;
/// Ship sprite height, in milli-pixels.
pub const SHIP_HEIGHT: i64 = 50_000;
/// Vertical offset of the ship's baseline above the bottom edge, in milli-pixels.
pub const SHIP_OFFSET: i64 = 30_000;
/// Radius of the ship's bounding circle: `(width + height) / 4`.
pub const SHIP_RADIUS: i64 = 18_750;

/// Horizontal acceleration while a steering key is held,
/// in milli-pixels of speed gained per millisecond.
pub const ACCELERATION: i64 = 200;
/// Vertical acceleration, in milli-pixels of speed gained per millisecond.
pub const VERTICAL_ACCELERATION: i64 = 50;
/// Divisor rate of the horizontal deceleration step, per second.
pub const DECELERATION: i64 = 180;
/// Vertical speed a ship starts a round with, in milli-pixels per second.
pub const INITIAL_VERTICAL_SPEED: i64 = 100_000;

/// Smallest asteroid radius, in milli-pixels.
pub const MIN_RADIUS: i64 = 25_000;
/// Largest asteroid radius, in milli-pixels.
pub const MAX_RADIUS: i64 = 100_000;
/// Largest asteroid speed component, in milli-pixels per second.
pub const MAX_SPEED: i64 = 200_000;

/// Milliseconds of accumulated frame time after which a new asteroid spawns.
pub const SPAWN_INTERVAL: i64 = 500;

/// Upper bound on any time stamp the simulation accepts, in milliseconds.
pub const TIME_LIMIT: i64 = 1_000_000_000_000;
/// Upper bound on a single frame delta, in milliseconds.
pub const FRAME_LIMIT: i64 = 1_000_000;
/// Upper bound on the magnitude of any speed, in milli-pixels per second.
pub const SPEED_LIMIT: i64 = 1_000_000_000_000;
/// Upper bound on a screen dimension, in milli-pixels.
pub const SCREEN_LIMIT: i64 = 4_000_000_000;
/// Upper bound on the magnitude of an asteroid coordinate, in milli-pixels.
pub const COORD_LIMIT: i64 = 2_000_000_000_000_000;

/// Quotient of `a / b` rounded toward zero, as Rust's integer division rounds.
pub open spec fn trunc_div(a: int, b: int) -> int
    recommends b > 0
{
    if a >= 0 {
        a / b
    } else {
        -((-a) / b)
    }
}

/// The quotient never grows past the dividend in magnitude.
pub proof fn lemma_trunc_div_bounds(a: int, b: int)
    requires
        b >= 1,
    ensures
        a >= 0 ==> 0 <= trunc_div(a, b) <= a,
        a < 0 ==> a <= trunc_div(a, b) <= 0,
{
    if a >= 0 {
        vstd::arithmetic::div_mod::lemma_div_pos_is_pos(a, b);
        vstd::arithmetic::div_mod::lemma_div_nonincreasing(a, b);
    } else {
        vstd::arithmetic::div_mod::lemma_div_pos_is_pos(-a, b);
        vstd::arithmetic::div_mod::lemma_div_nonincreasing(-a, b);
    }
}

/// A product of two bounded factors is bounded by the product of the bounds,
/// and a product of two non-negative factors is non-negative.
pub proof fn lemma_mul_bounds(a: int, b: int, m: int, e: int)
    requires
        -m <= a <= m,
        0 <= b <= e,
        0 <= m,
    ensures
        -(m * e) <= a * b <= m * e,
        a >= 0 ==> 0 <= a * b,
{
    assert(-(m * e) <= a * b <= m * e && (a >= 0 ==> 0 <= a * b)) by (nonlinear_arith)
        requires
            -m <= a <= m,
            0 <= b <= e,
            0 <= m,
    ;
}

/// A speed within `[0, m]` applied over at most `FRAME_LIMIT` milliseconds
/// moves a coordinate by at most `m * FRAME_LIMIT / SCALE`, and never
/// backwards.
pub proof fn lemma_drift_bounds(v: int, e: int, m: int)
    requires
        0 <= v <= m,
        0 <= e <= FRAME_LIMIT,
    ensures
        0 <= trunc_div(v * e, SCALE as int) <= m * FRAME_LIMIT / (SCALE as int),
{
    assert(0 <= v * e <= m * FRAME_LIMIT) by (nonlinear_arith)
        requires
            0 <= v <= m,
            0 <= e <= FRAME_LIMIT,
    ;
    vstd::arithmetic::div_mod::lemma_div_pos_is_pos(v * e, SCALE as int);
    vstd::arithmetic::div_mod::lemma_div_is_ordered(v * e, m * FRAME_LIMIT, SCALE as int);
}

/// Integer division of an `i64` by a positive `i64`, tied to `trunc_div`.
pub fn div_i64(a: i64, b: i64) -> (r: i64)
    requires
        b > 0,
        a > i64::MIN,
    ensures
        r == trunc_div(a as int, b as int),
        a >= 0 ==> 0 <= r <= a,
        a < 0 ==> a <= r <= 0,
{
    proof {
        lemma_trunc_div_bounds(a as int, b as int);
    }
    if a >= 0 {
        a / b
    } else {
        let m: i64 = -a;
        -(m / b)
    }
}

/// A speed brought back into the representable range
/// `[-SPEED_LIMIT, SPEED_LIMIT]` of the fixed-point model.
pub open spec fn sat_speed(v: int) -> int {
    if v > SPEED_LIMIT {
        SPEED_LIMIT as int
    } else if v < -(SPEED_LIMIT as int) {
        -(SPEED_LIMIT as int)
    } else {
        v
    }
}

/// Saturates a speed at the representable range of the model.
pub fn clamp_speed(v: i64) -> (r: i64)
    ensures
        r == sat_speed(v as int),
{
    if v > SPEED_LIMIT {
        SPEED_LIMIT
    } else if v < -SPEED_LIMIT {
        -SPEED_LIMIT
    } else {
        v
    }
}

} // verus!
