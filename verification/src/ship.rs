//! The player's ship: a kinematic entity that steers horizontally,
//! is clamped to the visible width, and accumulates vertical speed
//! for as long as the round lasts.

use vstd::prelude::*;
use crate::{
    trunc_div, div_i64, sat_speed, clamp_speed,
    ACCELERATION, DECELERATION, FRAME_LIMIT, INITIAL_VERTICAL_SPEED, SCALE, SCREEN_LIMIT,
    SHIP_HEIGHT, SHIP_OFFSET, SHIP_RADIUS, SHIP_WIDTH, SPEED_LIMIT, VERTICAL_ACCELERATION,
};
use crate::env::{FrameInput, Screen};

verus! {

/// Mathematical model of a ship: the three scalars as unbounded integers.
pub ghost struct ShipModel {
    /// Horizontal position of the ship's center, in milli-pixels.
    pub position: int,
    /// Horizontal displacement applied to the position each frame, in milli-pixels.
    pub speed: int,
    /// Speed at which the field of asteroids falls past the ship, in milli-pixels per second.
    pub vertical_speed: int,
}

impl ShipModel {
    /// The state every ship built by this crate stays in: position within
    /// the representable screen range, speeds within the representable
    /// speed range, vertical speed never negative.
    pub open spec fn wf(self) -> bool {
        &&& 0 <= self.position <= SCREEN_LIMIT
        &&& -SPEED_LIMIT <= self.speed <= SPEED_LIMIT
        &&& 0 <= self.vertical_speed <= SPEED_LIMIT
    }
}

/// Horizontal speed after the deceleration step: the current speed is
/// divided by `DECELERATION` per-second times the elapsed frame time.
/// A zero frame delta leaves the speed unchanged rather than dividing
/// by zero. Note that for frame times under six milliseconds the divisor
/// is below one and the step grows the speed instead of shrinking it;
/// the saturation in `spec_new_speed` keeps that growth inside the
/// representable range.
pub open spec fn spec_decelerated(speed: int, elapsed: int) -> int {
    if elapsed <= 0 {
        speed
    } else {
        trunc_div(speed * SCALE, DECELERATION as int * elapsed)
    }
}

/// Horizontal speed after the steering step: each held steering key adds
/// `ACCELERATION` times the elapsed frame time, left negative, right positive.
pub open spec fn spec_steered(speed: int, elapsed: int, left: bool, right: bool) -> int {
    let after_left = if left { speed - ACCELERATION as int * elapsed } else { speed };
    if right { after_left + ACCELERATION as int * elapsed } else { after_left }
}

/// The new horizontal speed of a frame: decelerate, steer, then saturate
/// at the representable speed range.
pub open spec fn spec_new_speed(speed: int, elapsed: int, left: bool, right: bool) -> int {
    sat_speed(spec_steered(spec_decelerated(speed, elapsed), elapsed, left, right))
}

/// A horizontal position clamped so the whole ship stays on screen.
pub open spec fn spec_clamped(pos: int, width: int) -> int {
    let lo = SHIP_WIDTH as int / 2;
    let hi = width - SHIP_WIDTH as int / 2;
    if pos < lo {
        lo
    } else if pos > hi {
        hi
    } else {
        pos
    }
}

/// One whole frame of ship motion: new speed, position moved by it and
/// clamped to the screen, vertical speed increased by
/// `VERTICAL_ACCELERATION` times the elapsed frame time.
pub open spec fn spec_ship_step(s: ShipModel, elapsed: int, left: bool, right: bool, width: int) -> ShipModel {
    let sp = spec_new_speed(s.speed, elapsed, left, right);
    ShipModel {
        position: spec_clamped(s.position + sp, width),
        speed: sp,
        vertical_speed: sat_speed(s.vertical_speed + VERTICAL_ACCELERATION as int * elapsed),
    }
}

/// The ship a round starts with: centered horizontally, standing still,
/// with the baseline vertical speed.
pub open spec fn spec_new_ship(width: int) -> ShipModel {
    ShipModel {
        position: width / 2,
        speed: 0,
        vertical_speed: INITIAL_VERTICAL_SPEED as int,
    }
}

/// One frame of steering as the model sees it: the frame's elapsed time,
/// which keys were held, and the screen width of that moment.
pub ghost struct FrameStep {
    pub elapsed: int,
    pub left: bool,
    pub right: bool,
    pub width: int,
}

/// A ship taken through a whole sequence of frames, oldest first.
pub open spec fn spec_ship_run(s: ShipModel, frames: Seq<FrameStep>) -> ShipModel
    decreases frames.len(),
{
    if frames.len() == 0 {
        s
    } else {
        let prev = spec_ship_run(s, frames.drop_last());
        let f = frames.last();
        spec_ship_step(prev, f.elapsed, f.left, f.right, f.width)
    }
}

/// Law: over any sequence of frames with non-negative elapsed times, a
/// ship's vertical speed never decreases, and it never leaves the
/// representable speed range it started in.
pub proof fn lemma_vertical_speed_monotone(s: ShipModel, frames: Seq<FrameStep>)
    requires
        s.vertical_speed <= SPEED_LIMIT,
        forall|i: int| 0 <= i < frames.len() ==> (#[trigger] frames[i]).elapsed >= 0,
    ensures
        spec_ship_run(s, frames).vertical_speed >= s.vertical_speed,
        spec_ship_run(s, frames).vertical_speed <= SPEED_LIMIT,
    decreases frames.len(),
{
    if frames.len() > 0 {
        assert(forall|i: int| 0 <= i < frames.drop_last().len()
            ==> (#[trigger] frames.drop_last()[i]).elapsed >= 0);
        lemma_vertical_speed_monotone(s, frames.drop_last());
        assert(frames.last().elapsed >= 0);
    }
}

/// True when a circle at `(x, y)` with radius `radius` intersects the
/// bounding circle of a ship whose center sits at `(pos, height - SHIP_OFFSET)`:
/// the squared distance of the centers is less than the squared sum of
/// the radii.
pub open spec fn spec_collides(pos: int, height: int, x: int, y: int, radius: int) -> bool {
    let dx = x - pos;
    let dy = y - (height - SHIP_OFFSET as int);
    let rs = radius + SHIP_RADIUS as int;
    dx * dx + dy * dy < rs * rs
}

/// The ship's state between frames. All scalars are fixed-point:
/// milli-pixels for lengths, milli-pixels per second for the vertical speed.
#[derive(Clone, Copy)]
pub struct Ship {
    pub position: i64,
    pub speed: i64,
    pub vertical_speed: i64,
}

impl View for Ship {
    type V = ShipModel;

    open spec fn view(&self) -> ShipModel {
        ShipModel {
            position: self.position as int,
            speed: self.speed as int,
            vertical_speed: self.vertical_speed as int,
        }
    }
}

/// The triangle a ship is rendered as: three corners in milli-pixels.
#[derive(Clone, Copy)]
pub struct Triangle {
    pub top_x: i64,
    pub top_y: i64,
    pub right_x: i64,
    pub right_y: i64,
    pub left_x: i64,
    pub left_y: i64,
}

impl Ship {
    /// A fresh ship at the start of a round: centered horizontally,
    /// standing still, with the baseline vertical speed.
    pub fn new(screen: &Screen) -> (s: Ship)
        requires
            screen.wf(),
        ensures
            s@ == spec_new_ship(screen.width as int),
            s@.wf(),
    {
        Ship {
            position: screen.width / 2,
            speed: 0,
            vertical_speed: INITIAL_VERTICAL_SPEED,
        }
    }

    /// One frame of motion. Decelerates, steers by the held keys, moves
    /// the ship and clamps it to the visible width, and accumulates
    /// vertical speed. The position afterwards always lies within
    /// `[SHIP_WIDTH / 2, width - SHIP_WIDTH / 2]`, and the vertical
    /// speed never decreases.
    pub fn update(&mut self, elapsed: i64, input: &FrameInput, screen: &Screen)
        requires
            old(self)@.wf(),
            screen.wf(),
            0 <= elapsed <= FRAME_LIMIT,
        ensures
            final(self)@ == spec_ship_step(
                old(self)@, elapsed as int, input.left_held, input.right_held, screen.width as int),
            final(self)@.wf(),
            SHIP_WIDTH / 2 <= final(self).position <= screen.width - SHIP_WIDTH / 2,
            final(self).vertical_speed >= old(self).vertical_speed,
    {
        if elapsed > 0 {
            let divisor: i64 = DECELERATION * elapsed;
            self.speed = div_i64(self.speed * SCALE, divisor);
        }
        if input.left_held {
            self.speed = self.speed - ACCELERATION * elapsed;
        }
        if input.right_held {
            self.speed = self.speed + ACCELERATION * elapsed;
        }
        self.speed = clamp_speed(self.speed);
        let moved: i64 = self.position + self.speed;
        let lo: i64 = SHIP_WIDTH / 2;
        let hi: i64 = screen.width - lo;
        self.position = if moved < lo {
            lo
        } else if moved > hi {
            hi
        } else {
            moved
        };
        self.vertical_speed = clamp_speed(self.vertical_speed + VERTICAL_ACCELERATION * elapsed);
    }

    /// True when the ship's bounding circle intersects the circle at
    /// `(x, y)` with radius `radius`. The ship's own circle has radius
    /// `SHIP_RADIUS` and its center sits `SHIP_OFFSET` above the bottom
    /// edge at the ship's horizontal position.
    pub fn is_collapse(&self, x: i64, y: i64, radius: i64, screen: &Screen) -> (r: bool)
        requires
            screen.wf(),
            0 <= self.position <= SCREEN_LIMIT,
            -0x1000_0000_0000_0000 < x < 0x1000_0000_0000_0000,
            -0x1000_0000_0000_0000 < y < 0x1000_0000_0000_0000,
            0 <= radius < 0x1000_0000_0000_0000,
        ensures
            r == spec_collides(
                self.position as int, screen.height as int, x as int, y as int, radius as int),
    {
        let dx: i128 = (x as i128) - (self.position as i128);
        let dy: i128 = (y as i128) - ((screen.height as i128) - (SHIP_OFFSET as i128));
        let rs: i128 = (radius as i128) + (SHIP_RADIUS as i128);
        proof {
            let b: int = 0x2000_0000_0000_0000;
            assert(dx * dx <= b * b) by (nonlinear_arith)
                requires -b <= dx <= b;
            assert(dx * dx >= 0) by (nonlinear_arith);
            assert(dy * dy <= b * b) by (nonlinear_arith)
                requires -b <= dy <= b;
            assert(dy * dy >= 0) by (nonlinear_arith);
            assert(rs * rs <= b * b) by (nonlinear_arith)
                requires 0 <= rs <= b;
            assert(rs * rs >= 0) by (nonlinear_arith);
        }
        dx * dx + dy * dy < rs * rs
    }

    /// The speed at which the asteroid field falls past the ship.
    pub fn vertical_speed(&self) -> (r: i64)
        ensures
            r == self.vertical_speed,
    {
        self.vertical_speed
    }

    /// The triangle to render the ship as: the apex at the ship's
    /// position, the base `SHIP_OFFSET` above the bottom edge.
    pub fn draw(&self, screen: &Screen) -> (t: Triangle)
        requires
            screen.wf(),
            0 <= self.position <= SCREEN_LIMIT,
        ensures
            t.top_x == self.position,
            t.top_y == screen.height - SHIP_HEIGHT / 2 - SHIP_OFFSET,
            t.right_x == self.position + SHIP_WIDTH / 2,
            t.right_y == screen.height - SHIP_OFFSET,
            t.left_x == self.position - SHIP_WIDTH / 2,
            t.left_y == screen.height - SHIP_OFFSET,
    {
        Triangle {
            top_x: self.position,
            top_y: screen.height - SHIP_HEIGHT / 2 - SHIP_OFFSET,
            right_x: self.position + SHIP_WIDTH / 2,
            right_y: screen.height - SHIP_OFFSET,
            left_x: self.position - SHIP_WIDTH / 2,
            left_y: screen.height - SHIP_OFFSET,
        }
    }
}

} // verus!
