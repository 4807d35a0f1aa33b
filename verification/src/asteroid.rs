//! Asteroids: circular hazards that spawn above the visible screen with
//! random position, speed and radius, drift down and sideways, and are
//! culled once they leave the play field by a generous margin.

use vstd::prelude::*;
use crate::{
    trunc_div, div_i64,
    COORD_LIMIT, FRAME_LIMIT, MAX_RADIUS, MAX_SPEED, MIN_RADIUS, SCALE, SPEED_LIMIT,
};
use crate::env::Screen;
use crate::rng::random_in_range;

verus! {

/// Mathematical model of an asteroid: position, velocity and radius as
/// unbounded integers.
pub ghost struct AsteroidModel {
    /// Horizontal position of the center, in milli-pixels.
    pub x: int,
    /// Vertical position of the center, in milli-pixels.
    pub y: int,
    /// Horizontal speed, in milli-pixels per second.
    pub speed_x: int,
    /// Vertical speed, in milli-pixels per second.
    pub speed_y: int,
    /// Radius, in milli-pixels.
    pub radius: int,
}

impl AsteroidModel {
    /// The state every asteroid of a running round stays in: coordinates
    /// within the representable range, speed components and radius within
    /// the ranges a spawn draws them from.
    pub open spec fn wf(self) -> bool {
        &&& -(COORD_LIMIT as int) <= self.x <= COORD_LIMIT
        &&& -(COORD_LIMIT as int) <= self.y <= COORD_LIMIT
        &&& 0 <= self.speed_x <= MAX_SPEED
        &&& 0 <= self.speed_y <= MAX_SPEED
        &&& MIN_RADIUS <= self.radius <= MAX_RADIUS
    }
}

/// What a fresh spawn guarantees: a random horizontal position on the
/// screen, a fixed start two radii above the top edge, non-negative
/// random speed components, and a radius within the spawn range.
pub open spec fn spec_spawn_ok(a: AsteroidModel, width: int) -> bool {
    &&& 0 <= a.x <= width
    &&& a.y == -2 * MAX_RADIUS as int
    &&& 0 <= a.speed_x <= MAX_SPEED
    &&& 0 <= a.speed_y <= MAX_SPEED
    &&& MIN_RADIUS <= a.radius <= MAX_RADIUS
}

/// One frame of drift: the position moves by the asteroid's own velocity
/// scaled by the elapsed time, and the vertical position additionally
/// falls by the ship's vertical speed scaled by the elapsed time, each
/// term truncated to milli-pixels separately.
pub open spec fn spec_asteroid_step(a: AsteroidModel, elapsed: int, ship_speed: int) -> AsteroidModel {
    AsteroidModel {
        x: a.x + trunc_div(a.speed_x * elapsed, SCALE as int),
        y: a.y + trunc_div(a.speed_y * elapsed, SCALE as int)
            + trunc_div(ship_speed * elapsed, SCALE as int),
        speed_x: a.speed_x,
        speed_y: a.speed_y,
        radius: a.radius,
    }
}

/// True when the asteroid is far enough outside the screen to be culled:
/// more than `3 * MAX_RADIUS` past the left, right or bottom edge. There
/// is no top check: asteroids spawn above the screen and never rise.
pub open spec fn spec_out_of_bounds(a: AsteroidModel, width: int, height: int) -> bool {
    ||| a.x < -3 * MAX_RADIUS as int
    ||| a.x > width + 3 * MAX_RADIUS as int
    ||| a.y > height + 3 * MAX_RADIUS as int
}

/// An asteroid's state between frames, in fixed-point milli-pixels.
#[derive(Clone, Copy)]
pub struct Asteroid {
    pub x: i64,
    pub y: i64,
    pub speed_x: i64,
    pub speed_y: i64,
    pub radius: i64,
}

impl View for Asteroid {
    type V = AsteroidModel;

    open spec fn view(&self) -> AsteroidModel {
        AsteroidModel {
            x: self.x as int,
            y: self.y as int,
            speed_x: self.speed_x as int,
            speed_y: self.speed_y as int,
            radius: self.radius as int,
        }
    }
}

/// The models of a whole list of asteroids, in order.
pub open spec fn views_of(asts: Seq<Asteroid>) -> Seq<AsteroidModel> {
    asts.map_values(|a: Asteroid| a@)
}

/// The circle an asteroid is rendered as, in milli-pixels.
#[derive(Clone, Copy)]
pub struct Circle {
    pub x: i64,
    pub y: i64,
    pub radius: i64,
}

impl Asteroid {
    /// A fresh asteroid just above the visible screen: horizontal
    /// position uniform over the screen width, both speed components
    /// uniform over `[0, MAX_SPEED]`, radius uniform over
    /// `[MIN_RADIUS, MAX_RADIUS]`.
    pub fn spawn(screen: &Screen) -> (a: Asteroid)
        requires
            screen.wf(),
        ensures
            spec_spawn_ok(a@, screen.width as int),
            a@.wf(),
    {
        let x = random_in_range(0, screen.width as u32) as i64;
        let speed_x = random_in_range(0, MAX_SPEED as u32) as i64;
        let speed_y = random_in_range(0, MAX_SPEED as u32) as i64;
        let radius = random_in_range(MIN_RADIUS as u32, MAX_RADIUS as u32) as i64;
        Asteroid { x, y: -2 * MAX_RADIUS, speed_x, speed_y, radius }
    }

    /// One frame of drift, mirroring `spec_asteroid_step`: the asteroid
    /// moves by its own velocity, and falls further by the ship's
    /// vertical speed.
    pub fn update(&mut self, elapsed: i64, ship_speed: i64)
        requires
            0 <= elapsed <= FRAME_LIMIT,
            -COORD_LIMIT <= old(self).x <= COORD_LIMIT,
            -COORD_LIMIT <= old(self).y <= COORD_LIMIT,
            -SPEED_LIMIT <= old(self).speed_x <= SPEED_LIMIT,
            -SPEED_LIMIT <= old(self).speed_y <= SPEED_LIMIT,
            -SPEED_LIMIT <= ship_speed <= SPEED_LIMIT,
        ensures
            final(self)@ == spec_asteroid_step(old(self)@, elapsed as int, ship_speed as int),
    {
        proof {
            crate::lemma_mul_bounds(
                self.speed_x as int, elapsed as int, SPEED_LIMIT as int, FRAME_LIMIT as int);
            crate::lemma_mul_bounds(
                self.speed_y as int, elapsed as int, SPEED_LIMIT as int, FRAME_LIMIT as int);
            crate::lemma_mul_bounds(
                ship_speed as int, elapsed as int, SPEED_LIMIT as int, FRAME_LIMIT as int);
        }
        self.x = self.x + div_i64(self.speed_x * elapsed, SCALE);
        let own_fall = div_i64(self.speed_y * elapsed, SCALE);
        let ship_fall = div_i64(ship_speed * elapsed, SCALE);
        self.y = self.y + own_fall + ship_fall;
    }

    /// True when the asteroid has left the play field by more than
    /// `3 * MAX_RADIUS` past the left, right or bottom edge.
    pub fn out_of_bounds(&self, screen: &Screen) -> (r: bool)
        requires
            screen.wf(),
        ensures
            r == spec_out_of_bounds(self@, screen.width as int, screen.height as int),
    {
        let left: i64 = -3 * MAX_RADIUS;
        let right: i64 = screen.width + 3 * MAX_RADIUS;
        let bottom: i64 = screen.height + 3 * MAX_RADIUS;
        self.x < left || self.x > right || self.y > bottom
    }

    /// The circle to render the asteroid as.
    pub fn draw(&self) -> (c: Circle)
        ensures
            c.x == self.x,
            c.y == self.y,
            c.radius == self.radius,
    {
        Circle { x: self.x, y: self.y, radius: self.radius }
    }
}

} // verus!
