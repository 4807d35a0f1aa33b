//! One round of play: the ship, the asteroid field and the spawn timer,
//! advanced one frame at a time until the player aborts or an asteroid
//! hits the ship, at which point the survived time is reported.

use vstd::prelude::*;
use crate::{FRAME_LIMIT, SPAWN_INTERVAL, TIME_LIMIT};
use crate::asteroid::{
    spec_asteroid_step, spec_out_of_bounds, spec_spawn_ok, views_of, Asteroid, AsteroidModel,
    Circle,
};
use crate::env::{FrameInput, Screen};
use crate::ship::{spec_collides, spec_new_ship, spec_ship_step, Ship, ShipModel, Triangle};

verus! {

/// Mathematical model of a round.
pub ghost struct GameModel {
    /// Clock reading when the round started, in milliseconds.
    pub start_time: int,
    /// Clock reading of the previous completed frame, in milliseconds.
    pub last_update: int,
    /// The player's ship.
    pub ship: ShipModel,
    /// Frame time accumulated since the last spawn, in milliseconds.
    pub asteroid_timer: int,
    /// Every live asteroid, oldest first.
    pub asteroids: Seq<AsteroidModel>,
}

impl GameModel {
    /// The state every round built by this crate stays in between frames.
    pub open spec fn wf(self) -> bool {
        &&& 0 <= self.start_time <= self.last_update <= TIME_LIMIT
        &&& 0 <= self.asteroid_timer <= SPAWN_INTERVAL
        &&& self.ship.wf()
        &&& forall|i: int| 0 <= i < self.asteroids.len() ==> (#[trigger] self.asteroids[i]).wf()
    }
}

/// A fresh round started at clock reading `now`: both times equal `now`,
/// a fresh ship, an empty field and a zero spawn timer.
pub open spec fn spec_new_game(now: int, width: int) -> GameModel {
    GameModel {
        start_time: now,
        last_update: now,
        ship: spec_new_ship(width),
        asteroid_timer: 0,
        asteroids: Seq::empty(),
    }
}

/// True when this frame's accumulated timer crosses the spawn interval,
/// so one asteroid is appended and the timer resets.
pub open spec fn spec_spawn_due(timer: int, elapsed: int) -> bool {
    timer + elapsed > SPAWN_INTERVAL
}

/// The spawn timer after a frame: reset to zero on a spawn, otherwise
/// grown by the elapsed time.
pub open spec fn spec_timer_after(timer: int, elapsed: int) -> int {
    if spec_spawn_due(timer, elapsed) {
        0
    } else {
        timer + elapsed
    }
}

/// The asteroids that survive the cull: those not out of bounds, in
/// the order they already had.
pub open spec fn spec_retained(asts: Seq<AsteroidModel>, width: int, height: int) -> Seq<AsteroidModel>
    decreases asts.len(),
{
    if asts.len() == 0 {
        Seq::empty()
    } else {
        let rest = spec_retained(asts.drop_last(), width, height);
        if spec_out_of_bounds(asts.last(), width, height) {
            rest
        } else {
            rest.push(asts.last())
        }
    }
}

/// The first index at or after `from` whose asteroid, once moved this
/// frame, collides with the ship; `None` when none does. The ship passed
/// in has already moved this frame: each asteroid drifts by its current
/// vertical speed and is tested against its current position.
pub open spec fn spec_first_collision(
    asts: Seq<AsteroidModel>, from: int, elapsed: int, ship: ShipModel, height: int,
) -> Option<int>
    decreases asts.len() - from,
{
    if from < 0 || from >= asts.len() {
        None
    } else {
        let moved = spec_asteroid_step(asts[from], elapsed, ship.vertical_speed);
        if spec_collides(ship.position, height, moved.x, moved.y, moved.radius) {
            Some(from)
        } else {
            spec_first_collision(asts, from + 1, elapsed, ship, height)
        }
    }
}

/// The asteroid list a non-aborted frame works on: the previous list,
/// plus the spawned asteroid when the timer crossed the interval, with
/// every out-of-bounds asteroid culled.
pub open spec fn spec_frame_kept(
    g: GameModel, now: int, width: int, height: int, spawned: Option<AsteroidModel>,
) -> Seq<AsteroidModel> {
    let elapsed = now - g.last_update;
    let with_spawn = if spec_spawn_due(g.asteroid_timer, elapsed) {
        g.asteroids.push(spawned->Some_0)
    } else {
        g.asteroids
    };
    spec_retained(with_spawn, width, height)
}

/// The ship after this frame's motion: the frame moves the ship before
/// it moves any asteroid.
pub open spec fn spec_frame_ship(
    g: GameModel, now: int, left: bool, right: bool, width: int,
) -> ShipModel {
    spec_ship_step(g.ship, now - g.last_update, left, right, width)
}

/// Where a non-aborted frame finds its collision, if anywhere: the
/// surviving asteroids are tested in order against the ship already
/// moved this frame.
pub open spec fn spec_frame_collision(
    g: GameModel, now: int, left: bool, right: bool, width: int, height: int,
    spawned: Option<AsteroidModel>,
) -> Option<int> {
    spec_first_collision(
        spec_frame_kept(g, now, width, height, spawned),
        0,
        now - g.last_update,
        spec_frame_ship(g, now, left, right, width),
        height,
    )
}

/// What a non-aborted frame reports: the survived time on a collision,
/// nothing otherwise.
pub open spec fn spec_game_frame_report(
    g: GameModel, now: int, left: bool, right: bool, width: int, height: int,
    spawned: Option<AsteroidModel>,
) -> Option<int> {
    if spec_frame_collision(g, now, left, right, width, height, spawned) is Some {
        Some(now - g.start_time)
    } else {
        None
    }
}

/// The round state after a non-aborted frame. The ship has moved either
/// way. On a collision at index `i` the frame stops there: only the
/// asteroids up to and including `i` have drifted, and the frame clock
/// stays as it was, since the round ends and reports at that point.
/// Otherwise every asteroid has drifted by the moved ship's vertical
/// speed and the frame clock reads `now`.
pub open spec fn spec_game_frame_state(
    g: GameModel, now: int, left: bool, right: bool, width: int, height: int,
    spawned: Option<AsteroidModel>,
) -> GameModel {
    let elapsed = now - g.last_update;
    let timer = spec_timer_after(g.asteroid_timer, elapsed);
    let kept = spec_frame_kept(g, now, width, height, spawned);
    let ship = spec_frame_ship(g, now, left, right, width);
    match spec_frame_collision(g, now, left, right, width, height, spawned) {
        Some(i) => GameModel {
            start_time: g.start_time,
            last_update: g.last_update,
            ship: ship,
            asteroid_timer: timer,
            asteroids: kept.map(|j: int, a: AsteroidModel|
                if j <= i {
                    spec_asteroid_step(a, elapsed, ship.vertical_speed)
                } else {
                    a
                }),
        },
        None => GameModel {
            start_time: g.start_time,
            last_update: now,
            ship: ship,
            asteroid_timer: timer,
            asteroids: kept.map(|j: int, a: AsteroidModel|
                spec_asteroid_step(a, elapsed, ship.vertical_speed)),
        },
    }
}

/// The model of an optional spawned asteroid.
pub open spec fn opt_asteroid_model(o: Option<Asteroid>) -> Option<AsteroidModel> {
    match o {
        Option::None => None,
        Option::Some(a) => Some(a@),
    }
}

/// The model of an optional reported time.
pub open spec fn opt_time_model(o: Option<i64>) -> Option<int> {
    match o {
        Option::None => None,
        Option::Some(t) => Some(t as int),
    }
}

/// One round's state between frames. Times are milliseconds, every
/// length is milli-pixels.
pub struct Game {
    pub start_time: i64,
    pub last_update: i64,
    pub ship: Ship,
    pub asteroid_timer: i64,
    pub asteroids: Vec<Asteroid>,
}

impl View for Game {
    type V = GameModel;

    open spec fn view(&self) -> GameModel {
        GameModel {
            start_time: self.start_time as int,
            last_update: self.last_update as int,
            ship: self.ship@,
            asteroid_timer: self.asteroid_timer as int,
            asteroids: views_of(self.asteroids@),
        }
    }
}

/// Everything a renderer needs to draw one frame of a round: the two
/// time readings, whether the current run already beats the record, and
/// the shapes, ship first, asteroids after, in painter's order.
pub struct RoundView {
    /// Time survived so far this round, in milliseconds.
    pub current_time: i64,
    /// The session's best time, in milliseconds.
    pub best_time: i64,
    /// True when the current run already beats the best time.
    pub is_record: bool,
    /// The ship's triangle.
    pub ship: Triangle,
    /// One circle per live asteroid, oldest first.
    pub asteroids: Vec<Circle>,
}

impl Game {
    /// A fresh round started at clock reading `now`.
    pub fn new(now: i64, screen: &Screen) -> (g: Game)
        requires
            screen.wf(),
            0 <= now <= TIME_LIMIT,
        ensures
            g@ == spec_new_game(now as int, screen.width as int),
            g@.wf(),
    {
        let g = Game {
            start_time: now,
            last_update: now,
            ship: Ship::new(screen),
            asteroid_timer: 0,
            asteroids: Vec::with_capacity(100),
        };
        proof {
            assert(g@.asteroids =~= Seq::<AsteroidModel>::empty());
        }
        g
    }

    /// Time survived so far at clock reading `now`, in milliseconds.
    pub fn game_time(&self, now: i64) -> (r: i64)
        requires
            0 <= self.start_time <= now,
        ensures
            r == now - self.start_time,
    {
        now - self.start_time
    }

    /// Frame time elapsed since the previous completed frame, in milliseconds.
    pub fn elapsed_time(&self, now: i64) -> (r: i64)
        requires
            0 <= self.last_update <= now,
        ensures
            r == now - self.last_update,
    {
        now - self.last_update
    }

    /// One non-aborted frame, with the spawn decision already taken:
    /// `spawned` carries the new asteroid exactly when the timer crosses
    /// the spawn interval this frame. Deterministic: the state after and
    /// the report are fixed by the arguments.
    #[verifier::loop_isolation(false)]
    pub fn update_with(
        &mut self, now: i64, input: &FrameInput, screen: &Screen, spawned: Option<Asteroid>,
    ) -> (r: Option<i64>)
        requires
            old(self)@.wf(),
            screen.wf(),
            !input.abort_pressed,
            old(self).last_update <= now <= TIME_LIMIT,
            now - old(self).last_update <= FRAME_LIMIT,
            spawned is Some <==> spec_spawn_due(
                old(self)@.asteroid_timer, now - old(self)@.last_update),
            spawned matches Some(a) ==> spec_spawn_ok(a@, screen.width as int),
        ensures
            final(self)@ == spec_game_frame_state(
                old(self)@, now as int, input.left_held, input.right_held,
                screen.width as int, screen.height as int, opt_asteroid_model(spawned)),
            opt_time_model(r) == spec_game_frame_report(
                old(self)@, now as int, input.left_held, input.right_held,
                screen.width as int, screen.height as int, opt_asteroid_model(spawned)),
            final(self)@.wf(),
            r matches Some(t) ==> t == now - old(self).start_time,
    {
        let ghost g0 = self@;
        let ghost width = screen.width as int;
        let ghost height = screen.height as int;
        let ghost sp = opt_asteroid_model(spawned);
        let elapsed = now - self.last_update;

        // Accumulate the spawn timer; on crossing the interval, reset it
        // and append the spawned asteroid.
        self.asteroid_timer = self.asteroid_timer + elapsed;
        if self.asteroid_timer > SPAWN_INTERVAL {
            self.asteroid_timer = 0;
            match spawned {
                Some(a) => {
                    self.asteroids.push(a);
                },
                None => {
                    // The callers' spawn consistency rules this arm out.
                    vstd::pervasive::unreached::<()>()
                },
            }
        }
        let ghost with_spawn = self@.asteroids;
        proof {
            if spec_spawn_due(g0.asteroid_timer, now - g0.last_update) {
                assert(with_spawn =~= g0.asteroids.push(sp->Some_0));
            } else {
                assert(with_spawn =~= g0.asteroids);
            }
            assert(forall|i: int| 0 <= i < with_spawn.len()
                ==> (#[trigger] with_spawn[i]).wf());
        }

        // Cull every asteroid that has left the play field.
        let mut kept: Vec<Asteroid> = Vec::new();
        let mut idx: usize = 0;
        while idx < self.asteroids.len()
            invariant
                idx <= self.asteroids.len(),
                screen.wf(),
                views_of(self.asteroids@) == with_spawn,
                forall|i: int| 0 <= i < with_spawn.len() ==> (#[trigger] with_spawn[i]).wf(),
                views_of(kept@) == spec_retained(with_spawn.take(idx as int), width, height),
                forall|i: int| 0 <= i < kept@.len() ==> (#[trigger] kept@[i]@).wf()
                    && !spec_out_of_bounds(kept@[i]@, width, height),
            decreases self.asteroids.len() - idx,
        {
            let a = self.asteroids[idx];
            let ghost prefix = with_spawn.take(idx as int);
            let ghost kept0 = kept@;
            proof {
                assert(a@ == with_spawn[idx as int]);
                assert(prefix.push(a@).drop_last() =~= prefix);
                assert(with_spawn.take(idx as int + 1) =~= prefix.push(a@));
                assert(spec_retained(with_spawn.take(idx as int + 1), width, height)
                    == if spec_out_of_bounds(a@, width, height) {
                        spec_retained(prefix, width, height)
                    } else {
                        spec_retained(prefix, width, height).push(a@)
                    });
            }
            if !a.out_of_bounds(screen) {
                kept.push(a);
                proof {
                    assert(views_of(kept@) =~= views_of(kept0).push(a@));
                }
            }
            proof {
                assert(views_of(kept@)
                    =~= spec_retained(with_spawn.take(idx as int + 1), width, height));
            }
            idx = idx + 1;
        }
        proof {
            assert(with_spawn.take(with_spawn.len() as int) =~= with_spawn);
        }
        self.asteroids = kept;
        let ghost kept_model = self@.asteroids;
        proof {
            assert(kept_model == spec_frame_kept(g0, now as int, width, height, sp));
        }

        // Move the ship: the frame moves it before any asteroid drifts.
        self.ship.update(elapsed, input, screen);
        let ghost new_ship = spec_frame_ship(g0, now as int, input.left_held, input.right_held, width);
        proof {
            assert(self.ship@ == new_ship);
        }

        // Drift every surviving asteroid by the moved ship's vertical
        // speed; stop the round at the first one that hits the ship.
        let vertical = self.ship.vertical_speed();
        let mut i: usize = 0;
        while i < self.asteroids.len()
            invariant
                i <= self.asteroids.len(),
                screen.wf(),
                g0.wf(),
                new_ship.wf(),
                vertical == new_ship.vertical_speed,
                0 <= elapsed <= FRAME_LIMIT,
                elapsed == now - g0.last_update,
                g0.last_update <= now <= TIME_LIMIT,
                self.ship@ == new_ship,
                self.start_time == g0.start_time,
                self.last_update == g0.last_update,
                self.asteroid_timer as int == spec_timer_after(g0.asteroid_timer, elapsed as int),
                kept_model.len() == self.asteroids@.len(),
                forall|j: int| 0 <= j < kept_model.len() ==> (#[trigger] kept_model[j]).wf()
                    && !spec_out_of_bounds(kept_model[j], width, height),
                forall|j: int| 0 <= j < self.asteroids@.len()
                    ==> (#[trigger] self.asteroids@[j])@
                        == if j < i {
                            spec_asteroid_step(kept_model[j], elapsed as int, new_ship.vertical_speed)
                        } else {
                            kept_model[j]
                        },
                forall|j: int| 0 <= j < self.asteroids@.len()
                    ==> (#[trigger] self.asteroids@[j])@.wf(),
                spec_first_collision(kept_model, 0, elapsed as int, new_ship, height)
                    == spec_first_collision(kept_model, i as int, elapsed as int, new_ship, height),
            decreases self.asteroids.len() - i,
        {
            proof {
                let k = kept_model[i as int];
                crate::lemma_drift_bounds(k.speed_x, elapsed as int, crate::MAX_SPEED as int);
                crate::lemma_drift_bounds(k.speed_y, elapsed as int, crate::MAX_SPEED as int);
                crate::lemma_drift_bounds(
                    new_ship.vertical_speed, elapsed as int, crate::SPEED_LIMIT as int);
            }
            let mut a = self.asteroids[i];
            a.update(elapsed, vertical);
            let ghost moved = spec_asteroid_step(
                kept_model[i as int], elapsed as int, new_ship.vertical_speed);
            proof {
                let k = kept_model[i as int];
                assert(a@ == moved);
                assert(0 <= crate::trunc_div(k.speed_x * (elapsed as int), crate::SCALE as int)
                    <= crate::MAX_SPEED as int * FRAME_LIMIT / (crate::SCALE as int));
                assert(0 <= crate::trunc_div(k.speed_y * (elapsed as int), crate::SCALE as int)
                    <= crate::MAX_SPEED as int * FRAME_LIMIT / (crate::SCALE as int));
                assert(0 <= crate::trunc_div(
                    new_ship.vertical_speed * (elapsed as int), crate::SCALE as int)
                    <= crate::SPEED_LIMIT as int * FRAME_LIMIT / (crate::SCALE as int));
                assert(moved.wf());
            }
            self.asteroids[i] = a;
            if self.ship.is_collapse(a.x, a.y, a.radius, screen) {
                proof {
                    assert(spec_collides(
                        new_ship.position, height, moved.x, moved.y, moved.radius));
                    assert(spec_first_collision(kept_model, i as int, elapsed as int, new_ship, height)
                        == Some(i as int));
                    assert(views_of(self.asteroids@)
                        =~= kept_model.map(|j: int, x: AsteroidModel|
                            if j <= i as int {
                                spec_asteroid_step(x, elapsed as int, new_ship.vertical_speed)
                            } else {
                                x
                            }));
                }
                return Some(now - self.start_time);
            }
            proof {
                assert(!spec_collides(
                    new_ship.position, height, moved.x, moved.y, moved.radius));
                assert(spec_first_collision(kept_model, i as int, elapsed as int, new_ship, height)
                    == spec_first_collision(
                        kept_model, i as int + 1, elapsed as int, new_ship, height));
            }
            i = i + 1;
        }
        proof {
            assert(spec_first_collision(kept_model, kept_model.len() as int, elapsed as int,
                new_ship, height) is None);
            assert(views_of(self.asteroids@)
                =~= kept_model.map(|j: int, x: AsteroidModel|
                    spec_asteroid_step(x, elapsed as int, new_ship.vertical_speed)));
        }

        // No collision: the frame completes and the clock advances.
        self.last_update = now;
        None
    }

    /// One frame of the round at clock reading `now`. An abort reports
    /// the survived time at once and changes nothing else. Otherwise the
    /// frame runs as `spec_game_frame_state` describes, with a randomly
    /// spawned asteroid when the spawn timer crossed the interval.
    pub fn update(&mut self, now: i64, input: &FrameInput, screen: &Screen) -> (r: Option<i64>)
        requires
            old(self)@.wf(),
            screen.wf(),
            old(self).last_update <= now <= TIME_LIMIT,
            now - old(self).last_update <= FRAME_LIMIT,
        ensures
            input.abort_pressed ==> final(self)@ == old(self)@
                && opt_time_model(r) == Some(now - old(self)@.start_time),
            !input.abort_pressed ==> exists|sp: Option<AsteroidModel>| {
                &&& (sp is Some <==> spec_spawn_due(
                    old(self)@.asteroid_timer, now - old(self)@.last_update))
                &&& (sp matches Some(a) ==> spec_spawn_ok(a, screen.width as int))
                &&& final(self)@ == #[trigger] spec_game_frame_state(
                    old(self)@, now as int, input.left_held, input.right_held,
                    screen.width as int, screen.height as int, sp)
                &&& opt_time_model(r) == spec_game_frame_report(
                    old(self)@, now as int, input.left_held, input.right_held,
                    screen.width as int, screen.height as int, sp)
            },
            final(self)@.wf(),
            r matches Some(t) ==> t == now - old(self).start_time,
    {
        if input.abort_pressed {
            return Some(now - self.start_time);
        }
        let elapsed = now - self.last_update;
        let spawned = if self.asteroid_timer + elapsed > SPAWN_INTERVAL {
            Some(Asteroid::spawn(screen))
        } else {
            None
        };
        let r = self.update_with(now, input, screen, spawned);
        proof {
            let sp = opt_asteroid_model(spawned);
            assert(self@ == spec_game_frame_state(
                old(self)@, now as int, input.left_held, input.right_held,
                screen.width as int, screen.height as int, sp));
        }
        r
    }

    /// Everything a renderer needs for this frame: the survived and best
    /// times, whether the run is a new record, and the shapes in
    /// painter's order, ship first.
    pub fn draw(&self, best_time: i64, now: i64, screen: &Screen) -> (v: RoundView)
        requires
            self@.wf(),
            screen.wf(),
            self.start_time <= now <= TIME_LIMIT,
        ensures
            v.current_time == now - self.start_time,
            v.best_time == best_time,
            v.is_record == (now - self.start_time > best_time),
            v.ship.top_x == self.ship.position,
            v.ship.top_y == screen.height - crate::SHIP_HEIGHT / 2 - crate::SHIP_OFFSET,
            v.ship.right_x == self.ship.position + crate::SHIP_WIDTH / 2,
            v.ship.right_y == screen.height - crate::SHIP_OFFSET,
            v.ship.left_x == self.ship.position - crate::SHIP_WIDTH / 2,
            v.ship.left_y == screen.height - crate::SHIP_OFFSET,
            v.asteroids@.len() == self.asteroids@.len(),
            forall|i: int| 0 <= i < self.asteroids@.len()
                ==> (#[trigger] v.asteroids@[i]).x == self.asteroids@[i].x
                    && v.asteroids@[i].y == self.asteroids@[i].y
                    && v.asteroids@[i].radius == self.asteroids@[i].radius,
    {
        let current_time = now - self.start_time;
        let ship = self.ship.draw(screen);
        let mut circles: Vec<Circle> = Vec::new();
        let mut i: usize = 0;
        while i < self.asteroids.len()
            invariant
                i <= self.asteroids.len(),
                circles@.len() == i,
                forall|j: int| 0 <= j < i as int
                    ==> (#[trigger] circles@[j]).x == self.asteroids@[j].x
                        && circles@[j].y == self.asteroids@[j].y
                        && circles@[j].radius == self.asteroids@[j].radius,
            decreases self.asteroids.len() - i,
        {
            circles.push(self.asteroids[i].draw());
            i = i + 1;
        }
        RoundView {
            current_time,
            best_time,
            is_record: current_time > best_time,
            ship,
            asteroids: circles,
        }
    }
}

} // verus!
