use asteroids_core::asteroid::Asteroid;
use asteroids_core::env::{FrameInput, Screen};
use asteroids_core::game::Game;
use asteroids_core::MIN_RADIUS;

fn screen() -> Screen {
    Screen { width: 800_000, height: 600_000 }
}

fn idle() -> FrameInput {
    FrameInput { left_held: false, right_held: false, start_pressed: false, abort_pressed: false }
}

fn abort() -> FrameInput {
    FrameInput { left_held: false, right_held: false, start_pressed: false, abort_pressed: true }
}

fn still_asteroid(x: i64, y: i64, radius: i64) -> Asteroid {
    Asteroid { x, y, speed_x: 0, speed_y: 0, radius }
}

#[test]
fn new_round_starts_empty() {
    let g = Game::new(1_000, &screen());
    assert_eq!(g.start_time, 1_000);
    assert_eq!(g.last_update, 1_000);
    assert_eq!(g.asteroid_timer, 0);
    assert_eq!(g.asteroids.len(), 0);
    assert_eq!(g.ship.position, 400_000);
}

#[test]
fn timers_report_against_now() {
    let g = Game::new(1_000, &screen());
    assert_eq!(g.game_time(1_516), 516);
    assert_eq!(g.elapsed_time(1_516), 516);
}

#[test]
fn spawn_cadence_crosses_half_second() {
    let scr = screen();
    let mut g = Game::new(0, &scr);

    // 300 ms: timer accumulates, nothing spawns.
    assert_eq!(g.update_with(300, &idle(), &scr, None), None);
    assert_eq!(g.asteroid_timer, 300);
    assert_eq!(g.asteroids.len(), 0);

    // 600 ms: the accumulated 600 ms cross the interval; exactly one
    // asteroid is appended and the timer resets to 0, not negative.
    let spawned = still_asteroid(100_000, -200_000, MIN_RADIUS);
    assert_eq!(g.update_with(600, &idle(), &scr, Some(spawned)), None);
    assert_eq!(g.asteroid_timer, 0);
    assert_eq!(g.asteroids.len(), 1);
}

#[test]
fn exactly_half_second_does_not_spawn() {
    let scr = screen();
    let mut g = Game::new(0, &scr);
    assert_eq!(g.update_with(500, &idle(), &scr, None), None);
    assert_eq!(g.asteroid_timer, 500);
    assert_eq!(g.asteroids.len(), 0);

    let spawned = still_asteroid(100_000, -200_000, MIN_RADIUS);
    assert_eq!(g.update_with(501, &idle(), &scr, Some(spawned)), None);
    assert_eq!(g.asteroid_timer, 0);
    assert_eq!(g.asteroids.len(), 1);
}

#[test]
fn abort_reports_survived_time_at_once() {
    let scr = screen();
    let mut g = Game::new(1_000, &scr);
    assert_eq!(g.update(1_516, &abort(), &scr), Some(516));
    // The frame stopped before any simulation.
    assert_eq!(g.last_update, 1_000);
    assert_eq!(g.asteroid_timer, 0);
}

#[test]
fn collision_ends_round_with_survived_time() {
    let scr = screen();
    let mut g = Game::new(1_000, &scr);
    // Standing asteroid just above the ship's bounding circle; the
    // ship's vertical speed drags it down into the ship this frame.
    g.asteroids.push(still_asteroid(400_000, 560_000, 25_000));
    let r = g.update_with(1_016, &idle(), &scr, None);
    assert_eq!(r, Some(16));
    // The ship moved first, so the asteroid fell by the updated
    // vertical speed: (100_000 + 50 * 16) * 16 / 1000, truncated.
    assert_eq!(g.asteroids[0].y, 561_612);
}

#[test]
fn collision_stops_the_frame() {
    let scr = screen();
    let mut g = Game::new(1_000, &scr);
    g.asteroids.push(still_asteroid(400_000, 560_000, 25_000));
    g.asteroids.push(still_asteroid(100_000, 100_000, MIN_RADIUS));
    let r = g.update_with(1_016, &idle(), &scr, None);
    assert_eq!(r, Some(16));
    // The ship had already moved this frame, but the asteroid after the
    // collision was never moved and the frame clock never advanced.
    assert_eq!(g.asteroids[1].x, 100_000);
    assert_eq!(g.asteroids[1].y, 100_000);
    assert_eq!(g.ship.position, 400_000);
    assert_eq!(g.ship.vertical_speed, 100_800);
    assert_eq!(g.last_update, 1_000);
}

#[test]
fn far_out_asteroids_are_culled() {
    let scr = screen();
    let mut g = Game::new(0, &scr);
    g.asteroids.push(still_asteroid(-400_000, 0, MIN_RADIUS));
    g.asteroids.push(still_asteroid(400_000, 100_000, MIN_RADIUS));
    assert_eq!(g.update_with(16, &idle(), &scr, None), None);
    assert_eq!(g.asteroids.len(), 1);
    assert_eq!(g.asteroids[0].x, 400_000);
    assert_eq!(g.last_update, 16);
}

#[test]
fn surviving_asteroids_and_ship_move() {
    let scr = screen();
    let mut g = Game::new(0, &scr);
    g.asteroids.push(Asteroid { x: 100_000, y: 0, speed_x: 2_000, speed_y: 4_000, radius: MIN_RADIUS });
    let input = FrameInput { left_held: false, right_held: true, start_pressed: false, abort_pressed: false };
    assert_eq!(g.update_with(16, &input, &scr, None), None);
    assert_eq!(g.asteroids[0].x, 100_032);
    // 4_000 * 16 / 1000 plus the updated vertical speed's fall,
    // 100_800 * 16 / 1000, each truncated.
    assert_eq!(g.asteroids[0].y, 1_676);
    assert_eq!(g.ship.speed, 3_200);
    assert_eq!(g.ship.position, 403_200);
    assert_eq!(g.ship.vertical_speed, 100_800);
    assert_eq!(g.last_update, 16);
}

#[test]
fn round_view_carries_times_and_shapes() {
    let scr = screen();
    let mut g = Game::new(1_000, &scr);
    g.asteroids.push(still_asteroid(250_000, 90_000, 30_000));
    let v = g.draw(400, 1_516, &scr);
    assert_eq!(v.current_time, 516);
    assert_eq!(v.best_time, 400);
    assert!(v.is_record);
    assert_eq!(v.ship.top_x, 400_000);
    assert_eq!(v.asteroids.len(), 1);
    assert_eq!(v.asteroids[0].x, 250_000);
    assert_eq!(v.asteroids[0].y, 90_000);
    assert_eq!(v.asteroids[0].radius, 30_000);

    let v2 = g.draw(9_000, 1_516, &scr);
    assert!(!v2.is_record);
}
