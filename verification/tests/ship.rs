use asteroids_core::env::{FrameInput, Screen};
use asteroids_core::ship::Ship;
use asteroids_core::{MAX_RADIUS, SHIP_RADIUS, SHIP_WIDTH};

fn screen() -> Screen {
    Screen { width: 800_000, height: 600_000 }
}

fn held(left: bool, right: bool) -> FrameInput {
    FrameInput { left_held: left, right_held: right, start_pressed: false, abort_pressed: false }
}

#[test]
fn new_ship_is_centered_and_still() {
    let s = Ship::new(&screen());
    assert_eq!(s.position, 400_000);
    assert_eq!(s.speed, 0);
    assert_eq!(s.vertical_speed, 100_000);
}

#[test]
fn update_accelerates_right() {
    let mut s = Ship::new(&screen());
    s.update(16, &held(false, true), &screen());
    assert_eq!(s.speed, 3_200);
    assert_eq!(s.position, 403_200);
    assert_eq!(s.vertical_speed, 100_800);
}

#[test]
fn update_accelerates_left() {
    let mut s = Ship::new(&screen());
    s.update(16, &held(true, false), &screen());
    assert_eq!(s.speed, -3_200);
    assert_eq!(s.position, 396_800);
}

#[test]
fn update_decelerates_by_division() {
    let mut s = Ship::new(&screen());
    s.speed = 10_000;
    s.update(16, &held(false, false), &screen());
    // 10_000 * 1000 / (180 * 16) = 10_000_000 / 2880, truncated.
    assert_eq!(s.speed, 3_472);
    assert_eq!(s.position, 403_472);
}

#[test]
fn update_decelerates_negative_speed_toward_zero() {
    let mut s = Ship::new(&screen());
    s.speed = -10_000;
    s.update(16, &held(false, false), &screen());
    assert_eq!(s.speed, -3_472);
}

#[test]
fn zero_elapsed_keeps_speed_unchanged() {
    let mut s = Ship::new(&screen());
    s.speed = 10_000;
    s.update(0, &held(false, false), &screen());
    assert_eq!(s.speed, 10_000);
    assert_eq!(s.position, 410_000);
    assert_eq!(s.vertical_speed, 100_000);
}

#[test]
fn position_stays_within_screen_bounds() {
    let scr = screen();
    let mut s = Ship::new(&scr);
    for _ in 0..200 {
        s.update(100, &held(false, true), &scr);
        assert!(s.position >= SHIP_WIDTH / 2);
        assert!(s.position <= scr.width - SHIP_WIDTH / 2);
    }
    assert_eq!(s.position, scr.width - SHIP_WIDTH / 2);
    for _ in 0..200 {
        s.update(100, &held(true, false), &scr);
        assert!(s.position >= SHIP_WIDTH / 2);
        assert!(s.position <= scr.width - SHIP_WIDTH / 2);
    }
    assert_eq!(s.position, SHIP_WIDTH / 2);
}

#[test]
fn vertical_speed_never_decreases() {
    let scr = screen();
    let mut s = Ship::new(&scr);
    let mut last = s.vertical_speed();
    let deltas = [0i64, 1, 16, 100, 0, 33, 7, 1000];
    for (k, d) in deltas.iter().enumerate() {
        let input = held(k % 2 == 0, k % 3 == 0);
        s.update(*d, &input, &scr);
        assert!(s.vertical_speed() >= last);
        last = s.vertical_speed();
    }
    // 100_000 + 50 * (0 + 1 + 16 + 100 + 0 + 33 + 7 + 1000)
    assert_eq!(last, 157_850);
}

#[test]
fn collision_at_ship_center_detected() {
    let scr = screen();
    let mut s = Ship::new(&scr);
    s.position = 100_000;
    // Distance 0, radii sum 25_000 + 18_750.
    assert!(s.is_collapse(100_000, scr.height - 30_000, 25_000, &scr));
}

#[test]
fn collision_respects_radii_sum() {
    let scr = screen();
    let mut s = Ship::new(&scr);
    s.position = 100_000;
    let center_y = scr.height - 30_000;
    let sum = 25_000 + SHIP_RADIUS;
    assert!(s.is_collapse(100_000 + sum - 1, center_y, 25_000, &scr));
    assert!(!s.is_collapse(100_000 + sum, center_y, 25_000, &scr));
    assert!(!s.is_collapse(100_000, center_y - sum, 25_000, &scr));
    assert!(s.is_collapse(100_000, center_y - sum + 1, 25_000, &scr));
}

#[test]
fn far_asteroid_does_not_collide() {
    let scr = screen();
    let s = Ship::new(&scr);
    assert!(!s.is_collapse(0, -2 * MAX_RADIUS, MAX_RADIUS, &scr));
}

#[test]
fn triangle_anchored_at_position() {
    let scr = screen();
    let mut s = Ship::new(&scr);
    s.position = 200_000;
    let t = s.draw(&scr);
    assert_eq!(t.top_x, 200_000);
    assert_eq!(t.top_y, 600_000 - 25_000 - 30_000);
    assert_eq!(t.right_x, 200_000 + 12_500);
    assert_eq!(t.right_y, 600_000 - 30_000);
    assert_eq!(t.left_x, 200_000 - 12_500);
    assert_eq!(t.left_y, 600_000 - 30_000);
}
