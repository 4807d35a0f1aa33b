use asteroids_core::asteroid::Asteroid;
use asteroids_core::env::Screen;
use asteroids_core::{MAX_RADIUS, MAX_SPEED, MIN_RADIUS};

fn screen() -> Screen {
    Screen { width: 800_000, height: 600_000 }
}

#[test]
fn spawn_respects_documented_ranges() {
    let scr = screen();
    for _ in 0..200 {
        let a = Asteroid::spawn(&scr);
        assert!(a.radius >= MIN_RADIUS && a.radius <= MAX_RADIUS);
        assert_eq!(a.y, -2 * MAX_RADIUS);
        assert!(a.x >= 0 && a.x <= scr.width);
        assert!(a.speed_x >= 0 && a.speed_x <= MAX_SPEED);
        assert!(a.speed_y >= 0 && a.speed_y <= MAX_SPEED);
    }
}

#[test]
fn spawn_draws_vary() {
    // The random draws must actually vary: a stuck primitive that
    // always answered one of its bounds would keep every horizontal
    // position identical over many spawns.
    let scr = screen();
    let first = Asteroid::spawn(&scr);
    let mut saw_different = false;
    let mut saw_interior = false;
    for _ in 0..200 {
        let a = Asteroid::spawn(&scr);
        if a.x != first.x {
            saw_different = true;
        }
        if a.x > 0 && a.x < scr.width {
            saw_interior = true;
        }
    }
    assert!(saw_different);
    assert!(saw_interior);
}

#[test]
fn update_moves_by_velocity_and_ship_speed() {
    let mut a = Asteroid { x: 100_000, y: 50_000, speed_x: 2_000, speed_y: 3_000, radius: 30_000 };
    a.update(500, 100_000);
    // x += 2_000 * 500 / 1000; y += 3_000 * 500 / 1000 + 100_000 * 500 / 1000.
    assert_eq!(a.x, 101_000);
    assert_eq!(a.y, 101_500);
    assert_eq!(a.speed_x, 2_000);
    assert_eq!(a.speed_y, 3_000);
    assert_eq!(a.radius, 30_000);
}

#[test]
fn update_truncates_each_term_separately() {
    let mut a = Asteroid { x: 0, y: 0, speed_x: 999, speed_y: 999, radius: 30_000 };
    a.update(1, 999);
    // Each product is 999, each term truncates to 0.
    assert_eq!(a.x, 0);
    assert_eq!(a.y, 0);
}

#[test]
fn out_of_bounds_far_right() {
    let scr = screen();
    let a = Asteroid {
        x: scr.width + 4 * MAX_RADIUS,
        y: 0,
        speed_x: 0,
        speed_y: 0,
        radius: MIN_RADIUS,
    };
    assert!(a.out_of_bounds(&scr));
}

#[test]
fn in_bounds_at_screen_center() {
    let scr = screen();
    let a = Asteroid {
        x: scr.width / 2,
        y: scr.height / 2,
        speed_x: 0,
        speed_y: 0,
        radius: MIN_RADIUS,
    };
    assert!(!a.out_of_bounds(&scr));
}

#[test]
fn out_of_bounds_edges_use_triple_radius_margin() {
    let scr = screen();
    let margin = 3 * MAX_RADIUS;
    let base = Asteroid { x: 0, y: 0, speed_x: 0, speed_y: 0, radius: MIN_RADIUS };

    let mut a = base;
    a.x = -margin;
    assert!(!a.out_of_bounds(&scr));
    a.x = -margin - 1;
    assert!(a.out_of_bounds(&scr));

    let mut b = base;
    b.x = scr.width + margin;
    assert!(!b.out_of_bounds(&scr));
    b.x = scr.width + margin + 1;
    assert!(b.out_of_bounds(&scr));

    let mut c = base;
    c.y = scr.height + margin;
    assert!(!c.out_of_bounds(&scr));
    c.y = scr.height + margin + 1;
    assert!(c.out_of_bounds(&scr));
}

#[test]
fn no_upper_bound_check() {
    let scr = screen();
    let a = Asteroid { x: 0, y: -1_000_000, speed_x: 0, speed_y: 0, radius: MIN_RADIUS };
    assert!(!a.out_of_bounds(&scr));
}

#[test]
fn circle_mirrors_asteroid() {
    let a = Asteroid { x: 7, y: 8, speed_x: 1, speed_y: 2, radius: 9 };
    let c = a.draw();
    assert_eq!(c.x, 7);
    assert_eq!(c.y, 8);
    assert_eq!(c.radius, 9);
}
