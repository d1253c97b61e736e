use xtarda_rescue::geometry::{shift, POS_LIMIT};
use xtarda_rescue::level::{asteroid_row_y, clamp_speed, place_asteroid, scale_speed, AsteroidDraws};
use xtarda_rescue::random::draw_between;

#[test]
fn speeds_leave_the_deadband() {
    assert_eq!(clamp_speed(3), 25);
    assert_eq!(clamp_speed(-3), -25);
    assert_eq!(clamp_speed(0), 25);
    assert_eq!(clamp_speed(24), 25);
    assert_eq!(clamp_speed(-24), -25);
    assert_eq!(clamp_speed(25), 25);
    assert_eq!(clamp_speed(-25), -25);
    assert_eq!(clamp_speed(-300), -300);
    for raw in -400..400 {
        let s = clamp_speed(raw);
        assert!(s != 0 && s.abs() >= 25);
    }
}

#[test]
fn speed_scaling() {
    assert_eq!(scale_speed(25, 1920), 480);
    assert_eq!(scale_speed(-25, 1000), -250);
    assert_eq!(scale_speed(-33, 1000), -330);
    assert_eq!(scale_speed(33, 7), 2);
    assert_eq!(scale_speed(-33, 7), -2);
    // Never below one unit, whatever the window.
    assert_eq!(scale_speed(25, 3), 1);
    assert_eq!(scale_speed(-25, 3), -1);
    assert_eq!(scale_speed(25, 0), 1);
    assert_eq!(scale_speed(0, 1920), 0);
}

#[test]
fn rows_spread_over_band() {
    assert_eq!(asteroid_row_y(1280, 0, 18), 1280 * 27648 / 100);
    assert_eq!(asteroid_row_y(1280, 9, 18), 353894 + (1720320 - 353894) * 9 / 18);
}

#[test]
fn placing_uses_the_draws() {
    let d = AsteroidDraws {
        speed: 10,
        x_pos: 200_000,
        r1: 40_000,
        r1_offset_y: 5,
        r2: 60_000,
        r2_offset_y: 6,
        r3: 40_000,
        r3_offset_y: 7,
    };
    let a = place_asteroid(1920, 1280, 1, 0, 18, d);
    assert_eq!(a.speed, 480);
    assert_eq!(a.x_pos, 200_000);
    assert_eq!(a.y_pos, 353894);
    assert_eq!(a.r2_offset_x, 20 * 1920);
    assert_eq!(a.r3_offset_x, 60 * 1920);
    assert_eq!(a.r3_offset_y, 7);
}

#[test]
fn draws_stay_in_range() {
    for _ in 0..200 {
        let r = draw_between(10, 13);
        assert!((10..13).contains(&r));
    }
    assert_eq!(draw_between(5, 5), 5);
    assert_eq!(draw_between(9, 2), 9);
    let mut seen = [false; 3];
    for _ in 0..500 {
        seen[(draw_between(0, 3)) as usize] = true;
    }
    assert!(seen.iter().all(|s| *s));
}

#[test]
fn movement_saturates_at_world_edge() {
    assert_eq!(shift(10, -3), 7);
    assert_eq!(shift(POS_LIMIT - 1, 5), POS_LIMIT);
    assert_eq!(shift(-POS_LIMIT, -5), -POS_LIMIT);
}
