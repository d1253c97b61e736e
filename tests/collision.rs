use xtarda_rescue::geometry::{within_distance, UNITS_PER_PIXEL};
use xtarda_rescue::{Asteroid, CollisionType, Game};

fn px(v: i64) -> i64 {
    v * UNITS_PER_PIXEL
}

#[test]
fn test_distance() {
    // Distance 1 from (0, 0) to (1, 0): within 1, not within anything less.
    assert!(within_distance(0, 0, 1000, 0, 1000));
    assert!(!within_distance(0, 0, 1000, 0, 999));
    // Distance from (0, 0) to (1, 1) lies strictly between 1.414 and 1.415.
    assert!(!within_distance(0, 0, 1000, 1000, 1414));
    assert!(within_distance(0, 0, 1000, 1000, 1415));
}

#[test]
fn collision_check_true() {
    let mut game = Game::new(1920, 1280, "res".to_string());
    game.pod_pos_x = px(10);
    game.pod_pos_y = px(10);

    let asteroid = Asteroid {
        y_pos: px(0),
        x_pos: px(0),
        speed: 0,
        r1: px(30),
        r1_offset_x: px(0),
        r1_offset_y: px(0),
        r2: px(30),
        r2_offset_x: px(20),
        r2_offset_y: px(0),
        r3: px(10),
        r3_offset_x: px(60),
        r3_offset_y: px(0),
    };
    game.asteroids.push(asteroid);
    assert!(game.check_for_pod_collision() == CollisionType::Fatal);
    // Asteroid should have been destroyed
    assert!(game.asteroids.is_empty());
}

#[test]
fn collision_check_false() {
    let mut game = Game::new(1920, 1280, "res".to_string());
    game.pod_pos_x = px(10);
    game.pod_pos_y = px(10);

    let asteroid = Asteroid {
        y_pos: px(100),
        x_pos: px(100),
        speed: 0,
        r1: px(30),
        r1_offset_x: px(0),
        r1_offset_y: px(0),
        r2: px(30),
        r2_offset_x: px(20),
        r2_offset_y: px(0),
        r3: px(10),
        r3_offset_x: px(60),
        r3_offset_y: px(0),
    };
    game.asteroids.push(asteroid);
    assert!(game.check_for_pod_collision() == CollisionType::Clear);
    assert!(game.asteroids.len() > 0);
}

fn rock(x: i64, y: i64, r: i64) -> Asteroid {
    Asteroid {
        y_pos: px(y),
        x_pos: px(x),
        speed: px(1),
        r1: px(r),
        r1_offset_x: 0,
        r1_offset_y: 0,
        r2: px(r),
        r2_offset_x: px(20),
        r2_offset_y: 0,
        r3: px(r),
        r3_offset_x: px(60),
        r3_offset_y: 0,
    }
}

#[test]
fn fatal_hit_removes_only_the_asteroid_hit() {
    let mut game = Game::new(1920, 1280, "res".to_string());
    game.pod_pos_x = px(500);
    game.pod_pos_y = px(500);
    let far = rock(1500, 100, 20);
    let hit = rock(480, 480, 30);
    game.asteroids.push(far);
    game.asteroids.push(hit);
    game.asteroids.push(far);
    assert_eq!(game.check_for_pod_collision(), CollisionType::Fatal);
    assert_eq!(game.asteroids, vec![far, far]);
}

#[test]
fn near_miss_leaves_field() {
    let mut game = Game::new(1920, 1280, "res".to_string());
    // Pod centre at (510, 510) px; blob 1 centre at (510, 475) px, radius 30:
    // 35 px away, outside the core, inside core plus half the pod (40 px).
    game.pod_pos_x = px(500);
    game.pod_pos_y = px(500);
    let a = Asteroid { r2: 0, r3: 0, r2_offset_x: px(2000), r3_offset_x: px(2000), ..rock(480, 445, 30) };
    game.asteroids.push(a);
    assert_eq!(game.check_for_pod_collision(), CollisionType::NearMiss);
    assert_eq!(game.asteroids, vec![a]);
}

#[test]
fn empty_field_is_clear() {
    let mut game = Game::new(1920, 1280, "res".to_string());
    assert_eq!(game.check_for_pod_collision(), CollisionType::Clear);
    assert!(game.asteroids.is_empty());
}

#[test]
fn distance_exact_values() {
    // 3-4-5 triangle.
    assert!(within_distance(0, 0, 3, 4, 5));
    assert!(!within_distance(0, 0, 3, 4, 4));
    assert!(!within_distance(0, 0, 0, 0, -1));
    assert!(within_distance(-7, -7, -7, -7, 0));
}
