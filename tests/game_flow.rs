use xtarda_rescue::game::{EXPLOSION_TICKS, PATROL_MARGIN};
use xtarda_rescue::geometry::UNITS_PER_PIXEL;
use xtarda_rescue::level::{STAR_COUNT};
use xtarda_rescue::{Game, GameStatus, ManStatus, PodMove, PodStatus, Sounds};

fn px(v: i64) -> i64 {
    v * UNITS_PER_PIXEL
}

fn playing_game() -> Game {
    let mut game = Game::new(1920, 1280, "res".to_string());
    game.new_level(1);
    game.asteroids.clear();
    game.resume();
    game
}

#[test]
fn new_game_layout() {
    let game = Game::new(1920, 1280, "res".to_string());
    assert_eq!(game.game_status, GameStatus::SplashScreen);
    assert_eq!(game.level, 1);
    assert_eq!(game.mothership_pos_x, px(50));
    assert_eq!(game.mothership_pos_y, px(100));
    assert_eq!(game.mothership_width, px(80));
    assert_eq!(game.pod_size, px(20));
    assert_eq!(game.ground_height, px(40));
    assert_eq!(game.landing_pad_height, px(20));
    assert_eq!(game.landing_pad_width, px(250));
    assert_eq!(game.landing_pad_x, px(835));
    assert_eq!(game.man_pos_x, px(1440));
    assert_eq!(game.man_pos_y, px(1220));
    assert_eq!(game.men_to_rescue, 5);
    assert_eq!(game.pods_remaining, 0);
    assert!(game.asteroids.is_empty());
    assert!(game.stars.is_empty());
    assert_eq!(game.resource_path, "res");
}

#[test]
fn half_width_window_scales_lengths() {
    let game = Game::new(960, 640, "res".to_string());
    // 20 reference pixels are 10 pixels here.
    assert_eq!(game.pod_size, px(10));
    assert_eq!(game.mothership_width, px(40));
    assert_eq!(game.landing_pad_x, px(480) - px(125) / 2);
}

#[test]
fn new_level_counts() {
    let mut game = Game::new(1920, 1280, "res".to_string());
    game.new_level(1);
    assert_eq!(game.game_status, GameStatus::SplashScreen);
    assert_eq!(game.men_to_rescue, 2);
    assert_eq!(game.pods_remaining, 1);
    assert_eq!(game.pods_carried_over, 0);
    assert_eq!(game.asteroids.len(), 18);
    assert_eq!(game.stars.len(), STAR_COUNT);
    let stars = game.stars.clone();
    game.new_level(3);
    assert_eq!(game.game_status, GameStatus::NewLevel);
    assert_eq!(game.level, 3);
    assert_eq!(game.men_to_rescue, 4);
    assert_eq!(game.pods_carried_over, 1);
    assert_eq!(game.pods_remaining, 3);
    assert_eq!(game.asteroids.len(), 22);
    // The star field is drawn once only.
    assert_eq!(game.stars, stars);
}

#[test]
fn generated_asteroids_in_range() {
    let mut game = Game::new(1920, 1280, "res".to_string());
    game.new_level(7);
    let w = 1920;
    for (n, a) in game.asteroids.iter().enumerate() {
        // Speeds: deadband of 0.25 reference pixels, top (3 + 7/2) pixels.
        assert!(a.speed.abs() >= 25 * w / 100, "speed {}", a.speed);
        assert!(a.speed.abs() <= 650 * w / 100);
        assert!(a.x_pos >= px(50) && a.x_pos < px(1920 - 50));
        assert!(a.r1 >= 20 * w && a.r1 < 40 * w);
        assert!(a.r2 >= 30 * w && a.r2 < 50 * w);
        assert!(a.r3 >= 20 * w && a.r3 < 40 * w);
        assert!(a.r1_offset_y >= 0 && a.r1_offset_y < 30 * w);
        assert!(a.r2_offset_y >= 0 && a.r2_offset_y < 10 * w);
        assert!(a.r3_offset_y >= 0 && a.r3_offset_y < 30 * w);
        assert_eq!(a.r1_offset_x, 0);
        assert_eq!(a.r2_offset_x, 20 * w);
        assert_eq!(a.r3_offset_x, 60 * w);
        let top = 1280 * 27648 / 100;
        assert_eq!(a.y_pos, top + (1280 * 1344 - top) * n as i64 / 30);
    }
    for s in &game.stars {
        assert!(s.y_pos >= 96 && s.y_pos < 1280);
        assert!(s.x_pos < 1920);
        assert!(s.radius >= 2 && s.radius < 5);
        assert!(s.luminosity >= 64 && s.luminosity < 128);
    }
}

#[test]
fn drop_pod_only_while_playing() {
    let mut game = Game::new(1920, 1280, "res".to_string());
    game.new_level(1);
    game.drop_pod();
    assert_eq!(game.pod_status, PodStatus::Inactive);
    assert!(game.sounds_to_play.is_empty());
    game.resume();
    game.drop_pod();
    assert_eq!(game.pod_status, PodStatus::Dropping);
    assert_eq!(game.pod_pos_x, px(50) + px(40));
    assert_eq!(game.pod_pos_y, px(100) + px(30));
    assert_eq!(game.drain_sounds(), vec![Sounds::DropPod]);
    assert!(game.sounds_to_play.is_empty());
    // A second drop while one pod is out is ignored.
    game.drop_pod();
    assert!(game.sounds_to_play.is_empty());
}

#[test]
fn dropping_pod_descends_and_steers() {
    let mut game = playing_game();
    game.drop_pod();
    let y = game.pod_pos_y;
    game.next_frame();
    assert_eq!(game.pod_pos_y, y + 5 * 1920);
    let x = game.pod_pos_x;
    game.pod_manoeuvre(PodMove::Left);
    assert_eq!(game.pod_pos_x, x - 4 * 1920);
    game.pod_manoeuvre(PodMove::Right);
    game.pod_manoeuvre(PodMove::Right);
    assert_eq!(game.pod_pos_x, x + 4 * 1920);
    game.pause();
    assert_eq!(game.game_status, GameStatus::Paused);
    game.pod_manoeuvre(PodMove::Right);
    assert_eq!(game.pod_pos_x, x + 4 * 1920);
}

#[test]
fn landing_on_pad() {
    let mut game = playing_game();
    game.pod_status = PodStatus::Dropping;
    let pad_top = px(1280) - game.ground_height - game.landing_pad_height - game.pod_size;
    game.pod_pos_y = pad_top;
    // Only the pod's right edge reaches over the pad's left edge.
    game.pod_pos_x = game.landing_pad_x - game.pod_size;
    assert!(game.check_for_pod_landing());
    assert_eq!(game.pod_status, PodStatus::ReadyForTakeOff);
    assert_eq!(game.man_status, ManStatus::EnteringPod);
    assert_eq!(game.pod_pos_y, pad_top);
    assert_eq!(game.sounds_to_play, vec![Sounds::Landed]);
}

#[test]
fn beside_pad_falls_then_crashes() {
    let mut game = playing_game();
    game.pods_remaining = 3;
    game.pod_status = PodStatus::Dropping;
    let pad_top = px(1280) - game.ground_height - game.landing_pad_height - game.pod_size;
    let ground_top = px(1280) - game.ground_height - game.pod_size;
    game.pod_pos_x = game.landing_pad_x - game.pod_size - 1;
    game.pod_pos_y = pad_top;
    assert!(!game.check_for_pod_landing());
    assert_eq!(game.pod_status, PodStatus::Dropping);
    game.pod_pos_y = ground_top + 7;
    assert!(game.check_for_pod_landing());
    assert_eq!(game.pod_status, PodStatus::Exploding);
    assert_eq!(game.pod_pos_y, ground_top);
    assert_eq!(game.pods_remaining, 2);
    assert_eq!(game.sounds_to_play, vec![Sounds::Explosion]);
}

#[test]
fn boarding_then_launch() {
    let mut game = playing_game();
    game.pod_status = PodStatus::ReadyForTakeOff;
    game.man_status = ManStatus::EnteringPod;
    game.pod_pos_x = px(900);
    game.man_pos_x = px(900) + px(15) + px(10);
    game.launch_pod();
    assert_eq!(game.pod_status, PodStatus::ReadyForTakeOff);
    game.next_frame();
    assert_eq!(game.man_pos_x, px(900) + px(15));
    assert_eq!(game.man_status, ManStatus::EnteringPod);
    game.next_frame();
    assert_eq!(game.man_status, ManStatus::Inactive);
    assert_eq!(game.man_pos_x, px(1440));
    assert_eq!(game.sounds_to_play, vec![Sounds::Seatbelt]);
    game.launch_pod();
    assert_eq!(game.pod_status, PodStatus::Ascending);
    assert_eq!(game.sounds_to_play, vec![Sounds::Seatbelt, Sounds::TakeOff]);
}

#[test]
fn precise_dock_earns_bonus() {
    let mut game = playing_game();
    game.men_to_rescue = 2;
    game.pods_remaining = 1;
    game.pod_status = PodStatus::Ascending;
    game.pod_pos_x = game.mothership_pos_x;
    game.pod_pos_y = game.mothership_pos_y + px(10);
    assert!(game.check_for_pod_docking());
    assert_eq!(game.men_to_rescue, 1);
    assert_eq!(game.pods_remaining, 2);
    assert_eq!(game.pod_status, PodStatus::Inactive);
    assert_eq!(game.level, 1);
    assert_eq!(game.sounds_to_play, vec![Sounds::Bonus, Sounds::Docked]);
}

#[test]
fn last_man_docked_starts_next_level() {
    let mut game = playing_game();
    game.men_to_rescue = 1;
    game.pods_remaining = 1;
    game.pod_status = PodStatus::AutoDock;
    game.pod_pos_x = game.mothership_pos_x;
    game.pod_pos_y = game.mothership_pos_y;
    assert!(game.check_for_pod_docking());
    assert_eq!(game.level, 2);
    assert_eq!(game.men_to_rescue, 3);
    assert_eq!(game.game_status, GameStatus::NewLevel);
    assert_eq!(game.asteroids.len(), 20);
    // An auto-dock earns no bonus pod.
    assert_eq!(game.pods_carried_over, 1);
    assert_eq!(game.pods_remaining, 2);
    assert_eq!(game.sounds_to_play, vec![Sounds::Docked]);
}

#[test]
fn misaligned_pod_autodocks() {
    let mut game = playing_game();
    game.pod_status = PodStatus::Ascending;
    game.pod_pos_x = game.mothership_pos_x + px(200);
    game.pod_pos_y = game.mothership_pos_y;
    assert!(!game.check_for_pod_docking());
    assert_eq!(game.pod_status, PodStatus::AutoDock);
    let x = game.pod_pos_x;
    let y = game.pod_pos_y;
    game.next_frame();
    assert_eq!(game.pod_pos_x, x - 20 * 1920);
    // The autopilot keeps the pod rising as it closes in.
    assert_eq!(game.pod_pos_y, y - 5 * 1920);
    assert_eq!(game.pod_status, PodStatus::AutoDock);
}

#[test]
fn autodock_rises_into_dock() {
    let mut game = playing_game();
    game.men_to_rescue = 2;
    game.pods_remaining = 1;
    game.pod_status = PodStatus::AutoDock;
    // Aligned after the step toward the mothership, and at docking height
    // only after rising one step.
    game.pod_pos_x = game.mothership_pos_x + px(10) + px(20);
    game.pod_pos_y = game.mothership_pos_y + px(10) + px(5);
    game.next_frame();
    assert_eq!(game.pod_status, PodStatus::Inactive);
    assert_eq!(game.men_to_rescue, 1);
    // No bonus for an assisted dock.
    assert_eq!(game.pods_remaining, 1);
    assert_eq!(game.sounds_to_play, vec![Sounds::Docked]);
}

#[test]
fn tiny_window_asteroids_still_move() {
    let mut game = Game::new(3, 2, "res".to_string());
    game.new_level(1);
    assert_eq!(game.asteroids.len(), 18);
    for a in &game.asteroids {
        assert!(a.speed != 0);
    }
}

#[test]
fn losing_last_pod_ends_game_once() {
    let mut game = playing_game();
    assert_eq!(game.pods_remaining, 1);
    game.explode_pod();
    assert_eq!(game.game_status, GameStatus::GameOver);
    assert_eq!(game.pods_remaining, 0);
    let before_x = game.mothership_pos_x;
    for _ in 0..50 {
        game.next_frame();
        game.drop_pod();
    }
    assert_eq!(game.pods_remaining, 0);
    assert_eq!(game.mothership_pos_x, before_x);
    assert_eq!(game.game_status, GameStatus::GameOver);
    game.resume();
    assert_eq!(game.game_status, GameStatus::GameOver);
    game.restart();
    assert_eq!(game.game_status, GameStatus::SplashScreen);
    assert_eq!(game.level, 1);
    assert_eq!(game.pods_remaining, 1);
}

#[test]
fn debugging_aids_spare_the_reserve() {
    let mut game = playing_game();
    game.debugging_aids = true;
    game.explode_pod();
    assert_eq!(game.pods_remaining, 1);
    assert_eq!(game.game_status, GameStatus::Playing);
}

#[test]
fn mothership_stays_between_margins() {
    let mut game = playing_game();
    let right = px(1920) - game.mothership_width - PATROL_MARGIN;
    let mut seen_right = false;
    for _ in 0..5000 {
        game.next_frame();
        assert!(game.mothership_pos_x >= PATROL_MARGIN);
        assert!(game.mothership_pos_x <= right);
        seen_right |= game.mothership_pos_x == right;
    }
    assert!(seen_right);
    let x = game.mothership_pos_x;
    let dir = game.mothership_direction;
    game.pause();
    game.next_frame();
    assert_eq!(game.mothership_pos_x, x);
    assert_eq!(game.mothership_direction, dir);
}

#[test]
fn explosion_lasts_configured_ticks() {
    let mut game = playing_game();
    game.pods_remaining = 5;
    game.explode_pod();
    assert_eq!(game.pod_explosion_timer, 0);
    for _ in 1..EXPLOSION_TICKS {
        game.next_frame();
        assert_eq!(game.pod_status, PodStatus::Exploding);
    }
    game.next_frame();
    assert_eq!(game.pod_status, PodStatus::Inactive);
    for _ in 0..30 {
        game.next_frame();
        assert_eq!(game.pod_status, PodStatus::Inactive);
    }
}

#[test]
fn asteroids_wrap_around() {
    let mut game = playing_game();
    let mut a = game.asteroids.first().copied().unwrap_or(xtarda_rescue::Asteroid {
        y_pos: px(300),
        x_pos: 0,
        speed: 0,
        r1: px(1),
        r1_offset_x: 0,
        r1_offset_y: 0,
        r2: px(1),
        r2_offset_x: 0,
        r2_offset_y: 0,
        r3: px(1),
        r3_offset_x: 0,
        r3_offset_y: 0,
    });
    a.x_pos = px(1920) - 10;
    a.speed = 100;
    game.asteroids.push(a);
    a.x_pos = -150 * 1920 + 10;
    a.speed = -100;
    game.asteroids.push(a);
    game.next_frame();
    assert_eq!(game.asteroids[0].x_pos, -150 * 1920);
    assert_eq!(game.asteroids[1].x_pos, px(1920));
}

#[test]
fn pause_and_resume() {
    let mut game = Game::new(1920, 1280, "res".to_string());
    game.pause();
    assert_eq!(game.game_status, GameStatus::SplashScreen);
    game.resume();
    assert_eq!(game.game_status, GameStatus::Playing);
    game.pause();
    assert_eq!(game.game_status, GameStatus::Paused);
    game.resume();
    assert_eq!(game.game_status, GameStatus::Playing);
}
