//! Laws of the game, proved over its model.

use vstd::prelude::*;

use crate::entities::{Asteroid, CollisionType, GameStatus, ManStatus, PodMove, PodStatus, Sounds, Star};
use crate::game::{asteroid_hit, explosion_step, first_hit, patrol_step, GameView, EXPLOSION_TICKS, PATROL_MARGIN};
use crate::geometry::within;
use crate::level::{
    asteroid_count, clamped_speed, draws_fit, field_fits, magnitude_units, min_speed_units, placed, speed_units, top_speed, AsteroidDraws,
    SPEED_DEADBAND,
};

verus! {

proof fn lemma_scaled_speed_floor(c: int, ww: int)
    requires
        SPEED_DEADBAND <= c <= top_speed(255),
        0 <= ww < 0x1_0000_0000,
    ensures
        1 <= min_speed_units(ww) <= magnitude_units(c, ww) <= top_speed(255) * 0x1_0000_0000,
{
    assert(SPEED_DEADBAND * ww <= c * ww <= top_speed(255) * 0x1_0000_0000) by (nonlinear_arith)
        requires
            SPEED_DEADBAND <= c <= top_speed(255),
            0 <= ww < 0x1_0000_0000,
    ;
    assert(SPEED_DEADBAND * ww / 100 <= c * ww / 100) by (nonlinear_arith)
        requires
            SPEED_DEADBAND * ww <= c * ww,
    ;
    assert(c * ww / 100 <= c * ww) by (nonlinear_arith)
        requires
            0 <= c * ww,
    ;
}

/// Every asteroid of a generated field drifts at least `min_speed_units`
/// units per tick one way or the other, and so never stands still: its speed
/// was drawn, pushed out of the deadband, and scaled to at least one unit.
pub proof fn lemma_generated_speeds_leave_deadband(ww: u32, wh: u32, level: u8, field: Seq<Asteroid>)
    requires
        field_fits(ww as int, wh as int, level as int, field),
    ensures
        forall|i: int|
            0 <= i < field.len() ==> (#[trigger] field[i]).speed >= min_speed_units(ww as int)
                || field[i].speed <= -min_speed_units(ww as int),
        forall|i: int| 0 <= i < field.len() ==> (#[trigger] field[i]).speed != 0,
{
    assert forall|i: int| 0 <= i < field.len() implies (#[trigger] field[i]).speed >= min_speed_units(
        ww as int,
    ) || field[i].speed <= -min_speed_units(ww as int) by {
        let d = choose|d: AsteroidDraws|
            draws_fit(ww as int, level as int, d) && field[i] == #[trigger] placed(
                ww as int,
                wh as int,
                i,
                field.len() as int,
                d,
            );
        let c = clamped_speed(d.speed as int);
        if c < 0 {
            lemma_scaled_speed_floor(-c, ww as int);
        } else {
            lemma_scaled_speed_floor(c, ww as int);
        }
        assert(field[i].speed == speed_units(c, ww as int));
    }
}

proof fn lemma_first_hit_skips(field: Seq<Asteroid>, i: int, k: int, cx: int, cy: int, half: int)
    requires
        0 <= i <= k <= field.len(),
        forall|j: int| i <= j < k ==> asteroid_hit(#[trigger] field[j], cx, cy, half) == CollisionType::Clear,
    ensures
        first_hit(field, i, cx, cy, half) == first_hit(field, k, cx, cy, half),
    decreases k - i,
{
    if i < k {
        lemma_first_hit_skips(field, i + 1, k, cx, cy, half);
    }
}

/// A pod whose centre lies in the core of an asteroid's first blob, with no
/// earlier asteroid of the field within reach, is hit fatally, and exactly
/// that asteroid leaves the field.
pub proof fn lemma_core_hit_destroys_that_asteroid(v: GameView, k: int)
    requires
        0 <= k < v.asteroids.len(),
        forall|j: int|
            0 <= j < k ==> asteroid_hit(#[trigger] v.asteroids[j], v.pod_centre_x(), v.pod_centre_y(), v.pod_size / 2)
                == CollisionType::Clear,
        within(
            v.pod_centre_x(),
            v.pod_centre_y(),
            v.asteroids[k].x_pos + v.asteroids[k].r1_offset_x + v.asteroids[k].r1,
            v.asteroids[k].y_pos + v.asteroids[k].r1_offset_y + v.asteroids[k].r1,
            v.asteroids[k].r1 as int,
        ),
    ensures
        v.collision().0 == CollisionType::Fatal,
        v.collision().1 == (GameView { asteroids: v.asteroids.remove(k), ..v }),
        v.collision().1.asteroids.len() == v.asteroids.len() - 1,
{
    lemma_first_hit_skips(v.asteroids, 0, k, v.pod_centre_x(), v.pod_centre_y(), v.pod_size / 2);
}

/// With no asteroid within reach of the pod, the collision check finds
/// nothing and leaves the field as it is.
pub proof fn lemma_clear_field_untouched(v: GameView)
    requires
        forall|j: int|
            0 <= j < v.asteroids.len() ==> asteroid_hit(
                #[trigger] v.asteroids[j],
                v.pod_centre_x(),
                v.pod_centre_y(),
                v.pod_size / 2,
            ) == CollisionType::Clear,
    ensures
        v.collision() == (CollisionType::Clear, v),
{
    lemma_first_hit_skips(v.asteroids, 0, v.asteroids.len() as int, v.pod_centre_x(), v.pod_centre_y(), v.pod_size / 2);
}

/// A dropping pod lands exactly when it has come down to the pad's height
/// with its horizontal span meeting the pad's; it then rests on the pad and
/// its passenger starts to board. Beside the pad, reaching the ground is
/// fatal; above the ground it keeps falling.
pub proof fn lemma_landing_rule(v: GameView)
    requires
        v.wf(),
        v.pod_status == PodStatus::Dropping,
    ensures
        (v.landing().1.pod_status == PodStatus::ReadyForTakeOff) <==> (v.pod_pos_y >= v.pad_top() && v.over_pad()),
        v.pod_pos_y >= v.pad_top() && v.over_pad() ==> {
            &&& v.landing().0
            &&& v.landing().1.pod_pos_y == v.pad_top()
            &&& v.landing().1.man_status == ManStatus::EnteringPod
            &&& v.landing().1.sounds_to_play == v.sounds_to_play.push(Sounds::Landed)
        },
        !v.over_pad() && v.pod_pos_y >= v.ground_top() ==> v.landing().0 && v.landing().1.pod_status
            == PodStatus::Exploding,
        !v.over_pad() && v.pod_pos_y < v.ground_top() ==> !v.landing().0,
        v.pod_pos_y < v.pad_top() ==> !v.landing().0,
{
}

/// A dock takes exactly one man off the count. The dock that takes the last
/// one starts the next level, one higher, whose field is the one drawn for
/// it; any other dock leaves the level and the field as they are.
pub proof fn lemma_dock_counts_one_man(v: GameView, field: Seq<Asteroid>, stars: Seq<Star>)
    requires
        v.wf(),
        v.at_dock_altitude(),
        v.aligned(),
        v.level < 255,
    ensures
        v.docking(field, stars).0,
        v.docking(field, stars).2.pod_status == PodStatus::Inactive,
        v.men_to_rescue > 1 ==> {
            &&& !v.docking(field, stars).1
            &&& v.docking(field, stars).2.men_to_rescue == v.men_to_rescue - 1
            &&& v.docking(field, stars).2.level == v.level
            &&& v.docking(field, stars).2.asteroids == v.asteroids
        },
        v.men_to_rescue == 1 ==> {
            &&& v.docking(field, stars).1
            &&& v.docking(field, stars).2.level == v.level + 1
            &&& v.docking(field, stars).2.asteroids == field
            &&& v.docking(field, stars).2.men_to_rescue == v.level + 2
        },
        v.men_to_rescue == 1 && v.level >= 1 ==> v.docking(field, stars).2.game_status == GameStatus::NewLevel,
        v.men_to_rescue == 1 && GameView::level_drawn(v.stars, v.docking(field, stars).2) ==> {
            &&& field_fits(v.window_width as int, v.window_height as int, v.level + 1, field)
            &&& field.len() == asteroid_count(v.level + 1)
        },
{
}

/// Once the game is over, neither a tick nor a play intent changes anything,
/// so the pod reserve is never decremented again.
pub proof fn lemma_game_over_is_final(v: GameView, field: Seq<Asteroid>, stars: Seq<Star>, direction: PodMove)
    requires
        v.game_status == GameStatus::GameOver,
    ensures
        v.tick(field, stars) == (v, false),
        v.pod_dropped() == v,
        v.pod_launched() == v,
        v.pod_steered(direction) == v,
{
}

/// Losing the last pod of the reserve to a fatal collision ends the game,
/// with an empty reserve, and the game then stays over whatever follows.
pub proof fn lemma_last_pod_ends_game(v: GameView, field: Seq<Asteroid>, stars: Seq<Star>, direction: PodMove)
    requires
        v.wf(),
        !v.debugging_aids,
        v.pods_remaining == 1,
        v.collision().0 == CollisionType::Fatal,
    ensures
        v.collision().1.react(CollisionType::Fatal).game_status == GameStatus::GameOver,
        v.collision().1.react(CollisionType::Fatal).pods_remaining == 0,
        v.collision().1.react(CollisionType::Fatal).tick(field, stars) == (
            v.collision().1.react(CollisionType::Fatal),
            false,
        ),
{
    lemma_game_over_is_final(v.collision().1.react(CollisionType::Fatal), field, stars, direction);
}

/// The mothership's position and direction after `n` ticks of its patrol.
pub open spec fn patrol_after(x: int, dir: int, left: int, right: int, unit: int, n: nat) -> (int, int)
    decreases n,
{
    if n == 0 {
        (x, dir)
    } else {
        let p = patrol_step(x, dir, left, right, unit);
        patrol_after(p.0, p.1, left, right, unit, (n - 1) as nat)
    }
}

/// However many ticks pass, a mothership that starts on its patrol range
/// stays on it.
pub proof fn lemma_patrol_stays_in_range(x: int, dir: int, left: int, right: int, unit: int, n: nat)
    requires
        left <= x <= right,
    ensures
        left <= patrol_after(x, dir, left, right, unit, n).0 <= right,
    decreases n,
{
    if n > 0 {
        let p = patrol_step(x, dir, left, right, unit);
        lemma_patrol_stays_in_range(p.0, p.1, left, right, unit, (n - 1) as nat);
    }
}

/// A tick of a game in play moves the mothership by one patrol step over
/// `[PATROL_MARGIN, patrol_right()]`, the range that well-formedness keeps
/// it on; on a window wide enough for a patrol that range is
/// `[PATROL_MARGIN, window width - mothership width - PATROL_MARGIN]`.
pub proof fn lemma_mothership_within_margins(v: GameView, field: Seq<Asteroid>, stars: Seq<Star>)
    requires
        v.wf(),
    ensures
        v.screen_width() - v.mothership_width - PATROL_MARGIN >= PATROL_MARGIN ==> PATROL_MARGIN
            <= v.mothership_pos_x <= v.screen_width() - v.mothership_width - PATROL_MARGIN,
        v.game_status == GameStatus::Playing ==> v.tick(field, stars).0.mothership_pos_x == patrol_step(
            v.mothership_pos_x as int,
            v.mothership_direction as int,
            PATROL_MARGIN as int,
            v.patrol_right(),
            v.window_width as int,
        ).0,
        v.tick(field, stars).0.patrol_right() == v.patrol_right(),
{
}

/// The pod's status and explosion timer after `n` ticks of the countdown.
pub open spec fn explosion_after(status: PodStatus, timer: u8, n: nat) -> (PodStatus, u8)
    decreases n,
{
    if n == 0 {
        (status, timer)
    } else {
        let e = explosion_step(status, timer);
        explosion_after(e.0, e.1, (n - 1) as nat)
    }
}

proof fn lemma_inactive_stays(n: nat)
    ensures
        explosion_after(PodStatus::Inactive, 0, n) == (PodStatus::Inactive, 0u8),
    decreases n,
{
    if n > 0 {
        lemma_inactive_stays((n - 1) as nat);
    }
}

proof fn lemma_countdown_from(t: u8, n: nat)
    requires
        t < EXPLOSION_TICKS,
    ensures
        t + n < EXPLOSION_TICKS ==> explosion_after(PodStatus::Exploding, t, n) == (PodStatus::Exploding, (t + n) as u8),
        t + n >= EXPLOSION_TICKS ==> explosion_after(PodStatus::Exploding, t, n) == (PodStatus::Inactive, 0u8),
    decreases n,
{
    if n > 0 {
        if t + 1 >= EXPLOSION_TICKS {
            lemma_inactive_stays((n - 1) as nat);
        } else {
            lemma_countdown_from((t + 1) as u8, (n - 1) as nat);
        }
    }
}

/// A fresh explosion (timer at zero) lasts exactly `EXPLOSION_TICKS` ticks:
/// the pod is still exploding after fewer, and inactive after that many or
/// more.
pub proof fn lemma_explosion_lasts(n: nat)
    ensures
        n < EXPLOSION_TICKS ==> explosion_after(PodStatus::Exploding, 0, n).0 == PodStatus::Exploding,
        n >= EXPLOSION_TICKS ==> explosion_after(PodStatus::Exploding, 0, n) == (PodStatus::Inactive, 0u8),
{
    lemma_countdown_from(0, n);
}

/// A tick of a game in play with an exploding pod runs one step of the
/// countdown: before the last tick the pod keeps exploding with its timer
/// one higher, on the last it is inactive again with the timer at zero. The
/// tick moves the pod in no other way and changes neither the counters nor
/// the screen. An explosion starts with its timer at zero.
pub proof fn lemma_tick_counts_down(v: GameView, field: Seq<Asteroid>, stars: Seq<Star>)
    requires
        v.game_status == GameStatus::Playing,
        v.pod_status == PodStatus::Exploding,
    ensures
        (v.tick(field, stars).0.pod_status, v.tick(field, stars).0.pod_explosion_timer) == explosion_step(
            v.pod_status,
            v.pod_explosion_timer,
        ),
        v.pod_explosion_timer + 1 < EXPLOSION_TICKS ==> v.tick(field, stars).0.pod_status == PodStatus::Exploding
            && v.tick(field, stars).0.pod_explosion_timer == v.pod_explosion_timer + 1,
        v.pod_explosion_timer + 1 == EXPLOSION_TICKS ==> v.tick(field, stars).0.pod_status == PodStatus::Inactive
            && v.tick(field, stars).0.pod_explosion_timer == 0,
        v.tick(field, stars).0.pod_pos_x == v.pod_pos_x,
        v.tick(field, stars).0.pod_pos_y == v.pod_pos_y,
        v.tick(field, stars).0.pods_remaining == v.pods_remaining,
        v.tick(field, stars).0.men_to_rescue == v.men_to_rescue,
        v.tick(field, stars).0.level == v.level,
        v.tick(field, stars).0.game_status == GameStatus::Playing,
        !v.tick(field, stars).1,
        v.exploded().pod_status == PodStatus::Exploding,
        v.exploded().pod_explosion_timer == 0,
{
}

} // verus!
