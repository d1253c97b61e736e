//! The game world: its state, the pod's life cycle, the per-tick physics and
//! the screens the game moves through.

use vstd::prelude::*;

use crate::entities::{Asteroid, CollisionType, GameStatus, ManStatus, PodMove, PodStatus, Sounds, Star};
use crate::geometry::{clamp_to_world, in_world, scaled, shift, within, within_distance, POS_LIMIT, SIZE_LIMIT, UNITS_PER_PIXEL};
use crate::level::{field_fits, generate_field, generate_stars, stars_fit};

verus! {

// Lengths of the design, in pixels of a 1920-pixel-wide reference window; on a
// window `w` pixels wide each measures `k * w` units.
/// Height of the mothership's patrol line.
pub const MOTHERSHIP_ALTITUDE: i64 = 100;
/// Width of the mothership.
pub const MOTHERSHIP_WIDTH: i64 = 80;
/// Height of the ground strip.
pub const GROUND_HEIGHT: i64 = 40;
/// Height of the landing pad.
pub const PAD_HEIGHT: i64 = 20;
/// Width of the landing pad.
pub const PAD_WIDTH: i64 = 250;
/// Side of the square pod.
pub const POD_SIZE: i64 = 20;
/// How far above the window's bottom edge the stranded figure stands.
pub const MAN_HEIGHT_OFFSET: i64 = 60;
/// Pod movement per tick while dropping or ascending.
pub const VERTICAL_STEP: i64 = 5;
/// Horizontal pod movement per tick while auto-docking.
pub const AUTODOCK_STEP: i64 = 20;
/// Horizontal pod movement per tick of steering.
pub const STEER_STEP: i64 = 4;
/// The figure's walking speed toward the pod.
pub const WALK_STEP: i64 = 10;
/// How far left of the window an asteroid re-enters from.
pub const WRAP_OFFSET: i64 = 150;

/// Mothership speed per tick, in reference pixels; its direction is the sign.
pub const MOTHERSHIP_SPEED: i8 = 10;

// Lengths in plain pixels, the same on every window.
/// Gap between the mothership's patrol range and the window edges.
pub const PATROL_MARGIN: i64 = 50 * UNITS_PER_PIXEL;
/// Where a dropped pod appears, right of the mothership's left edge.
pub const DROP_OFFSET_X: i64 = 40 * UNITS_PER_PIXEL;
/// Where a dropped pod appears, below the mothership's top.
pub const DROP_OFFSET_Y: i64 = 30 * UNITS_PER_PIXEL;
/// How close below the mothership a rising pod counts as arrived.
pub const DOCK_TOLERANCE: i64 = 10 * UNITS_PER_PIXEL;
/// Where the boarding figure stops, right of the pod's left edge.
pub const BOARDING_OFFSET: i64 = 15 * UNITS_PER_PIXEL;
/// The pod's height when the game starts.
pub const START_POD_Y: i64 = 100 * UNITS_PER_PIXEL;

/// Ticks after which an exploding pod is inactive again.
pub const EXPLOSION_TICKS: u8 = 21;

/// Men to rescue before the first level starts.
pub const START_MEN: u32 = 5;

/// The whole game state. Lengths are in units (see `crate::geometry`).
pub struct Game {
    pub game_status: GameStatus,
    pub level: u8,
    pub window_width: u32,
    pub window_height: u32,
    pub mothership_pos_y: i64,
    pub mothership_pos_x: i64,
    pub mothership_direction: i8,
    pub mothership_width: i64,
    pub asteroids: Vec<Asteroid>,
    pub pod_pos_x: i64,
    pub pod_pos_y: i64,
    /// Directory that the presentation layer loads fonts and sounds from.
    pub resource_path: String,
    pub ground_height: i64,
    pub landing_pad_height: i64,
    pub landing_pad_width: i64,
    pub landing_pad_x: i64,
    pub pod_size: i64,
    pub pod_status: PodStatus,
    pub pod_explosion_timer: u8,
    pub sounds_to_play: Vec<Sounds>,
    pub men_to_rescue: u32,
    pub pods_remaining: u32,
    pub pods_carried_over: u32,
    pub man_pos_x: i64,
    pub man_pos_y: i64,
    pub man_status: ManStatus,
    /// With this set, losing a pod costs nothing.
    pub debugging_aids: bool,
    pub stars: Vec<Star>,
}

/// The mathematical model of a [`Game`]: its plain fields, with sequences in
/// place of the vectors and the string.
pub struct GameView {
    pub game_status: GameStatus,
    pub level: u8,
    pub window_width: u32,
    pub window_height: u32,
    pub mothership_pos_y: i64,
    pub mothership_pos_x: i64,
    pub mothership_direction: i8,
    pub mothership_width: i64,
    pub asteroids: Seq<Asteroid>,
    pub pod_pos_x: i64,
    pub pod_pos_y: i64,
    pub resource_path: Seq<char>,
    pub ground_height: i64,
    pub landing_pad_height: i64,
    pub landing_pad_width: i64,
    pub landing_pad_x: i64,
    pub pod_size: i64,
    pub pod_status: PodStatus,
    pub pod_explosion_timer: u8,
    pub sounds_to_play: Seq<Sounds>,
    pub men_to_rescue: u32,
    pub pods_remaining: u32,
    pub pods_carried_over: u32,
    pub man_pos_x: i64,
    pub man_pos_y: i64,
    pub man_status: ManStatus,
    pub debugging_aids: bool,
    pub stars: Seq<Star>,
}

impl View for Game {
    type V = GameView;

    open spec fn view(&self) -> GameView {
        GameView {
            game_status: self.game_status,
            level: self.level,
            window_width: self.window_width,
            window_height: self.window_height,
            mothership_pos_y: self.mothership_pos_y,
            mothership_pos_x: self.mothership_pos_x,
            mothership_direction: self.mothership_direction,
            mothership_width: self.mothership_width,
            asteroids: self.asteroids@,
            pod_pos_x: self.pod_pos_x,
            pod_pos_y: self.pod_pos_y,
            resource_path: self.resource_path@,
            ground_height: self.ground_height,
            landing_pad_height: self.landing_pad_height,
            landing_pad_width: self.landing_pad_width,
            landing_pad_x: self.landing_pad_x,
            pod_size: self.pod_size,
            pod_status: self.pod_status,
            pod_explosion_timer: self.pod_explosion_timer,
            sounds_to_play: self.sounds_to_play@,
            men_to_rescue: self.men_to_rescue,
            pods_remaining: self.pods_remaining,
            pods_carried_over: self.pods_carried_over,
            man_pos_x: self.man_pos_x,
            man_pos_y: self.man_pos_y,
            man_status: self.man_status,
            debugging_aids: self.debugging_aids,
            stars: self.stars@,
        }
    }
}

/// Every asteroid of the field is well formed.
pub open spec fn all_wf(field: Seq<Asteroid>) -> bool {
    forall|i: int| 0 <= i < field.len() ==> (#[trigger] field[i]).wf()
}

pub open spec fn size_ok(s: int) -> bool {
    0 <= s <= SIZE_LIMIT
}

/// `x + 1`, stopping at `u32::MAX`.
pub open spec fn saturating_inc(x: u32) -> u32 {
    if x < u32::MAX {
        (x + 1) as u32
    } else {
        x
    }
}

/// `x + y`, stopping at `u32::MAX`.
pub open spec fn saturating_sum(x: int, y: int) -> u32 {
    if x + y > u32::MAX {
        u32::MAX
    } else {
        (x + y) as u32
    }
}

/// The level after `level`; the last level repeats.
pub open spec fn next_level(level: u8) -> u8 {
    if level < 255 {
        (level + 1) as u8
    } else {
        level
    }
}

/// One tick of the explosion countdown.
pub open spec fn explosion_step(status: PodStatus, timer: u8) -> (PodStatus, u8) {
    if status == PodStatus::Exploding {
        if timer + 1 >= EXPLOSION_TICKS {
            (PodStatus::Inactive, 0)
        } else {
            (PodStatus::Exploding, (timer + 1) as u8)
        }
    } else {
        (status, timer)
    }
}

/// One tick of the mothership's patrol over `[left, right]` with step `unit`
/// per unit of speed: it turns round at either end, then moves, and never
/// leaves the range. Yields the new position and direction.
pub open spec fn patrol_step(x: int, dir: int, left: int, right: int, unit: int) -> (int, int) {
    let d = if (x >= right && dir > 0) || (x <= left && dir < 0) {
        -dir
    } else {
        dir
    };
    let nx = x + d * unit;
    (
        if nx < left {
            left
        } else if nx > right {
            right
        } else {
            nx
        },
        d,
    )
}

/// An asteroid after one tick on a window `ww` pixels wide: it drifts by its
/// speed and, once past one edge, re-enters at the other.
pub open spec fn drifted(a: Asteroid, ww: int) -> Asteroid {
    let x = clamp_to_world(a.x_pos + a.speed);
    Asteroid {
        x_pos: (if a.speed > 0 && x > ww * UNITS_PER_PIXEL {
            -WRAP_OFFSET * ww
        } else if a.speed < 0 && x < -WRAP_OFFSET * ww {
            ww * UNITS_PER_PIXEL
        } else {
            x
        }) as i64,
        ..a
    }
}

/// Collision of the pod's centre `(cx, cy)` with one blob of centre
/// `(bx, by)` and radius `r`, the pod's half size being `half`.
pub open spec fn blob_hit(cx: int, cy: int, bx: int, by: int, r: int, half: int) -> CollisionType {
    if within(cx, cy, bx, by, r) {
        CollisionType::Fatal
    } else if within(cx, cy, bx, by, r + half) {
        CollisionType::NearMiss
    } else {
        CollisionType::Clear
    }
}

pub open spec fn blob1_hit(a: Asteroid, cx: int, cy: int, half: int) -> CollisionType {
    blob_hit(cx, cy, a.x_pos + a.r1_offset_x + a.r1, a.y_pos + a.r1_offset_y + a.r1, a.r1 as int, half)
}

pub open spec fn blob2_hit(a: Asteroid, cx: int, cy: int, half: int) -> CollisionType {
    blob_hit(cx, cy, a.x_pos + a.r2_offset_x + a.r2, a.y_pos + a.r2_offset_y + a.r2, a.r2 as int, half)
}

pub open spec fn blob3_hit(a: Asteroid, cx: int, cy: int, half: int) -> CollisionType {
    blob_hit(cx, cy, a.x_pos + a.r3_offset_x + a.r3, a.y_pos + a.r3_offset_y + a.r3, a.r3 as int, half)
}

/// The first of the three blobs, in order, that the pod touches decides.
pub open spec fn asteroid_hit(a: Asteroid, cx: int, cy: int, half: int) -> CollisionType {
    if blob1_hit(a, cx, cy, half) != CollisionType::Clear {
        blob1_hit(a, cx, cy, half)
    } else if blob2_hit(a, cx, cy, half) != CollisionType::Clear {
        blob2_hit(a, cx, cy, half)
    } else {
        blob3_hit(a, cx, cy, half)
    }
}

/// The first asteroid from index `i` on that the pod touches, and how; or
/// `Clear` with the field's length.
pub open spec fn first_hit(field: Seq<Asteroid>, i: int, cx: int, cy: int, half: int) -> (CollisionType, int)
    decreases field.len() - i,
{
    if i < 0 || i >= field.len() {
        (CollisionType::Clear, field.len() as int)
    } else if asteroid_hit(field[i], cx, cy, half) != CollisionType::Clear {
        (asteroid_hit(field[i], cx, cy, half), i)
    } else {
        first_hit(field, i + 1, cx, cy, half)
    }
}

impl GameView {
    pub open spec fn screen_width(self) -> int {
        self.window_width * UNITS_PER_PIXEL
    }

    pub open spec fn screen_height(self) -> int {
        self.window_height * UNITS_PER_PIXEL
    }

    /// Rightmost mothership position; the range is a single point on a
    /// window too narrow for a patrol.
    pub open spec fn patrol_right(self) -> int {
        let r = self.screen_width() - self.mothership_width - PATROL_MARGIN;
        if r < PATROL_MARGIN {
            PATROL_MARGIN as int
        } else {
            r
        }
    }

    /// Well-formedness: the layout is sound and some man is left to rescue.
    pub open spec fn wf(self) -> bool {
        self.layout_wf() && self.men_to_rescue >= 1
    }

    /// Coordinates within the world, sizes within bounds, the mothership on
    /// its patrol range, and the explosion timer in range.
    pub open spec fn layout_wf(self) -> bool {
        &&& in_world(self.mothership_pos_y as int)
        &&& in_world(self.pod_pos_x as int)
        &&& in_world(self.pod_pos_y as int)
        &&& in_world(self.man_pos_x as int)
        &&& in_world(self.man_pos_y as int)
        &&& size_ok(self.mothership_width as int)
        &&& size_ok(self.ground_height as int)
        &&& size_ok(self.landing_pad_height as int)
        &&& size_ok(self.landing_pad_width as int)
        &&& size_ok(self.landing_pad_x as int)
        &&& size_ok(self.pod_size as int)
        &&& (self.mothership_direction == MOTHERSHIP_SPEED || self.mothership_direction == -MOTHERSHIP_SPEED)
        &&& PATROL_MARGIN <= self.mothership_pos_x <= self.patrol_right()
        &&& self.pod_explosion_timer < EXPLOSION_TICKS
        &&& all_wf(self.asteroids)
    }

    /// Height at which a pod rests on the landing pad.
    pub open spec fn pad_top(self) -> int {
        self.screen_height() - self.ground_height - self.landing_pad_height - self.pod_size
    }

    /// Height at which a pod rests on the ground.
    pub open spec fn ground_top(self) -> int {
        self.screen_height() - self.ground_height - self.pod_size
    }

    /// The pod's horizontal span meets the landing pad's.
    pub open spec fn over_pad(self) -> bool {
        &&& self.pod_pos_x + self.pod_size >= self.landing_pad_x
        &&& self.pod_pos_x <= self.landing_pad_x + self.landing_pad_width
    }

    pub open spec fn pod_centre_x(self) -> int {
        self.pod_pos_x + self.pod_size / 2
    }

    pub open spec fn pod_centre_y(self) -> int {
        self.pod_pos_y + self.pod_size / 2
    }

    pub open spec fn with_sound(self, s: Sounds) -> GameView {
        GameView { sounds_to_play: self.sounds_to_play.push(s), ..self }
    }

    /// The pod blows up: one pod is lost (none with debugging aids), and the
    /// game is over once none is left.
    pub open spec fn exploded(self) -> GameView {
        let pods: u32 = if self.debugging_aids {
            self.pods_remaining
        } else if self.pods_remaining > 0 {
            (self.pods_remaining - 1) as u32
        } else {
            0
        };
        GameView {
            pod_status: PodStatus::Exploding,
            pod_explosion_timer: 0,
            sounds_to_play: self.sounds_to_play.push(Sounds::Explosion),
            pods_remaining: pods,
            game_status: if !self.debugging_aids && pods == 0 {
                GameStatus::GameOver
            } else {
                self.game_status
            },
            ..self
        }
    }

    /// The landing check of a dropping pod: whether it has come down, and
    /// the state after. On the pad it waits for take-off; beside it, it
    /// crashes once it reaches the ground.
    pub open spec fn landing(self) -> (bool, GameView) {
        if self.pod_pos_y >= self.pad_top() && self.over_pad() {
            (
                true,
                GameView {
                    pod_pos_y: self.pad_top() as i64,
                    pod_status: PodStatus::ReadyForTakeOff,
                    sounds_to_play: self.sounds_to_play.push(Sounds::Landed),
                    man_status: ManStatus::EnteringPod,
                    ..self
                },
            )
        } else if self.pod_pos_y >= self.ground_top() {
            (true, GameView { pod_pos_y: self.ground_top() as i64, ..self }.exploded())
        } else {
            (false, self)
        }
    }

    /// The collision check: its outcome, and the field without the asteroid
    /// that a fatal hit destroys.
    pub open spec fn collision(self) -> (CollisionType, GameView) {
        let hit = first_hit(self.asteroids, 0, self.pod_centre_x(), self.pod_centre_y(), self.pod_size / 2);
        if hit.0 == CollisionType::Fatal {
            (hit.0, GameView { asteroids: self.asteroids.remove(hit.1), ..self })
        } else {
            (hit.0, self)
        }
    }

    /// What a collision outcome does to a moving pod.
    pub open spec fn react(self, kind: CollisionType) -> GameView {
        match kind {
            CollisionType::Fatal => self.exploded(),
            CollisionType::NearMiss => self.with_sound(Sounds::Scrape),
            CollisionType::Clear => self,
        }
    }

    /// The pod has risen to the mothership's altitude.
    pub open spec fn at_dock_altitude(self) -> bool {
        self.pod_pos_y <= self.mothership_pos_y + DOCK_TOLERANCE
    }

    /// The pod lies horizontally within the mothership's body.
    pub open spec fn aligned(self) -> bool {
        self.pod_pos_x >= self.mothership_pos_x && self.pod_pos_x <= self.mothership_pos_x
            + self.mothership_width - self.pod_size
    }

    /// The state after a dock: one man fewer to rescue, and a bonus pod for
    /// a dock made without the autopilot.
    pub open spec fn docked(self) -> GameView {
        let bonus = self.pod_status != PodStatus::AutoDock;
        GameView {
            pods_remaining: if bonus {
                saturating_inc(self.pods_remaining)
            } else {
                self.pods_remaining
            },
            sounds_to_play: if bonus {
                self.sounds_to_play.push(Sounds::Bonus).push(Sounds::Docked)
            } else {
                self.sounds_to_play.push(Sounds::Docked)
            },
            pod_status: PodStatus::Inactive,
            men_to_rescue: (self.men_to_rescue - 1) as u32,
            ..self
        }
    }

    /// The state once `level` has started with the asteroid field `field`
    /// and the star field `stars`.
    pub open spec fn level_started(self, level: u8, field: Seq<Asteroid>, stars: Seq<Star>) -> GameView {
        let men = level + 1;
        GameView {
            game_status: if level > 1 {
                GameStatus::NewLevel
            } else {
                self.game_status
            },
            level,
            asteroids: field,
            men_to_rescue: men as u32,
            pods_carried_over: self.pods_remaining,
            pods_remaining: saturating_sum(self.pods_remaining as int, 1 + men / 4),
            stars,
            ..self
        }
    }

    /// `after`'s asteroid and star fields are possible draws for its level,
    /// the star field being kept where `stars_before` held one.
    pub open spec fn level_drawn(stars_before: Seq<Star>, after: GameView) -> bool {
        &&& field_fits(after.window_width as int, after.window_height as int, after.level as int, after.asteroids)
        &&& stars_fit(after.window_width as int, after.window_height as int, stars_before, after.stars)
    }

    /// The docking check of a rising pod: whether it docked, whether that
    /// started the next level (with `field` and `stars`), and the state
    /// after. At the mothership's altitude but beside it, the autopilot
    /// takes over.
    pub open spec fn docking(self, field: Seq<Asteroid>, stars: Seq<Star>) -> (bool, bool, GameView) {
        if !self.at_dock_altitude() {
            (false, false, self)
        } else if !self.aligned() {
            (false, false, GameView { pod_status: PodStatus::AutoDock, ..self })
        } else {
            let d = self.docked();
            if d.men_to_rescue == 0 {
                (true, true, d.level_started(next_level(self.level), field, stars))
            } else {
                (true, false, d)
            }
        }
    }

    /// The explosion countdown, the mothership's patrol and the asteroids'
    /// drift of one tick.
    pub open spec fn world_moved(self) -> GameView {
        let e = explosion_step(self.pod_status, self.pod_explosion_timer);
        let m = patrol_step(
            self.mothership_pos_x as int,
            self.mothership_direction as int,
            PATROL_MARGIN as int,
            self.patrol_right(),
            self.window_width as int,
        );
        GameView {
            pod_status: e.0,
            pod_explosion_timer: e.1,
            mothership_pos_x: m.0 as i64,
            mothership_direction: m.1 as i8,
            asteroids: Seq::new(
                self.asteroids.len(),
                |i: int| drifted(self.asteroids[i], self.window_width as int),
            ),
            ..self
        }
    }

    pub open spec fn pod_moved_down(self, delta: int) -> GameView {
        GameView { pod_pos_y: clamp_to_world(self.pod_pos_y + delta) as i64, ..self }
    }

    /// One tick of a dropping pod: it lands, or else is checked against the
    /// asteroids and moves down.
    pub open spec fn descend(self) -> GameView {
        let l = self.landing();
        if l.0 {
            l.1
        } else {
            let c = self.collision();
            c.1.react(c.0).pod_moved_down(VERTICAL_STEP * self.window_width)
        }
    }

    /// One tick of a rising pod: it docks, or else is checked against the
    /// asteroids and moves up. Also says whether a new level started.
    pub open spec fn ascend(self, field: Seq<Asteroid>, stars: Seq<Star>) -> (GameView, bool) {
        let d = self.docking(field, stars);
        if d.0 {
            (d.2, d.1)
        } else {
            let c = d.2.collision();
            (c.1.react(c.0).pod_moved_down(-VERTICAL_STEP * self.window_width), false)
        }
    }

    /// The autopilot's move: a step toward the mothership, and the rise of
    /// an ascending pod.
    pub open spec fn autopiloted(self) -> GameView {
        let step = if self.mothership_pos_x < self.pod_pos_x {
            -AUTODOCK_STEP * self.window_width
        } else {
            AUTODOCK_STEP * self.window_width
        };
        GameView {
            pod_pos_x: clamp_to_world(self.pod_pos_x + step) as i64,
            pod_pos_y: clamp_to_world(self.pod_pos_y - VERTICAL_STEP * self.window_width) as i64,
            ..self
        }
    }

    /// One tick of the autopilot: its move, then the docking check at the
    /// new position.
    pub open spec fn auto_dock(self, field: Seq<Asteroid>, stars: Seq<Star>) -> (GameView, bool) {
        let d = self.autopiloted().docking(field, stars);
        (d.2, d.1)
    }

    /// One tick of the rescued figure walking into the landed pod; on
    /// arrival it is seated and put back at its spawn point.
    pub open spec fn man_walked(self) -> GameView {
        if self.man_pos_x > self.pod_pos_x + BOARDING_OFFSET {
            GameView {
                man_pos_x: clamp_to_world(self.man_pos_x - WALK_STEP * self.window_width) as i64,
                ..self
            }
        } else {
            GameView {
                man_status: ManStatus::Inactive,
                sounds_to_play: self.sounds_to_play.push(Sounds::Seatbelt),
                man_pos_x: (1440 * self.window_width) as i64,
                man_pos_y: (self.screen_height() - MAN_HEIGHT_OFFSET * self.window_width) as i64,
                ..self
            }
        }
    }

    /// One tick of the game, a new level (if one starts) taking `field` and
    /// `stars`; also says whether a new level started. Nothing moves outside
    /// `Playing`.
    pub open spec fn tick(self, field: Seq<Asteroid>, stars: Seq<Star>) -> (GameView, bool) {
        if self.game_status != GameStatus::Playing {
            (self, false)
        } else {
            let a = self.world_moved();
            let b = if a.pod_status == PodStatus::Dropping {
                a.descend()
            } else {
                a
            };
            let c = if b.pod_status == PodStatus::Ascending {
                b.ascend(field, stars)
            } else {
                (b, false)
            };
            let d = if c.0.pod_status == PodStatus::AutoDock {
                c.0.auto_dock(field, stars)
            } else {
                (c.0, false)
            };
            let e = if d.0.man_status == ManStatus::EnteringPod {
                d.0.man_walked()
            } else {
                d.0
            };
            (e, c.1 || d.1)
        }
    }
}

pub open spec fn centre_ok(c: int) -> bool {
    -2 * POS_LIMIT <= c <= 2 * POS_LIMIT
}

/// How the pod's centre `(cx, cy)` meets one blob.
fn blob_collision(cx: i64, cy: i64, bx: i64, by: i64, r: i64, half: i64) -> (k: CollisionType)
    requires
        centre_ok(cx as int),
        centre_ok(cy as int),
        -3 * POS_LIMIT <= bx <= 3 * POS_LIMIT,
        -3 * POS_LIMIT <= by <= 3 * POS_LIMIT,
        in_world(r as int),
        size_ok(half as int),
    ensures
        k == blob_hit(cx as int, cy as int, bx as int, by as int, r as int, half as int),
{
    if within_distance(cx, cy, bx, by, r) {
        CollisionType::Fatal
    } else if within_distance(cx, cy, bx, by, r + half) {
        CollisionType::NearMiss
    } else {
        CollisionType::Clear
    }
}

/// How the pod's centre `(cx, cy)` meets an asteroid.
fn asteroid_collision(a: &Asteroid, cx: i64, cy: i64, half: i64) -> (k: CollisionType)
    requires
        a.wf(),
        centre_ok(cx as int),
        centre_ok(cy as int),
        size_ok(half as int),
    ensures
        k == asteroid_hit(*a, cx as int, cy as int, half as int),
{
    let k1 = blob_collision(cx, cy, a.x_pos + a.r1_offset_x + a.r1, a.y_pos + a.r1_offset_y + a.r1, a.r1, half);
    if k1 != CollisionType::Clear {
        return k1;
    }
    let k2 = blob_collision(cx, cy, a.x_pos + a.r2_offset_x + a.r2, a.y_pos + a.r2_offset_y + a.r2, a.r2, half);
    if k2 != CollisionType::Clear {
        return k2;
    }
    blob_collision(cx, cy, a.x_pos + a.r3_offset_x + a.r3, a.y_pos + a.r3_offset_y + a.r3, a.r3, half)
}

/// The first asteroid of `field` that the pod's centre `(cx, cy)` meets,
/// and how.
fn first_collision(field: &Vec<Asteroid>, cx: i64, cy: i64, half: i64) -> (r: (CollisionType, usize))
    requires
        all_wf(field@),
        centre_ok(cx as int),
        centre_ok(cy as int),
        size_ok(half as int),
    ensures
        r.0 == first_hit(field@, 0, cx as int, cy as int, half as int).0,
        r.1 == first_hit(field@, 0, cx as int, cy as int, half as int).1,
        r.1 <= field@.len(),
        r.0 != CollisionType::Clear ==> r.1 < field@.len(),
{
    let mut idx: usize = 0;
    while idx < field.len()
        invariant
            idx <= field@.len(),
            all_wf(field@),
            centre_ok(cx as int),
            centre_ok(cy as int),
            size_ok(half as int),
            first_hit(field@, 0, cx as int, cy as int, half as int) == first_hit(
                field@,
                idx as int,
                cx as int,
                cy as int,
                half as int,
            ),
        decreases field@.len() - idx,
    {
        let k = asteroid_collision(&field[idx], cx, cy, half);
        if k != CollisionType::Clear {
            return (k, idx);
        }
        idx += 1;
    }
    (CollisionType::Clear, idx)
}

impl Game {
    /// Ends the game.
    pub fn game_over(&mut self)
        ensures
            final(self)@ == (GameView { game_status: GameStatus::GameOver, ..old(self)@ }),
    {
        self.game_status = GameStatus::GameOver;
    }

    /// Blows the pod up: it starts its explosion, one pod of the reserve is
    /// lost (unless debugging aids are on), and the game is over when the
    /// reserve is empty.
    pub fn explode_pod(&mut self)
        requires
            old(self)@.wf(),
        ensures
            final(self)@ == old(self)@.exploded(),
            final(self)@.wf(),
    {
        self.pod_status = PodStatus::Exploding;
        self.pod_explosion_timer = 0;
        self.sounds_to_play.push(Sounds::Explosion);
        if !self.debugging_aids {
            self.pods_remaining = self.pods_remaining.saturating_sub(1);
            if self.pods_remaining == 0 {
                self.game_over();
            }
        }
    }

    /// Tests a dropping pod against the ground. Once at the pad's height
    /// with its horizontal span meeting the pad's, it comes to rest ready for
    /// take-off and the stranded figure walks over; beside the pad, reaching
    /// the ground destroys it. Returns whether the pod came down either way.
    pub fn check_for_pod_landing(&mut self) -> (r: bool)
        requires
            old(self)@.wf(),
        ensures
            (r, final(self)@) == old(self)@.landing(),
            final(self)@.wf(),
    {
        let screen_height = self.window_height as i64 * UNITS_PER_PIXEL;
        let pad_top = screen_height - self.ground_height - self.landing_pad_height - self.pod_size;
        if self.pod_pos_y >= pad_top && self.pod_pos_x + self.pod_size >= self.landing_pad_x
            && self.pod_pos_x <= self.landing_pad_x + self.landing_pad_width {
            self.pod_pos_y = pad_top;
            self.pod_status = PodStatus::ReadyForTakeOff;
            self.sounds_to_play.push(Sounds::Landed);
            self.man_status = ManStatus::EnteringPod;
            return true;
        }
        let ground_top = screen_height - self.ground_height - self.pod_size;
        if self.pod_pos_y >= ground_top {
            self.pod_pos_y = ground_top;
            self.explode_pod();
            return true;
        }
        false
    }

    /// Tests the pod's centre against every blob of every asteroid, in
    /// order; the first blob within reach decides. Inside a blob's core the
    /// hit is fatal and that asteroid is destroyed; within the core's radius
    /// plus half the pod's size it is a near miss, which changes nothing.
    pub fn check_for_pod_collision(&mut self) -> (r: CollisionType)
        requires
            old(self)@.wf(),
        ensures
            (r, final(self)@) == old(self)@.collision(),
            final(self)@.wf(),
    {
        let half = self.pod_size / 2;
        let hit = first_collision(&self.asteroids, self.pod_pos_x + half, self.pod_pos_y + half, half);
        if hit.0 == CollisionType::Fatal {
            self.asteroids.remove(hit.1);
        }
        hit.0
    }
}

impl Game {
    /// Starts `level`: a fresh asteroid field of `BASE_ASTEROIDS + 2 * level`
    /// asteroids, `level + 1` men to rescue, and `1 + (level + 1) / 4` more
    /// pods in reserve (the reserve before is recorded as carried over). The
    /// star field is drawn the first time only. From level 2 on the game shows
    /// the new-level screen.
    pub fn new_level(&mut self, level: u8)
        requires
            old(self)@.layout_wf(),
        ensures
            final(self)@ == old(self)@.level_started(level, final(self)@.asteroids, final(self)@.stars),
            GameView::level_drawn(old(self)@.stars, final(self)@),
            final(self)@.wf(),
    {
        if level > 1 {
            self.game_status = GameStatus::NewLevel;
        }
        self.level = level;
        self.asteroids = generate_field(self.window_width, self.window_height, level);
        self.men_to_rescue = level as u32 + 1;
        self.pods_carried_over = self.pods_remaining;
        self.pods_remaining = self.pods_remaining.saturating_add(1 + self.men_to_rescue / 4);
        if self.stars.len() == 0 {
            self.stars = generate_stars(self.window_width, self.window_height);
        }
    }

    /// Tests a rising pod against the mothership. Once at its altitude, a pod
    /// within the mothership's body docks: one man fewer is left to rescue, a
    /// dock without the autopilot earns a bonus pod, and the next level starts
    /// when no man is left. A pod beside the mothership is handed to the
    /// autopilot. Returns whether the pod docked.
    pub fn check_for_pod_docking(&mut self) -> (r: bool)
        requires
            old(self)@.wf(),
        ensures
            r == old(self)@.docking(final(self)@.asteroids, final(self)@.stars).0,
            final(self)@ == old(self)@.docking(final(self)@.asteroids, final(self)@.stars).2,
            old(self)@.docking(final(self)@.asteroids, final(self)@.stars).1 ==> GameView::level_drawn(
                old(self)@.stars,
                final(self)@,
            ),
            final(self)@.wf(),
    {
        if self.pod_pos_y <= self.mothership_pos_y + DOCK_TOLERANCE {
            if self.pod_pos_x >= self.mothership_pos_x && self.pod_pos_x <= self.mothership_pos_x
                + self.mothership_width - self.pod_size {
                if self.pod_status != PodStatus::AutoDock {
                    self.pods_remaining = self.pods_remaining.saturating_add(1);
                    self.sounds_to_play.push(Sounds::Bonus);
                }
                self.sounds_to_play.push(Sounds::Docked);
                self.pod_status = PodStatus::Inactive;
                self.men_to_rescue = self.men_to_rescue - 1;
                if self.men_to_rescue == 0 {
                    let next = if self.level < 255 {
                        self.level + 1
                    } else {
                        self.level
                    };
                    self.new_level(next);
                }
                return true;
            } else {
                self.pod_status = PodStatus::AutoDock;
            }
        }
        false
    }
}

/// An asteroid after one tick's drift on a window `window_width` pixels wide.
fn drift_asteroid(a: Asteroid, window_width: u32) -> (r: Asteroid)
    requires
        a.wf(),
    ensures
        r == drifted(a, window_width as int),
        r.wf(),
{
    let screen_width = window_width as i64 * UNITS_PER_PIXEL;
    let wrap_x = scaled(-WRAP_OFFSET, window_width);
    let x = shift(a.x_pos, a.speed);
    let x_pos = if a.speed > 0 && x > screen_width {
        wrap_x
    } else if a.speed < 0 && x < wrap_x {
        screen_width
    } else {
        x
    };
    Asteroid { x_pos, ..a }
}

impl Game {
    /// Advances the explosion countdown by one tick.
    fn advance_explosion(&mut self)
        requires
            old(self)@.wf(),
        ensures
            final(self)@ == (GameView {
                pod_status: explosion_step(old(self).pod_status, old(self).pod_explosion_timer).0,
                pod_explosion_timer: explosion_step(old(self).pod_status, old(self).pod_explosion_timer).1,
                ..old(self)@
            }),
            final(self)@.wf(),
    {
        if self.pod_status == PodStatus::Exploding {
            self.pod_explosion_timer = self.pod_explosion_timer + 1;
            if self.pod_explosion_timer >= EXPLOSION_TICKS {
                self.pod_explosion_timer = 0;
                self.pod_status = PodStatus::Inactive;
            }
        }
    }

    /// Moves the mothership one tick along its patrol.
    fn move_mothership(&mut self)
        requires
            old(self)@.wf(),
        ensures
            final(self)@ == (GameView {
                mothership_pos_x: patrol_step(
                    old(self).mothership_pos_x as int,
                    old(self).mothership_direction as int,
                    PATROL_MARGIN as int,
                    old(self)@.patrol_right(),
                    old(self).window_width as int,
                ).0 as i64,
                mothership_direction: patrol_step(
                    old(self).mothership_pos_x as int,
                    old(self).mothership_direction as int,
                    PATROL_MARGIN as int,
                    old(self)@.patrol_right(),
                    old(self).window_width as int,
                ).1 as i8,
                ..old(self)@
            }),
            final(self)@.wf(),
    {
        let w = self.window_width as i64;
        let left = PATROL_MARGIN;
        let span = w * UNITS_PER_PIXEL - self.mothership_width - PATROL_MARGIN;
        let right = if span < left {
            left
        } else {
            span
        };
        let x = self.mothership_pos_x;
        if (x >= right && self.mothership_direction > 0) || (x <= left && self.mothership_direction < 0) {
            self.mothership_direction = -self.mothership_direction;
        }
        let nx = x + scaled(self.mothership_direction as i64, self.window_width);
        self.mothership_pos_x = if nx < left {
            left
        } else if nx > right {
            right
        } else {
            nx
        };
    }

    /// Lets every asteroid drift for one tick.
    fn move_asteroids(&mut self)
        requires
            old(self)@.wf(),
        ensures
            final(self)@ == (GameView {
                asteroids: Seq::new(
                    old(self)@.asteroids.len(),
                    |i: int| drifted(old(self)@.asteroids[i], old(self).window_width as int),
                ),
                ..old(self)@
            }),
            final(self)@.wf(),
    {
        let ghost start = self@;
        let mut i: usize = 0;
        while i < self.asteroids.len()
            invariant
                start == old(self)@,
                i <= self.asteroids@.len(),
                self.asteroids@.len() == start.asteroids.len(),
                self@ == (GameView { asteroids: self.asteroids@, ..start }),
                all_wf(self.asteroids@),
                forall|j: int|
                    0 <= j < i ==> #[trigger] self.asteroids@[j] == drifted(
                        start.asteroids[j],
                        start.window_width as int,
                    ),
                forall|j: int| i <= j < self.asteroids@.len() ==> #[trigger] self.asteroids@[j] == start.asteroids[j],
            decreases self.asteroids@.len() - i,
        {
            let a = drift_asteroid(self.asteroids[i], self.window_width);
            self.asteroids.set(i, a);
            i += 1;
        }
        assert(self.asteroids@ =~= Seq::new(
            start.asteroids.len(),
            |i: int| drifted(start.asteroids[i], start.window_width as int),
        ));
    }

    /// Applies a collision outcome to a moving pod.
    fn react_to_collision(&mut self, kind: CollisionType)
        requires
            old(self)@.wf(),
        ensures
            final(self)@ == old(self)@.react(kind),
            final(self)@.wf(),
    {
        match kind {
            CollisionType::Fatal => self.explode_pod(),
            CollisionType::NearMiss => self.sounds_to_play.push(Sounds::Scrape),
            CollisionType::Clear => {},
        }
    }

    /// One tick of the boarding figure's walk into the pod.
    fn walk_man(&mut self)
        requires
            old(self)@.wf(),
        ensures
            final(self)@ == old(self)@.man_walked(),
            final(self)@.wf(),
    {
        if self.man_pos_x > self.pod_pos_x + BOARDING_OFFSET {
            self.man_pos_x = shift(self.man_pos_x, scaled(-WALK_STEP, self.window_width));
        } else {
            self.man_status = ManStatus::Inactive;
            self.sounds_to_play.push(Sounds::Seatbelt);
            self.man_pos_x = scaled(1440, self.window_width);
            self.man_pos_y = self.window_height as i64 * UNITS_PER_PIXEL - scaled(MAN_HEIGHT_OFFSET, self.window_width);
        }
    }
}

/// Whether a dock happens, and whether it starts a level, does not depend on
/// the fields drawn for that level; nor does the outcome when none starts.
proof fn lemma_docking_draws(v: GameView, f1: Seq<Asteroid>, s1: Seq<Star>, f2: Seq<Asteroid>, s2: Seq<Star>)
    ensures
        v.docking(f1, s1).0 == v.docking(f2, s2).0,
        v.docking(f1, s1).1 == v.docking(f2, s2).1,
        !v.docking(f1, s1).1 ==> v.docking(f1, s1).2 == v.docking(f2, s2).2,
        v.docking(f1, s1).1 ==> v.docking(f1, s1).2.asteroids == f1 && v.docking(f1, s1).2.stars == s1
            && v.docking(f1, s1).2.pod_status == PodStatus::Inactive,
{
}

proof fn lemma_ascend_draws(v: GameView, f1: Seq<Asteroid>, s1: Seq<Star>, f2: Seq<Asteroid>, s2: Seq<Star>)
    ensures
        v.ascend(f1, s1).1 == v.ascend(f2, s2).1,
        !v.ascend(f1, s1).1 ==> v.ascend(f1, s1).0 == v.ascend(f2, s2).0,
        v.ascend(f1, s1).1 ==> v.ascend(f1, s1).0.asteroids == f1 && v.ascend(f1, s1).0.stars == s1
            && v.ascend(f1, s1).0.pod_status == PodStatus::Inactive,
{
    lemma_docking_draws(v, f1, s1, f2, s2);
}

proof fn lemma_auto_dock_draws(v: GameView, f1: Seq<Asteroid>, s1: Seq<Star>, f2: Seq<Asteroid>, s2: Seq<Star>)
    ensures
        v.auto_dock(f1, s1).1 == v.auto_dock(f2, s2).1,
        !v.auto_dock(f1, s1).1 ==> v.auto_dock(f1, s1).0 == v.auto_dock(f2, s2).0,
        v.auto_dock(f1, s1).1 ==> v.auto_dock(f1, s1).0.asteroids == f1 && v.auto_dock(f1, s1).0.stars == s1,
{
    lemma_docking_draws(v.autopiloted(), f1, s1, f2, s2);
}

impl Game {
    /// The dropping pod's part of a tick.
    fn descend_step(&mut self)
        requires
            old(self)@.wf(),
        ensures
            final(self)@ == (if old(self).pod_status == PodStatus::Dropping {
                old(self)@.descend()
            } else {
                old(self)@
            }),
            final(self)@.wf(),
    {
        if self.pod_status == PodStatus::Dropping {
            let landed = self.check_for_pod_landing();
            if !landed {
                let kind = self.check_for_pod_collision();
                self.react_to_collision(kind);
                self.pod_pos_y = shift(self.pod_pos_y, scaled(VERTICAL_STEP, self.window_width));
            }
        }
    }

    /// The rising pod's part of a tick.
    fn ascend_step(&mut self)
        requires
            old(self)@.wf(),
        ensures
            old(self).pod_status == PodStatus::Ascending ==> final(self)@ == old(self)@.ascend(
                final(self)@.asteroids,
                final(self)@.stars,
            ).0,
            old(self).pod_status == PodStatus::Ascending ==> (old(self)@.ascend(
                final(self)@.asteroids,
                final(self)@.stars,
            ).1 ==> GameView::level_drawn(old(self)@.stars, final(self)@)),
            old(self).pod_status != PodStatus::Ascending ==> final(self)@ == old(self)@,
            final(self)@.wf(),
    {
        if self.pod_status == PodStatus::Ascending {
            let docked = self.check_for_pod_docking();
            if !docked {
                let kind = self.check_for_pod_collision();
                self.react_to_collision(kind);
                self.pod_pos_y = shift(self.pod_pos_y, scaled(-VERTICAL_STEP, self.window_width));
                proof {
                    lemma_docking_draws(old(self)@, self@.asteroids, self@.stars, self@.asteroids, self@.stars);
                }
            }
        }
    }

    /// The autopilot's part of a tick.
    fn auto_dock_step(&mut self)
        requires
            old(self)@.wf(),
        ensures
            old(self).pod_status == PodStatus::AutoDock ==> final(self)@ == old(self)@.auto_dock(
                final(self)@.asteroids,
                final(self)@.stars,
            ).0,
            old(self).pod_status == PodStatus::AutoDock ==> (old(self)@.auto_dock(
                final(self)@.asteroids,
                final(self)@.stars,
            ).1 ==> GameView::level_drawn(old(self)@.stars, final(self)@)),
            old(self).pod_status != PodStatus::AutoDock ==> final(self)@ == old(self)@,
            final(self)@.wf(),
    {
        if self.pod_status == PodStatus::AutoDock {
            let step = if self.mothership_pos_x < self.pod_pos_x {
                scaled(-AUTODOCK_STEP, self.window_width)
            } else {
                scaled(AUTODOCK_STEP, self.window_width)
            };
            self.pod_pos_x = shift(self.pod_pos_x, step);
            self.pod_pos_y = shift(self.pod_pos_y, scaled(-VERTICAL_STEP, self.window_width));
            self.check_for_pod_docking();
        }
    }

    /// One tick of the simulation; it does nothing outside `Playing`. The
    /// explosion countdown runs, the mothership patrols, the asteroids drift;
    /// a dropping pod lands or is checked against the asteroids and moves
    /// down; a rising pod docks or is checked and moves up; the autopilot
    /// steers an auto-docking pod toward the mothership as it rises; the
    /// rescued figure walks to the pod. The outcome is exact but for the
    /// fields drawn when a level starts.
    #[verifier::rlimit(60)]
    pub fn next_frame(&mut self)
        requires
            old(self)@.wf(),
        ensures
            final(self)@ == old(self)@.tick(final(self)@.asteroids, final(self)@.stars).0,
            old(self)@.tick(final(self)@.asteroids, final(self)@.stars).1 ==> GameView::level_drawn(
                old(self)@.stars,
                final(self)@,
            ),
            final(self)@.wf(),
    {
        if self.game_status != GameStatus::Playing {
            return;
        }
        self.advance_explosion();
        self.move_mothership();
        self.move_asteroids();
        let ghost a = self@;
        assert(a == old(self)@.world_moved());
        self.descend_step();
        let ghost b = self@;
        self.ascend_step();
        let ghost c = self@;
        self.auto_dock_step();
        let ghost d = self@;
        if self.man_status == ManStatus::EnteringPod {
            self.walk_man();
        }
        proof {
            let f = self@.asteroids;
            let st = self@.stars;
            assert(d.asteroids == f && d.stars == st);
            assert(b == (if a.pod_status == PodStatus::Dropping { a.descend() } else { a }));
            if b.pod_status == PodStatus::Ascending {
                lemma_ascend_draws(b, c.asteroids, c.stars, f, st);
                assert(c == b.ascend(f, st).0);
            } else {
                assert(c == b);
            }
            if c.pod_status == PodStatus::AutoDock {
                lemma_auto_dock_draws(c, d.asteroids, d.stars, f, st);
                assert(d == c.auto_dock(f, st).0);
            } else {
                assert(d == c);
            }
            assert(self@ == (if d.man_status == ManStatus::EnteringPod { d.man_walked() } else { d }));
            assert(b.stars == old(self)@.stars);
        }
    }
}

/// The game as it starts on a window of `ww` by `wh` pixels: on the splash
/// screen, at level 1, with no asteroids or stars drawn yet.
pub open spec fn initial(ww: u32, wh: u32, resource_path: Seq<char>) -> GameView {
    GameView {
        game_status: GameStatus::SplashScreen,
        level: 1,
        window_width: ww,
        window_height: wh,
        mothership_pos_y: (MOTHERSHIP_ALTITUDE * ww) as i64,
        mothership_pos_x: PATROL_MARGIN,
        mothership_direction: MOTHERSHIP_SPEED,
        mothership_width: (MOTHERSHIP_WIDTH * ww / 1920 * UNITS_PER_PIXEL) as i64,
        asteroids: Seq::empty(),
        pod_pos_x: 0,
        pod_pos_y: START_POD_Y,
        resource_path,
        ground_height: (GROUND_HEIGHT * ww) as i64,
        landing_pad_height: (PAD_HEIGHT * ww) as i64,
        landing_pad_width: (PAD_WIDTH * ww) as i64,
        landing_pad_x: (ww * UNITS_PER_PIXEL / 2 - PAD_WIDTH * ww / 2) as i64,
        pod_size: (POD_SIZE * ww) as i64,
        pod_status: PodStatus::Inactive,
        pod_explosion_timer: 0,
        sounds_to_play: Seq::empty(),
        men_to_rescue: START_MEN,
        pods_remaining: 0,
        pods_carried_over: 0,
        man_pos_x: (1440 * ww) as i64,
        man_pos_y: (wh * UNITS_PER_PIXEL - MAN_HEIGHT_OFFSET * ww) as i64,
        man_status: ManStatus::Inactive,
        debugging_aids: false,
        stars: Seq::empty(),
    }
}

impl GameView {
    /// The drop intent: while playing, an inactive (or exploding) pod is
    /// launched downward from just below the mothership.
    pub open spec fn pod_dropped(self) -> GameView {
        if self.game_status != GameStatus::Playing || (self.pod_status != PodStatus::Inactive
            && self.pod_status != PodStatus::Exploding) {
            self
        } else {
            GameView {
                pod_status: PodStatus::Dropping,
                sounds_to_play: self.sounds_to_play.push(Sounds::DropPod),
                pod_pos_x: clamp_to_world(self.mothership_pos_x + DROP_OFFSET_X) as i64,
                pod_pos_y: clamp_to_world(self.mothership_pos_y + DROP_OFFSET_Y) as i64,
                ..self
            }
        }
    }

    /// The launch intent: while playing, a landed pod whose passenger has
    /// boarded starts to rise.
    pub open spec fn pod_launched(self) -> GameView {
        if self.game_status != GameStatus::Playing || self.pod_status != PodStatus::ReadyForTakeOff
            || self.man_status == ManStatus::EnteringPod {
            self
        } else {
            GameView {
                pod_status: PodStatus::Ascending,
                sounds_to_play: self.sounds_to_play.push(Sounds::TakeOff),
                ..self
            }
        }
    }

    /// The steering intent: while playing, a dropping or rising pod moves
    /// sideways.
    pub open spec fn pod_steered(self, direction: PodMove) -> GameView {
        if self.game_status != GameStatus::Playing || (self.pod_status != PodStatus::Dropping
            && self.pod_status != PodStatus::Ascending) {
            self
        } else {
            let step = match direction {
                PodMove::Left => -STEER_STEP * self.window_width,
                PodMove::Right => STEER_STEP * self.window_width,
            };
            GameView { pod_pos_x: clamp_to_world(self.pod_pos_x + step) as i64, ..self }
        }
    }
}

impl Game {
    /// A game on a window of `window_width` by `window_height` pixels, on
    /// its splash screen. `resource_path` names the directory of its fonts
    /// and sounds. Call `new_level` to lay out the first level.
    pub fn new(window_width: u32, window_height: u32, resource_path: String) -> (g: Game)
        ensures
            g@ == initial(window_width, window_height, resource_path@),
            g@.wf(),
    {
        let w = window_width as i64;
        let screen_width = w * UNITS_PER_PIXEL;
        let pad_width = scaled(PAD_WIDTH, window_width);
        Game {
            game_status: GameStatus::SplashScreen,
            level: 1,
            window_width,
            window_height,
            mothership_pos_y: scaled(MOTHERSHIP_ALTITUDE, window_width),
            mothership_pos_x: PATROL_MARGIN,
            mothership_direction: MOTHERSHIP_SPEED,
            mothership_width: MOTHERSHIP_WIDTH * w / 1920 * UNITS_PER_PIXEL,
            asteroids: Vec::new(),
            pod_pos_x: 0,
            pod_pos_y: START_POD_Y,
            resource_path,
            ground_height: scaled(GROUND_HEIGHT, window_width),
            landing_pad_height: scaled(PAD_HEIGHT, window_width),
            landing_pad_width: pad_width,
            landing_pad_x: screen_width / 2 - pad_width / 2,
            pod_size: scaled(POD_SIZE, window_width),
            pod_status: PodStatus::Inactive,
            pod_explosion_timer: 0,
            sounds_to_play: Vec::new(),
            men_to_rescue: START_MEN,
            pods_remaining: 0,
            pods_carried_over: 0,
            man_pos_x: scaled(1440, window_width),
            man_pos_y: window_height as i64 * UNITS_PER_PIXEL - scaled(MAN_HEIGHT_OFFSET, window_width),
            man_status: ManStatus::Inactive,
            debugging_aids: false,
            stars: Vec::new(),
        }
    }

    /// Back to the splash screen with level 1 laid out afresh and no pod out.
    pub fn restart(&mut self)
        requires
            old(self)@.wf(),
        ensures
            final(self)@ == (GameView {
                game_status: GameStatus::SplashScreen,
                pod_status: PodStatus::Inactive,
                ..old(self)@.level_started(1, final(self)@.asteroids, final(self)@.stars)
            }),
            GameView::level_drawn(old(self)@.stars, final(self)@),
            final(self)@.wf(),
    {
        self.new_level(1);
        self.game_status = GameStatus::SplashScreen;
        self.pod_status = PodStatus::Inactive;
    }

    /// Drops a pod from the mothership; ignored unless playing with no pod
    /// out.
    pub fn drop_pod(&mut self)
        requires
            old(self)@.wf(),
        ensures
            final(self)@ == old(self)@.pod_dropped(),
            final(self)@.wf(),
    {
        if self.game_status != GameStatus::Playing {
            return;
        }
        if self.pod_status != PodStatus::Inactive && self.pod_status != PodStatus::Exploding {
            return;
        }
        self.pod_status = PodStatus::Dropping;
        self.sounds_to_play.push(Sounds::DropPod);
        self.pod_pos_x = shift(self.mothership_pos_x, DROP_OFFSET_X);
        self.pod_pos_y = shift(self.mothership_pos_y, DROP_OFFSET_Y);
    }

    /// Launches a landed pod; ignored unless playing, the pod is ready and
    /// its passenger has boarded.
    pub fn launch_pod(&mut self)
        requires
            old(self)@.wf(),
        ensures
            final(self)@ == old(self)@.pod_launched(),
            final(self)@.wf(),
    {
        if self.game_status != GameStatus::Playing {
            return;
        }
        if self.pod_status != PodStatus::ReadyForTakeOff || self.man_status == ManStatus::EnteringPod {
            return;
        }
        self.pod_status = PodStatus::Ascending;
        self.sounds_to_play.push(Sounds::TakeOff);
    }

    /// Steers a dropping or rising pod one step sideways; ignored otherwise
    /// or outside `Playing`.
    pub fn pod_manoeuvre(&mut self, direction: PodMove)
        requires
            old(self)@.wf(),
        ensures
            final(self)@ == old(self)@.pod_steered(direction),
            final(self)@.wf(),
    {
        if self.game_status != GameStatus::Playing {
            return;
        }
        if self.pod_status == PodStatus::Dropping || self.pod_status == PodStatus::Ascending {
            let step = match direction {
                PodMove::Left => scaled(-STEER_STEP, self.window_width),
                PodMove::Right => scaled(STEER_STEP, self.window_width),
            };
            self.pod_pos_x = shift(self.pod_pos_x, step);
        }
    }

    /// Pauses a game in play.
    pub fn pause(&mut self)
        ensures
            final(self)@ == (if old(self).game_status == GameStatus::Playing {
                GameView { game_status: GameStatus::Paused, ..old(self)@ }
            } else {
                old(self)@
            }),
    {
        if self.game_status == GameStatus::Playing {
            self.game_status = GameStatus::Paused;
        }
    }

    /// Leaves the splash, new-level or pause screen for play; the game-over
    /// screen is left only by `restart`.
    pub fn resume(&mut self)
        ensures
            final(self)@ == (if old(self).game_status != GameStatus::GameOver {
                GameView { game_status: GameStatus::Playing, ..old(self)@ }
            } else {
                old(self)@
            }),
    {
        if self.game_status != GameStatus::GameOver {
            self.game_status = GameStatus::Playing;
        }
    }

    /// Hands out the sound events raised so far, in order, and empties the
    /// queue.
    pub fn drain_sounds(&mut self) -> (sounds: Vec<Sounds>)
        ensures
            sounds@ == old(self)@.sounds_to_play,
            final(self)@ == (GameView { sounds_to_play: Seq::empty(), ..old(self)@ }),
    {
        let mut sounds: Vec<Sounds> = Vec::new();
        std::mem::swap(&mut sounds, &mut self.sounds_to_play);
        sounds
    }
}

} // verus!
