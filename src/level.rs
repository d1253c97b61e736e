//! The level generator: asteroid rows, their drawn speeds and sizes, and the
//! star field.

use vstd::prelude::*;

use crate::entities::{Asteroid, Star};
use crate::geometry::{in_world, UNITS_PER_PIXEL};
use crate::random::{draw_between, drawn};

verus! {

/// Asteroid speeds are drawn in hundredths of a reference pixel per tick; a
/// draw closer to zero than this is pushed out to it, keeping its sign.
pub const SPEED_DEADBAND: i64 = 25;

/// Asteroids on level 0; each level adds two.
pub const BASE_ASTEROIDS: u32 = 16;

/// Stars in the background field.
pub const STAR_COUNT: usize = 320;

/// Fastest asteroid draw on `level`, in hundredths of a reference pixel.
pub open spec fn top_speed(level: int) -> int {
    300 + 50 * level
}

pub open spec fn asteroid_count(level: int) -> int {
    BASE_ASTEROIDS + 2 * level
}

/// A drawn speed pushed out of the deadband; zero counts as positive.
pub open spec fn clamped_speed(raw: int) -> int {
    if -SPEED_DEADBAND < raw < SPEED_DEADBAND {
        if raw < 0 {
            -SPEED_DEADBAND as int
        } else {
            SPEED_DEADBAND as int
        }
    } else {
        raw
    }
}

/// Magnitude in units of a speed of `m > 0` hundredths of a reference pixel
/// on a window `window_width` pixels wide: rounded down, but never below one
/// unit, so that a moving asteroid keeps moving on any window.
pub open spec fn magnitude_units(m: int, window_width: int) -> int {
    if m * window_width / 100 < 1 {
        1
    } else {
        m * window_width / 100
    }
}

/// A speed in hundredths of a reference pixel, in units on a window
/// `window_width` pixels wide, keeping its sign (see `magnitude_units`).
pub open spec fn speed_units(hundredths: int, window_width: int) -> int {
    if hundredths < 0 {
        -magnitude_units(-hundredths, window_width)
    } else if hundredths > 0 {
        magnitude_units(hundredths, window_width)
    } else {
        0
    }
}

/// Smallest speed magnitude an asteroid can have, in units.
pub open spec fn min_speed_units(window_width: int) -> int {
    magnitude_units(SPEED_DEADBAND as int, window_width)
}

/// Pushes a drawn speed out of the deadband around zero, keeping its sign.
pub fn clamp_speed(raw: i64) -> (r: i64)
    ensures
        r == clamped_speed(raw as int),
        r != 0,
        r <= -SPEED_DEADBAND || r >= SPEED_DEADBAND,
        raw <= -SPEED_DEADBAND || raw >= SPEED_DEADBAND ==> r == raw,
{
    if raw > -SPEED_DEADBAND && raw < SPEED_DEADBAND {
        if raw < 0 {
            -SPEED_DEADBAND
        } else {
            SPEED_DEADBAND
        }
    } else {
        raw
    }
}

/// Top of the asteroid band, 14.4% down the window, in units.
pub open spec fn band_top(window_height: int) -> int {
    window_height * 27648 / 100
}

/// Bottom of the asteroid band, 70% down the window, in units.
pub open spec fn band_bottom(window_height: int) -> int {
    window_height * 1344
}

/// Vertical position of row `row` of `count` rows spread evenly over the band.
pub open spec fn row_y(window_height: int, row: int, count: int) -> int {
    band_top(window_height) + (band_bottom(window_height) - band_top(window_height)) * row / count
}

/// The random values behind one asteroid: its speed in hundredths of a
/// reference pixel per tick (before the deadband), and in units its
/// horizontal position, its blob radii and their vertical offsets.
#[derive(Clone, Copy, Debug, PartialEq, Eq, Structural)]
pub struct AsteroidDraws {
    pub speed: i64,
    pub x_pos: i64,
    pub r1: i64,
    pub r1_offset_y: i64,
    pub r2: i64,
    pub r2_offset_y: i64,
    pub r3: i64,
    pub r3_offset_y: i64,
}

/// The draws lie in the ranges that a window `ww` pixels wide and `level` give.
pub open spec fn draws_fit(ww: int, level: int, d: AsteroidDraws) -> bool {
    &&& drawn(-top_speed(level), top_speed(level), d.speed as int)
    &&& drawn(50 * UNITS_PER_PIXEL, ww * UNITS_PER_PIXEL - 50 * UNITS_PER_PIXEL, d.x_pos as int)
    &&& drawn(20 * ww, 40 * ww, d.r1 as int)
    &&& drawn(0, 30 * ww, d.r1_offset_y as int)
    &&& drawn(30 * ww, 50 * ww, d.r2 as int)
    &&& drawn(0, 10 * ww, d.r2_offset_y as int)
    &&& drawn(20 * ww, 40 * ww, d.r3 as int)
    &&& drawn(0, 30 * ww, d.r3_offset_y as int)
}

/// The asteroid of row `row` of `count` built from the draws `d`.
pub open spec fn placed(ww: int, wh: int, row: int, count: int, d: AsteroidDraws) -> Asteroid {
    Asteroid {
        y_pos: row_y(wh, row, count) as i64,
        x_pos: d.x_pos,
        speed: speed_units(clamped_speed(d.speed as int), ww) as i64,
        r1: d.r1,
        r1_offset_x: 0,
        r1_offset_y: d.r1_offset_y,
        r2: d.r2,
        r2_offset_x: (20 * ww) as i64,
        r2_offset_y: d.r2_offset_y,
        r3: d.r3,
        r3_offset_x: (60 * ww) as i64,
        r3_offset_y: d.r3_offset_y,
    }
}

/// `a` is a possible asteroid for row `row` of `count` on `level`.
pub open spec fn asteroid_fits(ww: int, wh: int, level: int, row: int, count: int, a: Asteroid) -> bool {
    exists|d: AsteroidDraws| draws_fit(ww, level, d) && a == #[trigger] placed(ww, wh, row, count, d)
}

/// `field` is a possible asteroid field for `level`: one asteroid per row.
pub open spec fn field_fits(ww: int, wh: int, level: int, field: Seq<Asteroid>) -> bool {
    &&& field.len() == asteroid_count(level)
    &&& forall|i: int|
        0 <= i < field.len() ==> asteroid_fits(ww, wh, level, i, field.len() as int, #[trigger] field[i])
}

/// `s` is a possible star on a window of `ww` by `wh` pixels.
pub open spec fn star_fits(ww: int, wh: int, s: Star) -> bool {
    &&& drawn(wh * 3 / 40, wh, s.y_pos as int)
    &&& drawn(0, ww, s.x_pos as int)
    &&& drawn(min_int(255, ww / 960), min_int(255, ww / 384), s.radius as int)
    &&& drawn(64, 128, s.luminosity as int)
}

pub open spec fn min_int(a: int, b: int) -> int {
    if a <= b {
        a
    } else {
        b
    }
}

/// The star field after a level starts: kept where there was one, else a
/// fresh field of `STAR_COUNT` stars.
pub open spec fn stars_fit(ww: int, wh: int, before: Seq<Star>, after: Seq<Star>) -> bool {
    if before.len() > 0 {
        after == before
    } else {
        &&& after.len() == STAR_COUNT
        &&& forall|i: int| 0 <= i < after.len() ==> star_fits(ww, wh, #[trigger] after[i])
    }
}

/// Converts a speed from hundredths of a reference pixel to units.
pub fn scale_speed(hundredths: i64, window_width: u32) -> (r: i64)
    requires
        -1_000_000 <= hundredths <= 1_000_000,
    ensures
        r == speed_units(hundredths as int, window_width as int),
{
    let w = window_width as i64;
    if hundredths == 0 {
        return 0;
    }
    let m = if hundredths < 0 {
        -hundredths
    } else {
        hundredths
    };
    assert(0 <= m * w <= 1_000_000 * 0x1_0000_0000) by (nonlinear_arith)
        requires
            0 <= m <= 1_000_000,
            0 <= w < 0x1_0000_0000,
    ;
    let scaled = m * w / 100;
    let magnitude = if scaled < 1 {
        1
    } else {
        scaled
    };
    if hundredths < 0 {
        -magnitude
    } else {
        magnitude
    }
}

/// Vertical position of row `row` of `count` rows, in units.
pub fn asteroid_row_y(window_height: u32, row: u32, count: u32) -> (r: i64)
    requires
        row < count,
    ensures
        r == row_y(window_height as int, row as int, count as int),
        0 <= r <= band_bottom(window_height as int),
{
    let h = window_height as i64;
    let top = h * 27648 / 100;
    let bottom = h * 1344;
    let span = bottom - top;
    assert(0 <= span * (row as int) <= 1344 * 0x1_0000_0000 * 0x1_0000_0000) by (nonlinear_arith)
        requires
            0 <= span <= 1344 * 0x1_0000_0000,
            row < 0x1_0000_0000,
    ;
    let wide: i128 = span as i128 * row as i128;
    assert(0 <= wide <= span * (count as int)) by (nonlinear_arith)
        requires
            wide == span * (row as int),
            0 <= span,
            row < count,
    ;
    assert(span * (count as int) <= 1344 * 0x1_0000_0000 * 0x1_0000_0000) by (nonlinear_arith)
        requires
            0 <= span <= 1344 * 0x1_0000_0000,
            count < 0x1_0000_0000,
    ;
    let q: i128 = wide / (count as i128);
    assert(q <= span) by (nonlinear_arith)
        requires
            q == span * (row as int) / (count as int),
            0 <= span,
            row < count,
    ;
    let off = q as i64;
    top + off
}

/// Draws the random values for one asteroid on `level`.
pub fn draw_asteroid(window_width: u32, level: u8) -> (d: AsteroidDraws)
    ensures
        draws_fit(window_width as int, level as int, d),
{
    let w = window_width as i64;
    let top = 300 + 50 * (level as i64);
    AsteroidDraws {
        speed: draw_between(-top, top),
        x_pos: draw_between(50 * UNITS_PER_PIXEL, w * UNITS_PER_PIXEL - 50 * UNITS_PER_PIXEL),
        r1: draw_between(20 * w, 40 * w),
        r1_offset_y: draw_between(0, 30 * w),
        r2: draw_between(30 * w, 50 * w),
        r2_offset_y: draw_between(0, 10 * w),
        r3: draw_between(20 * w, 40 * w),
        r3_offset_y: draw_between(0, 30 * w),
    }
}

/// Builds the asteroid of row `row` of `count` from its draws.
pub fn place_asteroid(
    window_width: u32,
    window_height: u32,
    level: u8,
    row: u32,
    count: u32,
    d: AsteroidDraws,
) -> (a: Asteroid)
    requires
        row < count,
        draws_fit(window_width as int, level as int, d),
    ensures
        a == placed(window_width as int, window_height as int, row as int, count as int, d),
        a.wf(),
{
    let w = window_width as i64;
    let speed = scale_speed(clamp_speed(d.speed), window_width);
    assert(in_world(speed as int)) by (nonlinear_arith)
        requires
            speed == speed_units(clamped_speed(d.speed as int), w as int),
            -top_speed(255) <= clamped_speed(d.speed as int) <= top_speed(255),
            0 <= w < 0x1_0000_0000,
    ;
    Asteroid {
        y_pos: asteroid_row_y(window_height, row, count),
        x_pos: d.x_pos,
        speed,
        r1: d.r1,
        r1_offset_x: 0,
        r1_offset_y: d.r1_offset_y,
        r2: d.r2,
        r2_offset_x: 20 * w,
        r2_offset_y: d.r2_offset_y,
        r3: d.r3,
        r3_offset_x: 60 * w,
        r3_offset_y: d.r3_offset_y,
    }
}

/// A fresh asteroid field for `level`: `BASE_ASTEROIDS + 2 * level` asteroids,
/// one per row of the band, each with drawn speed, position and blobs.
pub fn generate_field(window_width: u32, window_height: u32, level: u8) -> (field: Vec<Asteroid>)
    ensures
        field_fits(window_width as int, window_height as int, level as int, field@),
        forall|i: int| 0 <= i < field@.len() ==> (#[trigger] field@[i]).wf(),
{
    let count: u32 = BASE_ASTEROIDS + 2 * (level as u32);
    let mut field: Vec<Asteroid> = Vec::new();
    let mut row: u32 = 0;
    while row < count
        invariant
            count == asteroid_count(level as int),
            row <= count,
            field@.len() == row,
            forall|i: int|
                0 <= i < row ==> asteroid_fits(
                    window_width as int,
                    window_height as int,
                    level as int,
                    i,
                    count as int,
                    #[trigger] field@[i],
                ),
            forall|i: int| 0 <= i < row ==> (#[trigger] field@[i]).wf(),
        decreases count - row,
    {
        let d = draw_asteroid(window_width, level);
        let a = place_asteroid(window_width, window_height, level, row, count, d);
        field.push(a);
        assert(asteroid_fits(window_width as int, window_height as int, level as int, row as int, count as int, field@[row as int]));
        row += 1;
    }
    field
}

/// Draws one background star.
pub fn random_star(window_width: u32, window_height: u32) -> (s: Star)
    ensures
        star_fits(window_width as int, window_height as int, s),
{
    let w = window_width as i64;
    let h = window_height as i64;
    let r_lo: i64 = if w / 960 < 255 { w / 960 } else { 255 };
    let r_hi: i64 = if w / 384 < 255 { w / 384 } else { 255 };
    let y = draw_between(h * 3 / 40, h);
    let x = draw_between(0, w);
    let radius = draw_between(r_lo, r_hi);
    let luminosity = draw_between(64, 128);
    Star { y_pos: y as u32, x_pos: x as u32, radius: radius as u8, luminosity: luminosity as u8 }
}

/// A fresh star field of `STAR_COUNT` stars.
pub fn generate_stars(window_width: u32, window_height: u32) -> (stars: Vec<Star>)
    ensures
        stars@.len() == STAR_COUNT,
        forall|i: int|
            0 <= i < stars@.len() ==> star_fits(window_width as int, window_height as int, #[trigger] stars@[i]),
{
    let mut stars: Vec<Star> = Vec::new();
    let mut n: usize = 0;
    while n < STAR_COUNT
        invariant
            n <= STAR_COUNT,
            stars@.len() == n,
            forall|i: int|
                0 <= i < n ==> star_fits(window_width as int, window_height as int, #[trigger] stars@[i]),
        decreases STAR_COUNT - n,
    {
        stars.push(random_star(window_width, window_height));
        n += 1;
    }
    stars
}

} // verus!
