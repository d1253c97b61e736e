//! Units, saturating movement and the circular reach test.

use vstd::prelude::*;

verus! {

/// Units in one screen pixel. A length of `k` pixels on a 1920-pixel-wide
/// reference window measures `k * window_width` units on a window of any width.
pub const UNITS_PER_PIXEL: i64 = 1920;

/// Coordinates are kept within `[-POS_LIMIT, POS_LIMIT]` units; movement that
/// would leave this range stops at its edge.
pub const POS_LIMIT: i64 = 281_474_976_710_656;

/// Fixed sizes of the scene (pod, pad, ground, mothership) lie in
/// `[0, SIZE_LIMIT]` units. Any `u32` window gives sizes well below this.
pub const SIZE_LIMIT: i64 = 17_592_186_044_416;

pub open spec fn in_world(p: int) -> bool {
    -POS_LIMIT <= p <= POS_LIMIT
}

pub open spec fn clamp_to_world(p: int) -> int {
    if p < -POS_LIMIT {
        -POS_LIMIT as int
    } else if p > POS_LIMIT {
        POS_LIMIT as int
    } else {
        p
    }
}

/// A coordinate moved by `delta`, stopping at the edge of the world.
pub fn shift(pos: i64, delta: i64) -> (r: i64)
    requires
        in_world(pos as int),
        in_world(delta as int),
    ensures
        r == clamp_to_world(pos + delta),
        in_world(r as int),
{
    let s = pos + delta;
    if s < -POS_LIMIT {
        -POS_LIMIT
    } else if s > POS_LIMIT {
        POS_LIMIT
    } else {
        s
    }
}

pub open spec fn dist_sq(x1: int, y1: int, x2: int, y2: int) -> int {
    (x2 - x1) * (x2 - x1) + (y2 - y1) * (y2 - y1)
}

/// The Euclidean distance from `(x1, y1)` to `(x2, y2)` is at most `radius`.
pub open spec fn within(x1: int, y1: int, x2: int, y2: int, radius: int) -> bool {
    radius >= 0 && dist_sq(x1, y1, x2, y2) <= radius * radius
}

pub open spec fn coord_ok(p: int) -> bool {
    -8 * POS_LIMIT <= p <= 8 * POS_LIMIT
}

/// Whether the point `(x1, y1)` lies within `radius` of `(x2, y2)`, compared
/// exactly on squared distances.
pub fn within_distance(x1: i64, y1: i64, x2: i64, y2: i64, radius: i64) -> (r: bool)
    requires
        coord_ok(x1 as int),
        coord_ok(y1 as int),
        coord_ok(x2 as int),
        coord_ok(y2 as int),
        coord_ok(radius as int),
    ensures
        r == within(x1 as int, y1 as int, x2 as int, y2 as int, radius as int),
{
    if radius < 0 {
        return false;
    }
    let dx: i128 = x2 as i128 - x1 as i128;
    let dy: i128 = y2 as i128 - y1 as i128;
    let rr: i128 = radius as i128;
    assert(dx * dx <= 0x100_0000_0000_0000_0000_0000_0000) by (nonlinear_arith)
        requires
            -0x10_0000_0000_0000 <= dx <= 0x10_0000_0000_0000,
    ;
    assert(dy * dy <= 0x100_0000_0000_0000_0000_0000_0000) by (nonlinear_arith)
        requires
            -0x10_0000_0000_0000 <= dy <= 0x10_0000_0000_0000,
    ;
    assert(0 <= dx * dx && 0 <= dy * dy) by (nonlinear_arith);
    assert(rr * rr <= 0x100_0000_0000_0000_0000_0000_0000) by (nonlinear_arith)
        requires
            0 <= rr <= 0x10_0000_0000_0000,
    ;
    dx * dx + dy * dy <= rr * rr
}

/// `k` reference pixels in units on a window `window_width` pixels wide.
pub fn scaled(k: i64, window_width: u32) -> (r: i64)
    requires
        -2000 <= k <= 2000,
    ensures
        r == k * window_width,
        -2000 * 0x1_0000_0000 <= r <= 2000 * 0x1_0000_0000,
{
    let w = window_width as i64;
    assert(-2000 * 0x1_0000_0000 <= k * w <= 2000 * 0x1_0000_0000) by (nonlinear_arith)
        requires
            -2000 <= k <= 2000,
            0 <= w < 0x1_0000_0000,
    ;
    k * w
}
} // verus!
