//! Random draws for the level generator.

use rand::Rng;
use vstd::prelude::*;

verus! {

/// Relies on `rand::Rng::gen_range` on the thread-local generator
/// (`rand::thread_rng`): for `lo < hi` it returns some value in `[lo, hi)`,
/// and it panics on an empty range.
#[verifier::external_body]
fn random_in(lo: i64, hi: i64) -> (r: i64)
    requires
        lo < hi,
    ensures
        lo <= r < hi,
{
    rand::thread_rng().gen_range(lo..hi)
}

/// `r` is a possible draw from `[lo, hi)`; an empty range yields `lo`.
pub open spec fn drawn(lo: int, hi: int, r: int) -> bool {
    if lo < hi {
        lo <= r < hi
    } else {
        r == lo
    }
}

/// A random value in `[lo, hi)`, or `lo` itself where that range is empty.
pub fn draw_between(lo: i64, hi: i64) -> (r: i64)
    ensures
        drawn(lo as int, hi as int, r as int),
{
    if lo < hi {
        random_in(lo, hi)
    } else {
        lo
    }
}

} // verus!
