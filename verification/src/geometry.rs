//! Points, sizes and ratios, all over integers.

use vstd::prelude::*;

verus! {

/// A position in device pixels.
#[derive(Clone, Copy, Debug, PartialEq, Eq, Structural)]
pub struct Point {
    pub x: i32,
    pub y: i32,
}

/// An extent in device pixels.
#[derive(Clone, Copy, Debug, PartialEq, Eq, Structural)]
pub struct Size {
    pub width: u32,
    pub height: u32,
}

/// The number of scroll units in one device pixel.
pub const UNITS_PER_PIXEL: i64 = 64;

/// A displacement in scroll units, of which `UNITS_PER_PIXEL` make one
/// device pixel, so that movements finer than a pixel are not lost.
#[derive(Clone, Copy, Debug, PartialEq, Eq, Structural)]
pub struct Vector {
    pub x: i64,
    pub y: i64,
}

/// A non-negative ratio `numer / denom`, used for the display density
/// (device pixels per device-independent pixel) and for magnifications.
/// A ratio with a zero denominator stands for no number; the functions that
/// take one say what they do with it.
#[derive(Clone, Copy, Debug, PartialEq, Eq, Structural)]
pub struct Scale {
    pub numer: u32,
    pub denom: u32,
}

/// The distance, in device-independent pixels, below which a button release
/// still counts as a click on the point where the button went down.
pub const CLICK_THRESHOLD: u32 = 10;

/// The square of the Euclidean distance between two points.
pub open spec fn distance_squared(a: Point, b: Point) -> int {
    (a.x - b.x) * (a.x - b.x) + (a.y - b.y) * (a.y - b.y)
}

/// Whether `release` lies strictly closer to `anchor` than the click
/// threshold scaled by `density`.
///
/// The comparison `distance < CLICK_THRESHOLD * numer / denom` is stated
/// with both sides squared and the denominator cleared, so that it is exact
/// over the integers. For a density with a zero denominator this makes
/// every release lie within the distance, unless the numerator is zero as
/// well.
pub open spec fn within_click_distance(anchor: Point, release: Point, density: Scale) -> bool {
    distance_squared(anchor, release) * (density.denom * density.denom) < (CLICK_THRESHOLD
        * density.numer) * (CLICK_THRESHOLD * density.numer)
}

proof fn lemma_square_bound(a: int, bound: int)
    by (nonlinear_arith)
    requires
        0 <= a <= bound,
    ensures
        0 <= a * a <= bound * bound,
{
}

fn abs_difference(a: i32, b: i32) -> (d: u64)
    ensures
        d <= 0xffff_ffff,
        d * d == (a - b) * (a - b),
{
    let wide: i64 = a as i64 - b as i64;
    let d: u64 = if wide < 0 {
        (-wide) as u64
    } else {
        wide as u64
    };
    assert(d * d == (a - b) * (a - b)) by (nonlinear_arith)
        requires
            d == a - b || d == -(a - b),
    ;
    d
}

/// Decides whether a button released at `release` clicks on `anchor`.
pub fn is_click(anchor: Point, release: Point, density: Scale) -> (click: bool)
    ensures
        click == within_click_distance(anchor, release, density),
{
    let dx: u64 = abs_difference(anchor.x, release.x);
    let dy: u64 = abs_difference(anchor.y, release.y);
    proof {
        lemma_square_bound(dx as int, 0xffff_ffff);
        lemma_square_bound(dy as int, 0xffff_ffff);
        lemma_square_bound(density.denom as int, 0xffff_ffff);
        lemma_square_bound(CLICK_THRESHOLD * density.numer, 10 * 0xffff_ffff as int);
    }
    let distance: u128 = (dx as u128) * (dx as u128) + (dy as u128) * (dy as u128);
    let denom: u128 = (density.denom as u128) * (density.denom as u128);
    let reach: u128 = (CLICK_THRESHOLD as u128) * (density.numer as u128);
    let limit: u128 = reach * reach;
    assert(distance == distance_squared(anchor, release));
    match distance.checked_mul(denom) {
        Some(scaled) => scaled < limit,
        None => false,
    }
}

} // verus!
