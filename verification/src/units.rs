//! Units and fixed dimensions of the game.
//!
//! Lengths are counted in millionths of a pixel and durations in microseconds,
//! so a speed in pixels per second is the same number in length units per
//! microsecond, and a displacement is the plain product of speed and duration.

use vstd::prelude::*;

verus! {

/// Length units in one pixel.
pub const PIXEL: i64 = 1_000_000;

/// Largest magnitude of a coordinate and largest extent of a screen.
pub const MAX_COORD: i64 = 1_000_000_000_000_000;

/// Gap between a racket and the nearer side of the screen.
pub const PADDING: i64 = 40 * PIXEL;

/// Height of a racket.
pub const RACKET_HEIGHT: i64 = 100 * PIXEL;

/// Width of a racket.
pub const RACKET_WIDTH: i64 = 20 * PIXEL;

/// Half the width of a racket.
pub const RACKET_WIDTH_HALF: i64 = 10 * PIXEL;

/// Half the height of a racket.
pub const RACKET_HEIGHT_HALF: i64 = 50 * PIXEL;

/// Side of the square ball.
pub const BALL_SIZE: i64 = 30 * PIXEL;

/// Half the side of the ball.
pub const BALL_SIZE_HALF: i64 = 15 * PIXEL;

/// Speed of a racket while one of its keys is held, in pixels per second.
pub const PLAYER_SPEED: i64 = 600;

/// Speed of the ball along each axis, in pixels per second.
pub const BALL_SPEED: i64 = 300;

/// Whether `v` lies within the coordinate range.
pub open spec fn in_range(v: int) -> bool {
    -MAX_COORD <= v <= MAX_COORD
}

/// `v` brought into `lo..=hi`.
pub open spec fn clamped(v: int, lo: int, hi: int) -> int {
    if v < lo {
        lo
    } else if v > hi {
        hi
    } else {
        v
    }
}

/// Whether `v` lies within the coordinate range.
pub fn within_range(v: i64) -> (ok: bool)
    ensures
        ok == in_range(v as int),
{
    -MAX_COORD <= v && v <= MAX_COORD
}

/// Brings `v` into `lo..=hi`.
pub fn clamp(v: i64, lo: i64, hi: i64) -> (r: i64)
    requires
        lo <= hi,
    ensures
        r == clamped(v as int, lo as int, hi as int),
        lo <= r <= hi,
{
    if v < lo {
        lo
    } else if v > hi {
        hi
    } else {
        v
    }
}

/// The absolute value of `v`.
pub fn magnitude(v: i64) -> (r: i64)
    requires
        v > i64::MIN,
    ensures
        r == vstd::math::abs(v as int),
{
    if v < 0 {
        -v
    } else {
        v
    }
}

} // verus!
