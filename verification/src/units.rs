//! Units, the fixed measures of the game, and arithmetic that cannot overflow.
//!
//! Every length is in thousandths of a pixel, and every speed in pixels per
//! second.

use vstd::prelude::*;

verus! {

/// Thousandths of a pixel in one pixel.
pub const PIXEL: i64 = 1000;

/// Height of a paddle.
pub const PADDLE_HEIGHT: i64 = 200_000;

/// Width of a paddle.
pub const PADDLE_WIDTH: i64 = 20_000;

/// Radius of the ball.
pub const BALL_RADIUS: i64 = 17_500;

/// Gap between a side wall and the back of the paddle that guards it.
pub const PADDLE_WALL_OFFSET: i64 = 50_000;

/// Speed of a paddle while its key is held.
pub const PADDLE_MOVE_SPEED: i64 = 600;

/// Speed of the ball along each axis right after a serve.
pub const BALL_MOVE_SPEED: i64 = 500;

/// What a paddle hit adds to the ball's speed along each axis.
pub const BALL_ACCELERATION: i64 = 50;

/// The value of type `i64` that is nearest to `v`.
pub open spec fn saturate(v: int) -> i64 {
    if v < i64::MIN {
        i64::MIN
    } else if v > i64::MAX {
        i64::MAX
    } else {
        v as i64
    }
}

/// `v` divided by `d`, rounded toward zero.
pub open spec fn div_toward_zero(v: int, d: int) -> int
    recommends
        d > 0,
{
    if v >= 0 {
        v / d
    } else {
        -((-v) / d)
    }
}

/// -1, 0 or 1 as `v` is negative, zero or positive.
pub open spec fn signum(v: int) -> int {
    if v < 0 {
        -1
    } else if v == 0 {
        0
    } else {
        1
    }
}

/// Brings a wide intermediate result back into `i64`.
pub fn narrow(v: i128) -> (r: i64)
    ensures
        r == saturate(v as int),
{
    if v < i64::MIN as i128 {
        i64::MIN
    } else if v > i64::MAX as i128 {
        i64::MAX
    } else {
        v as i64
    }
}

/// Half of the sum of two values, rounded toward zero.
pub fn average(a: i64, b: i64) -> (r: i64)
    ensures
        r == div_toward_zero(a + b, 2),
{
    let sum: i128 = a as i128 + b as i128;
    let half: i128 = sum / 2;
    half as i64
}

} // verus!
