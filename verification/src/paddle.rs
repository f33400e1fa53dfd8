//! A paddle: where it is, how fast it moves, and how it is kept on the field.

use vstd::prelude::*;
use crate::court::Court;
use crate::units::{average, div_toward_zero, narrow, PADDLE_HEIGHT, PADDLE_MOVE_SPEED};

verus! {

/// One paddle. `position` is the `y` of its upper edge; `velocity` is the
/// distance it moved in the last frame, downward if positive.
#[derive(Clone, Copy, Debug, PartialEq, Eq, Structural)]
pub struct Paddle {
    pub position: i64,
    pub velocity: i64,
}

/// The distance a paddle is asked to move in a frame of `dt_ms` milliseconds:
/// upward while `up` is held, else downward while `down` is held, else not at all.
pub open spec fn spec_target_velocity(up: bool, down: bool, dt_ms: u32) -> int {
    if up {
        -PADDLE_MOVE_SPEED * dt_ms
    } else if down {
        PADDLE_MOVE_SPEED * dt_ms
    } else {
        0
    }
}

/// Where a paddle that would be at `position` is put on a field of the given
/// height: at the top if it starts above the field, else at the lowest place
/// that shows the whole paddle if it ends below the field, else where it is.
pub open spec fn spec_clamp_paddle(position: int, height: int) -> int {
    if position < 0 {
        0
    } else if position + PADDLE_HEIGHT > height {
        height - PADDLE_HEIGHT
    } else {
        position
    }
}

/// The distance a paddle is asked to move in a frame of `dt_ms` milliseconds.
pub fn target_velocity(up: bool, down: bool, dt_ms: u32) -> (target: i64)
    ensures
        target == spec_target_velocity(up, down, dt_ms),
{
    let reach: i64 = PADDLE_MOVE_SPEED * (dt_ms as i64);
    if up {
        -reach
    } else if down {
        reach
    } else {
        0
    }
}

/// Keeps a paddle on the field. On a field that is at least as high as a
/// paddle the result lies between the top and the lowest place that still
/// shows the whole paddle.
pub fn clamp_paddle(position: i64, court: &Court) -> (clamped: i64)
    ensures
        clamped == spec_clamp_paddle(position as int, court.height as int),
        court.height >= PADDLE_HEIGHT ==> 0 <= clamped <= court.height - PADDLE_HEIGHT,
{
    let lowest: i64 = court.height as i64 - PADDLE_HEIGHT;
    if position < 0 {
        0
    } else if position > lowest {
        lowest
    } else {
        position
    }
}

impl Paddle {
    /// A resting paddle in the middle of its side of the field.
    pub open spec fn spec_centered(court: Court) -> Paddle {
        Paddle { position: (court.spec_center_y() - PADDLE_HEIGHT / 2) as i64, velocity: 0 }
    }

    /// The paddle after one frame in which it was asked to move by `target`:
    /// it moves by the mean of that and of what it moved in the frame before,
    /// rounded toward zero, and is then kept on the field.
    pub open spec fn spec_advance(self, target: i64, court: Court) -> Paddle {
        let velocity = div_toward_zero(self.velocity + target, 2);
        Paddle {
            position: spec_clamp_paddle(self.position + velocity, court.height as int) as i64,
            velocity: velocity as i64,
        }
    }

    /// A resting paddle in the middle of its side of the field.
    pub fn centered(court: &Court) -> (paddle: Paddle)
        ensures
            paddle == Paddle::spec_centered(*court),
    {
        Paddle { position: court.center_y() - PADDLE_HEIGHT / 2, velocity: 0 }
    }

    /// Moves the paddle through one frame in which it was asked to move by `target`.
    pub fn advance(&mut self, target: i64, court: &Court)
        ensures
            *final(self) == old(self).spec_advance(target, *court),
            court.height >= PADDLE_HEIGHT ==> 0 <= final(self).position <= court.height
                - PADDLE_HEIGHT,
    {
        let velocity: i64 = average(self.velocity, target);
        let moved: i64 = narrow(self.position as i128 + velocity as i128);
        self.position = clamp_paddle(moved, court);
        self.velocity = velocity;
    }
}

} // verus!
