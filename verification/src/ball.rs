//! The ball: how it flies, and how it comes back from walls and paddles.

use vstd::prelude::*;
use crate::court::Court;
use crate::paddle::Paddle;
use crate::units::{
    narrow, saturate, signum, BALL_ACCELERATION, BALL_MOVE_SPEED, BALL_RADIUS, PADDLE_HEIGHT,
    PADDLE_WALL_OFFSET, PADDLE_WIDTH,
};

verus! {

/// One of the two walls that the ball comes back from.
#[derive(Clone, Copy, Debug, PartialEq, Eq, Structural)]
pub enum Wall {
    Top,
    Bottom,
}

/// One of the two sides of the field, each guarded by a paddle.
#[derive(Clone, Copy, Debug, PartialEq, Eq, Structural)]
pub enum Side {
    Left,
    Right,
}

/// The ball: its middle, and its velocity in pixels per second.
#[derive(Clone, Copy, Debug, PartialEq, Eq, Structural)]
pub struct Ball {
    pub x: i64,
    pub y: i64,
    pub vx: i64,
    pub vy: i64,
}

/// The `x` at which the ball touches the face of the left paddle.
pub open spec fn spec_left_contact() -> int {
    PADDLE_WALL_OFFSET + PADDLE_WIDTH + BALL_RADIUS
}

/// The `x` at which the ball touches the face of the right paddle.
pub open spec fn spec_right_contact(court: Court) -> int {
    court.width - (PADDLE_WALL_OFFSET + PADDLE_WIDTH + BALL_RADIUS)
}

/// A velocity turned round.
pub open spec fn spec_reversed(v: i64) -> i64 {
    saturate(-v)
}

/// A velocity made faster by the fixed step, in the direction it has; a
/// velocity of zero stays zero.
pub open spec fn spec_hastened(v: i64) -> i64 {
    saturate(v + BALL_ACCELERATION * signum(v as int))
}

/// A velocity turned round.
pub fn reversed(v: i64) -> (r: i64)
    ensures
        r == spec_reversed(v),
{
    narrow(-(v as i128))
}

/// A velocity made faster by the fixed step, in the direction it has.
pub fn hastened(v: i64) -> (r: i64)
    ensures
        r == spec_hastened(v),
{
    if v > 0 {
        narrow(v as i128 + BALL_ACCELERATION as i128)
    } else if v < 0 {
        narrow(v as i128 - BALL_ACCELERATION as i128)
    } else {
        0
    }
}

impl Ball {
    /// The ball at rest in the middle of the field.
    pub open spec fn spec_resting(court: Court) -> Ball {
        Ball { x: court.spec_center_x() as i64, y: court.spec_center_y() as i64, vx: 0, vy: 0 }
    }

    /// The ball leaving the middle of the field at serving speed along both
    /// axes, to the right or to the left and downward or upward.
    pub open spec fn spec_served(court: Court, rightward: bool, downward: bool) -> Ball {
        Ball {
            x: court.spec_center_x() as i64,
            y: court.spec_center_y() as i64,
            vx: if rightward {
                BALL_MOVE_SPEED
            } else {
                (-BALL_MOVE_SPEED) as i64
            },
            vy: if downward {
                BALL_MOVE_SPEED
            } else {
                (-BALL_MOVE_SPEED) as i64
            },
        }
    }

    /// The ball after `dt_ms` milliseconds of free flight.
    pub open spec fn spec_integrate(self, dt_ms: u32) -> Ball {
        Ball {
            x: saturate(self.x + self.vx * dt_ms),
            y: saturate(self.y + self.vy * dt_ms),
            vx: self.vx,
            vy: self.vy,
        }
    }

    /// The wall that the ball has crossed, if any: the top where its upper
    /// edge is above the field, else the bottom where its lower edge is below.
    pub open spec fn spec_wall_hit(self, court: Court) -> Option<Wall> {
        if self.y - BALL_RADIUS < 0 {
            Some(Wall::Top)
        } else if self.y + BALL_RADIUS > court.height {
            Some(Wall::Bottom)
        } else {
            None
        }
    }

    /// The ball come back from the wall it has crossed: it touches that wall
    /// from inside and its vertical velocity is turned round.
    pub open spec fn spec_reflect_walls(self, court: Court) -> Ball {
        match self.spec_wall_hit(court) {
            Some(Wall::Top) => Ball { y: BALL_RADIUS, vy: spec_reversed(self.vy), ..self },
            Some(Wall::Bottom) => Ball {
                y: (court.height - BALL_RADIUS) as i64,
                vy: spec_reversed(self.vy),
                ..self
            },
            None => self,
        }
    }

    /// Whether the box round the ball overlaps the left paddle.
    pub open spec fn spec_overlaps_left(self, left: Paddle) -> bool {
        &&& self.x - BALL_RADIUS < PADDLE_WALL_OFFSET + PADDLE_WIDTH
        &&& self.x + BALL_RADIUS > PADDLE_WALL_OFFSET
        &&& self.y > left.position
        &&& self.y < left.position + PADDLE_HEIGHT
    }

    /// Whether the box round the ball overlaps the right paddle.
    pub open spec fn spec_overlaps_right(self, court: Court, right: Paddle) -> bool {
        &&& self.x + BALL_RADIUS > court.width - PADDLE_WALL_OFFSET - PADDLE_WIDTH
        &&& self.x - BALL_RADIUS < court.width - PADDLE_WALL_OFFSET
        &&& self.y > right.position
        &&& self.y < right.position + PADDLE_HEIGHT
    }

    /// The side whose paddle the ball has met, if any. The left paddle is
    /// asked first, so one frame never counts a hit on both.
    pub open spec fn spec_paddle_hit(self, court: Court, left: Paddle, right: Paddle) -> Option<
        Side,
    > {
        if self.spec_overlaps_left(left) {
            Some(Side::Left)
        } else if self.spec_overlaps_right(court, right) {
            Some(Side::Right)
        } else {
            None
        }
    }

    /// The ball sent back by the paddle of `side`: it touches the face of that
    /// paddle and its horizontal velocity is turned round.
    pub open spec fn spec_bounce(self, court: Court, side: Side) -> Ball {
        match side {
            Side::Left => Ball {
                x: spec_left_contact() as i64,
                vx: spec_reversed(self.vx),
                ..self
            },
            Side::Right => Ball {
                x: spec_right_contact(court) as i64,
                vx: spec_reversed(self.vx),
                ..self
            },
        }
    }

    /// The ball made faster along both axes.
    pub open spec fn spec_accelerate(self) -> Ball {
        Ball { vx: spec_hastened(self.vx), vy: spec_hastened(self.vy), ..self }
    }

    /// The ball after the paddles had their say: sent back by the one it has
    /// met, unchanged where it has met none.
    pub open spec fn spec_reflect_paddles(self, court: Court, left: Paddle, right: Paddle) -> Ball {
        match self.spec_paddle_hit(court, left, right) {
            Some(side) => self.spec_bounce(court, side),
            None => self,
        }
    }

    /// As `spec_reflect_paddles`, and a ball that was sent back is made faster.
    pub open spec fn spec_return_faster(self, court: Court, left: Paddle, right: Paddle) -> Ball {
        match self.spec_paddle_hit(court, left, right) {
            Some(side) => self.spec_bounce(court, side).spec_accelerate(),
            None => self,
        }
    }

    /// The ball at rest in the middle of the field.
    pub fn resting(court: &Court) -> (ball: Ball)
        ensures
            ball == Ball::spec_resting(*court),
    {
        Ball { x: court.center_x(), y: court.center_y(), vx: 0, vy: 0 }
    }

    /// The ball leaving the middle of the field at serving speed.
    pub fn served(court: &Court, rightward: bool, downward: bool) -> (ball: Ball)
        ensures
            ball == Ball::spec_served(*court, rightward, downward),
    {
        let vx: i64 = if rightward {
            BALL_MOVE_SPEED
        } else {
            -BALL_MOVE_SPEED
        };
        let vy: i64 = if downward {
            BALL_MOVE_SPEED
        } else {
            -BALL_MOVE_SPEED
        };
        Ball { x: court.center_x(), y: court.center_y(), vx, vy }
    }

    /// Lets the ball fly freely for `dt_ms` milliseconds.
    pub fn integrate(&mut self, dt_ms: u32)
        ensures
            *final(self) == old(self).spec_integrate(dt_ms),
    {
        self.x = travel(self.x, self.vx, dt_ms);
        self.y = travel(self.y, self.vy, dt_ms);
    }

    /// The wall that the ball has crossed, if any.
    pub fn wall_hit(&self, court: &Court) -> (hit: Option<Wall>)
        ensures
            hit == self.spec_wall_hit(*court),
    {
        if self.y < BALL_RADIUS {
            Some(Wall::Top)
        } else if self.y as i128 + BALL_RADIUS as i128 > court.height as i128 {
            Some(Wall::Bottom)
        } else {
            None
        }
    }

    /// Brings the ball back from the wall it has crossed, and says which wall
    /// that was. After a reflection the ball's edge lies on that wall.
    pub fn reflect_walls(&mut self, court: &Court) -> (hit: Option<Wall>)
        ensures
            hit == old(self).spec_wall_hit(*court),
            *final(self) == old(self).spec_reflect_walls(*court),
            hit == Some(Wall::Top) ==> final(self).y - BALL_RADIUS == 0,
            hit == Some(Wall::Bottom) ==> final(self).y + BALL_RADIUS == court.height,
            hit is Some ==> signum(final(self).vy as int) == -signum(old(self).vy as int),
    {
        let hit = self.wall_hit(court);
        match hit {
            Some(Wall::Top) => {
                self.vy = reversed(self.vy);
                self.y = BALL_RADIUS;
            },
            Some(Wall::Bottom) => {
                self.vy = reversed(self.vy);
                self.y = court.height as i64 - BALL_RADIUS;
            },
            None => {},
        }
        hit
    }

    /// The side whose paddle the ball has met, if any.
    pub fn paddle_hit(&self, court: &Court, left: &Paddle, right: &Paddle) -> (hit: Option<Side>)
        ensures
            hit == self.spec_paddle_hit(*court, *left, *right),
    {
        let x: i128 = self.x as i128;
        let y: i128 = self.y as i128;
        let radius: i128 = BALL_RADIUS as i128;
        let near: i128 = PADDLE_WALL_OFFSET as i128;
        let far: i128 = near + PADDLE_WIDTH as i128;
        let width: i128 = court.width as i128;
        let left_top: i128 = left.position as i128;
        let right_top: i128 = right.position as i128;
        let height: i128 = PADDLE_HEIGHT as i128;
        if x - radius < far && x + radius > near && y > left_top && y < left_top + height {
            Some(Side::Left)
        } else if x + radius > width - far && x - radius < width - near && y > right_top && y
            < right_top + height {
            Some(Side::Right)
        } else {
            None
        }
    }

    /// Sends the ball back from the paddle of `side`.
    pub fn bounce(&mut self, court: &Court, side: Side)
        ensures
            *final(self) == old(self).spec_bounce(*court, side),
    {
        self.vx = reversed(self.vx);
        match side {
            Side::Left => {
                self.x = PADDLE_WALL_OFFSET + PADDLE_WIDTH + BALL_RADIUS;
            },
            Side::Right => {
                self.x = court.width as i64 - (PADDLE_WALL_OFFSET + PADDLE_WIDTH + BALL_RADIUS);
            },
        }
    }

    /// Makes the ball faster along both axes.
    pub fn accelerate(&mut self)
        ensures
            *final(self) == old(self).spec_accelerate(),
    {
        self.vx = hastened(self.vx);
        self.vy = hastened(self.vy);
    }

    /// Sends the ball back from the paddle it has met, and says on which side
    /// that was. A ball that was sent back touches the face of that paddle and
    /// flies the other way.
    pub fn reflect_paddles(&mut self, court: &Court, left: &Paddle, right: &Paddle) -> (hit:
        Option<Side>)
        ensures
            hit == old(self).spec_paddle_hit(*court, *left, *right),
            *final(self) == old(self).spec_reflect_paddles(*court, *left, *right),
            hit == Some(Side::Left) ==> final(self).x == spec_left_contact(),
            hit == Some(Side::Right) ==> final(self).x == spec_right_contact(*court),
            hit is Some ==> signum(final(self).vx as int) == -signum(old(self).vx as int),
    {
        let hit = self.paddle_hit(court, left, right);
        match hit {
            Some(side) => {
                self.bounce(court, side);
            },
            None => {},
        }
        hit
    }

    /// Sends the ball back from the paddle it has met and makes it faster, and
    /// says on which side that was. A ball that was sent back touches the face
    /// of that paddle and flies the other way.
    pub fn return_faster(&mut self, court: &Court, left: &Paddle, right: &Paddle) -> (hit:
        Option<Side>)
        ensures
            hit == old(self).spec_paddle_hit(*court, *left, *right),
            *final(self) == old(self).spec_return_faster(*court, *left, *right),
            hit == Some(Side::Left) ==> final(self).x == spec_left_contact(),
            hit == Some(Side::Right) ==> final(self).x == spec_right_contact(*court),
            hit is Some ==> signum(final(self).vx as int) == -signum(old(self).vx as int),
    {
        let hit = self.reflect_paddles(court, left, right);
        if hit.is_some() {
            self.accelerate();
        }
        hit
    }
}

/// Where a point that starts at `from` is after `dt_ms` milliseconds at
/// `velocity` pixels per second.
pub fn travel(from: i64, velocity: i64, dt_ms: u32) -> (to: i64)
    ensures
        to == saturate(from + velocity * dt_ms),
{
    let v: i128 = velocity as i128;
    let t: i128 = dt_ms as i128;
    assert(-0x8000_0000_0000_0000_0000_0000 <= v * t <= 0x8000_0000_0000_0000_0000_0000)
        by (nonlinear_arith)
        requires
            -0x8000_0000_0000_0000 <= v <= 0x8000_0000_0000_0000,
            0 <= t <= 0x1_0000_0000,
    ;
    narrow(from as i128 + v * t)
}

} // verus!
