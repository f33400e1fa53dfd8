//! The whole game: both paddles, the ball and the score, and the step that
//! carries them from one frame to the next.

use vstd::prelude::*;
use crate::ball::{Ball, Side};
use crate::court::Court;
use crate::paddle::{spec_target_velocity, target_velocity, Paddle};
use crate::serve::{serve, serve_with, spec_heads};
use crate::units::{div_toward_zero, PADDLE_HEIGHT};

verus! {

/// The points of the two players.
#[derive(Clone, Copy, Debug, PartialEq, Eq, Structural)]
pub struct Score {
    pub left: u32,
    pub right: u32,
}

/// What the players do in one frame, and how long the frame before it took.
/// The keys that move a paddle count while they are held, the other two in
/// the frame in which they go down.
#[derive(Clone, Copy, Debug, PartialEq, Eq, Structural)]
pub struct Input {
    pub dt_ms: u32,
    pub left_up: bool,
    pub left_down: bool,
    pub right_up: bool,
    pub right_down: bool,
    pub serve: bool,
    pub toggle_fps: bool,
}

/// Everything that changes while the game runs.
#[derive(Clone, Copy, Debug, PartialEq, Eq, Structural)]
pub struct Game {
    pub left: Paddle,
    pub right: Paddle,
    pub ball: Ball,
    pub score: Score,
    pub show_fps: bool,
    pub fps: i32,
}

/// The player who wins the point with the ball where it is: the right one
/// where the ball has left the field to the left, the left one where it has
/// left to the right.
pub open spec fn spec_point_winner(ball: Ball, court: Court) -> Option<Side> {
    if ball.x < 0 {
        Some(Side::Right)
    } else if ball.x > court.width {
        Some(Side::Left)
    } else {
        None
    }
}

/// The frame rate shown after a new measurement: two parts of what was shown
/// and one part of what was measured, rounded toward zero.
pub open spec fn spec_smooth_fps(shown: i32, measured: i32) -> int {
    div_toward_zero(shown * 2 + measured, 3)
}

/// The player who wins the point with the ball where it is.
pub fn point_winner(ball: &Ball, court: &Court) -> (winner: Option<Side>)
    ensures
        winner == spec_point_winner(*ball, *court),
{
    if ball.x < 0 {
        Some(Side::Right)
    } else if ball.x > court.width as i64 {
        Some(Side::Left)
    } else {
        None
    }
}

/// The frame rate shown after a new measurement.
pub fn smooth_fps(shown: i32, measured: i32) -> (fps: i32)
    ensures
        fps == spec_smooth_fps(shown, measured),
{
    let sum: i64 = shown as i64 * 2 + measured as i64;
    let third: i64 = sum / 3;
    third as i32
}

impl Score {
    /// The score with one more point for the player of `side`. A count that
    /// has reached the largest number it can hold stays there.
    pub open spec fn spec_award(self, side: Side) -> Score {
        match side {
            Side::Left => Score {
                left: if self.left < u32::MAX {
                    (self.left + 1) as u32
                } else {
                    self.left
                },
                ..self
            },
            Side::Right => Score {
                right: if self.right < u32::MAX {
                    (self.right + 1) as u32
                } else {
                    self.right
                },
                ..self
            },
        }
    }

    /// Gives the player of `side` one more point.
    pub fn award(&mut self, side: Side)
        ensures
            *final(self) == old(self).spec_award(side),
    {
        match side {
            Side::Left => {
                if self.left < u32::MAX {
                    self.left = self.left + 1;
                }
            },
            Side::Right => {
                if self.right < u32::MAX {
                    self.right = self.right + 1;
                }
            },
        }
    }
}

impl Game {
    /// Whether both paddles lie wholly on the field.
    pub open spec fn paddles_on_court(self, court: Court) -> bool {
        &&& 0 <= self.left.position <= court.height - PADDLE_HEIGHT
        &&& 0 <= self.right.position <= court.height - PADDLE_HEIGHT
    }

    /// The game before the first frame: both paddles and the ball at rest in
    /// the middle, no points, the frame rate hidden.
    pub open spec fn spec_new(court: Court, fps: i32) -> Game {
        Game {
            left: Paddle::spec_centered(court),
            right: Paddle::spec_centered(court),
            ball: Ball::spec_resting(court),
            score: Score { left: 0, right: 0 },
            show_fps: false,
            fps,
        }
    }

    /// The game with the ball served in the given directions.
    pub open spec fn spec_serve(self, court: Court, rightward: bool, downward: bool) -> Game {
        Game { ball: Ball::spec_served(court, rightward, downward), ..self }
    }

    /// The game after the point that the ball's place decides: the winner has
    /// one more point and the ball rests in the middle. Where the ball is on
    /// the field nothing changes.
    pub open spec fn spec_settle_point(self, court: Court) -> Game {
        match spec_point_winner(self.ball, court) {
            Some(side) => Game {
                ball: Ball::spec_resting(court),
                score: self.score.spec_award(side),
                ..self
            },
            None => self,
        }
    }

    /// The game after both paddles moved as their keys ask.
    pub open spec fn spec_move_paddles(self, court: Court, input: Input) -> Game {
        Game {
            left: self.left.spec_advance(
                spec_target_velocity(input.left_up, input.left_down, input.dt_ms) as i64,
                court,
            ),
            right: self.right.spec_advance(
                spec_target_velocity(input.right_up, input.right_down, input.dt_ms) as i64,
                court,
            ),
            ..self
        }
    }

    /// The game after the ball flew for the length of the frame and came back
    /// from a wall and from a paddle where it met one.
    pub open spec fn spec_move_ball(self, court: Court, dt_ms: u32) -> Game {
        Game {
            ball: self.ball.spec_integrate(dt_ms).spec_reflect_walls(court).spec_return_faster(
                court,
                self.left,
                self.right,
            ),
            ..self
        }
    }

    /// The game after one frame in which nobody serves: the display of the
    /// frame rate is switched, a point is settled, the paddles move, and then
    /// the ball moves against the paddles where they now are.
    pub open spec fn spec_frame(self, court: Court, input: Input) -> Game {
        Game { show_fps: self.show_fps != input.toggle_fps, ..self }.spec_settle_point(
            court,
        ).spec_move_paddles(court, input).spec_move_ball(court, input.dt_ms)
    }

    /// The game after one frame. A serve, if the input asks for one, comes
    /// first and goes in the given directions.
    pub open spec fn spec_step(
        self,
        court: Court,
        input: Input,
        rightward: bool,
        downward: bool,
    ) -> Game {
        if input.serve {
            self.spec_serve(court, rightward, downward).spec_frame(court, input)
        } else {
            self.spec_frame(court, input)
        }
    }

    /// The game before the first frame. `fps` is the frame rate to show until
    /// more are measured.
    pub fn new(court: &Court, fps: i32) -> (game: Game)
        ensures
            game == Game::spec_new(*court, fps),
            court.height >= PADDLE_HEIGHT ==> game.paddles_on_court(*court),
    {
        Game {
            left: Paddle::centered(court),
            right: Paddle::centered(court),
            ball: Ball::resting(court),
            score: Score { left: 0, right: 0 },
            show_fps: false,
            fps,
        }
    }

    /// Settles the point that the ball's place decides, and says who won it.
    /// The winner has exactly one more point, unless the count is full, and
    /// the ball then rests in the middle.
    pub fn settle_point(&mut self, court: &Court) -> (winner: Option<Side>)
        ensures
            winner == spec_point_winner(old(self).ball, *court),
            *final(self) == old(self).spec_settle_point(*court),
            winner == Some(Side::Right) && old(self).score.right < u32::MAX
                ==> final(self).score.right == old(self).score.right + 1,
            winner == Some(Side::Left) && old(self).score.left < u32::MAX
                ==> final(self).score.left == old(self).score.left + 1,
            winner is Some ==> final(self).ball == Ball::spec_resting(*court),
    {
        let winner = point_winner(&self.ball, court);
        match winner {
            Some(side) => {
                self.score.award(side);
                self.ball = Ball::resting(court);
            },
            None => {},
        }
        winner
    }

    /// Moves both paddles as their keys ask. On a field that is at least as
    /// high as a paddle both then lie wholly on it, wherever they were.
    pub fn move_paddles(&mut self, court: &Court, input: &Input)
        ensures
            *final(self) == old(self).spec_move_paddles(*court, *input),
            court.height >= PADDLE_HEIGHT ==> final(self).paddles_on_court(*court),
    {
        let left_target: i64 = target_velocity(input.left_up, input.left_down, input.dt_ms);
        let right_target: i64 = target_velocity(input.right_up, input.right_down, input.dt_ms);
        self.left.advance(left_target, court);
        self.right.advance(right_target, court);
    }

    /// Lets the ball fly for `dt_ms` milliseconds and brings it back from a
    /// wall and from a paddle where it meets one.
    pub fn move_ball(&mut self, court: &Court, dt_ms: u32)
        ensures
            *final(self) == old(self).spec_move_ball(*court, dt_ms),
    {
        self.ball.integrate(dt_ms);
        self.ball.reflect_walls(court);
        self.ball.return_faster(court, &self.left, &self.right);
    }

    /// Carries the game through one frame in which nobody serves.
    pub fn frame(&mut self, court: &Court, input: &Input)
        ensures
            *final(self) == old(self).spec_frame(*court, *input),
            court.height >= PADDLE_HEIGHT ==> final(self).paddles_on_court(*court),
    {
        if input.toggle_fps {
            self.show_fps = !self.show_fps;
        }
        self.settle_point(court);
        self.move_paddles(court, input);
        self.move_ball(court, input.dt_ms);
    }

    /// Carries the game through one frame. A serve, if the input asks for one,
    /// goes in the directions that the two words stand for.
    pub fn step_with(&mut self, court: &Court, input: &Input, word_x: u32, word_y: u32)
        ensures
            *final(self) == old(self).spec_step(
                *court,
                *input,
                spec_heads(word_x),
                spec_heads(word_y),
            ),
            court.height >= PADDLE_HEIGHT ==> final(self).paddles_on_court(*court),
    {
        if input.serve {
            serve_with(&mut self.ball, court, word_x, word_y);
        }
        self.frame(court, input);
    }

    /// Carries the game through one frame. A serve, if the input asks for one,
    /// goes in a direction drawn from the pseudo-random generator; without a
    /// serve nothing is drawn and the frame is fully determined.
    pub fn step(&mut self, court: &Court, input: &Input)
        ensures
            !input.serve ==> *final(self) == old(self).spec_frame(*court, *input),
            exists|rightward: bool, downward: bool|
                *final(self) == old(self).spec_step(*court, *input, rightward, downward),
            court.height >= PADDLE_HEIGHT ==> final(self).paddles_on_court(*court),
    {
        if input.serve {
            serve(&mut self.ball, court);
        }
        proof {
            if input.serve {
                let (rightward, downward) = choose|rightward: bool, downward: bool|
                    self.ball == Ball::spec_served(*court, rightward, downward);
                assert(*self == old(self).spec_serve(*court, rightward, downward));
                assert(self.spec_frame(*court, *input) == old(self).spec_step(
                    *court,
                    *input,
                    rightward,
                    downward,
                ));
            } else {
                assert(self.spec_frame(*court, *input) == old(self).spec_step(
                    *court,
                    *input,
                    true,
                    true,
                ));
            }
        }
        self.frame(court, input);
    }

    /// Takes a new measurement of the frame rate into the one that is shown.
    pub fn record_fps(&mut self, measured: i32)
        ensures
            *final(self) == (Game {
                fps: spec_smooth_fps(old(self).fps, measured) as i32,
                ..*old(self)
            }),
    {
        self.fps = smooth_fps(self.fps, measured);
    }
}

} // verus!
