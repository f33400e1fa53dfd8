//! The serve: the ball leaves the middle of the field in a direction that a
//! pseudo-random generator picks.

use vstd::prelude::*;
use crate::ball::Ball;
use crate::court::Court;
use crate::units::BALL_MOVE_SPEED;

verus! {

/// The next word of macroquad's global pseudo-random generator, as its
/// `rand::rand` returns it. Nothing is claimed of the word: any `u32` may come.
#[verifier::external_body]
fn random_word() -> (word: u32) {
    macroquad::rand::rand()
}

/// The direction that a random word stands for: the upper half of the words
/// means the positive direction of an axis, the lower half the negative one.
pub open spec fn spec_heads(word: u32) -> bool {
    word >= 0x8000_0000
}

/// The direction that a random word stands for.
pub fn heads(word: u32) -> (positive: bool)
    ensures
        positive == spec_heads(word),
{
    word >= 0x8000_0000
}

/// Serves the ball in the directions that the two words stand for, the first
/// for the horizontal axis and the second for the vertical one. Where the ball
/// was and how it moved has no part in the result.
pub fn serve_with(ball: &mut Ball, court: &Court, word_x: u32, word_y: u32)
    ensures
        *final(ball) == Ball::spec_served(*court, spec_heads(word_x), spec_heads(word_y)),
{
    *ball = Ball::served(court, heads(word_x), heads(word_y));
}

/// Serves the ball in a direction drawn from the pseudo-random generator.
/// Whatever is drawn, the ball is in the middle of the field and has serving
/// speed along both axes.
pub fn serve(ball: &mut Ball, court: &Court)
    ensures
        exists|rightward: bool, downward: bool|
            *final(ball) == Ball::spec_served(*court, rightward, downward),
        final(ball).x == court.spec_center_x(),
        final(ball).y == court.spec_center_y(),
        final(ball).vx == BALL_MOVE_SPEED || final(ball).vx == -BALL_MOVE_SPEED,
        final(ball).vy == BALL_MOVE_SPEED || final(ball).vy == -BALL_MOVE_SPEED,
{
    let word_x: u32 = random_word();
    let word_y: u32 = random_word();
    serve_with(ball, court, word_x, word_y);
}

} // verus!
