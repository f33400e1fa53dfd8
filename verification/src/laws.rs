//! What holds of the game whatever the players do, proved from the
//! definitions of the other modules.

use vstd::prelude::*;
use crate::ball::{spec_left_contact, spec_right_contact, Ball, Side, Wall};
use crate::court::Court;
use crate::game::{Game, Input, Score};
use crate::paddle::{spec_clamp_paddle, Paddle};
use crate::units::{
    signum, BALL_MOVE_SPEED, BALL_RADIUS, PADDLE_HEIGHT, PADDLE_WALL_OFFSET, PADDLE_WIDTH,
};

verus! {

/// One frame of a recorded game: what the players did, and the directions in
/// which a serve of that frame went.
pub struct Frame {
    pub input: Input,
    pub rightward: bool,
    pub downward: bool,
}

/// The game after the given frames, played in order from `game`.
pub open spec fn spec_play(game: Game, court: Court, frames: Seq<Frame>) -> Game
    decreases frames.len(),
{
    if frames.len() == 0 {
        game
    } else {
        spec_play(game, court, frames.drop_last()).spec_step(
            court,
            frames.last().input,
            frames.last().rightward,
            frames.last().downward,
        )
    }
}

/// The size of a velocity, whatever its direction.
pub open spec fn spec_speed(v: i64) -> int {
    if v < 0 {
        -v
    } else {
        v as int
    }
}

/// Whether the middle of the field is clear of the walls and of both paddles,
/// so that a ball that rests there touches nothing.
pub open spec fn spec_middle_is_clear(court: Court) -> bool {
    &&& court.height >= 2 * BALL_RADIUS
    &&& court.width >= 2 * (PADDLE_WALL_OFFSET + PADDLE_WIDTH + BALL_RADIUS)
}

/// On a field that is at least as high as a paddle, clamping puts every
/// position between the top of the field and the lowest place at which the
/// whole paddle still shows.
pub proof fn law_clamp_is_on_court(position: int, height: int)
    requires
        height >= PADDLE_HEIGHT,
    ensures
        0 <= spec_clamp_paddle(position, height) <= height - PADDLE_HEIGHT,
{
}

/// A position that is already on the field is left where it is.
pub proof fn law_clamp_keeps_what_is_on_court(position: int, height: int)
    requires
        0 <= position <= height - PADDLE_HEIGHT,
    ensures
        spec_clamp_paddle(position, height) == position,
{
}

/// A paddle moves by something between what it moved in the frame before and
/// what it is asked to move now. While nothing is asked of it, it moves by at
/// most half of what it moved before, so it comes to rest.
pub proof fn law_smoothing_lies_between(paddle: Paddle, target: i64, court: Court)
    ensures
        paddle.velocity <= target ==> paddle.velocity <= paddle.spec_advance(
            target,
            court,
        ).velocity <= target,
        target <= paddle.velocity ==> target <= paddle.spec_advance(target, court).velocity
            <= paddle.velocity,
        target == 0 ==> 2 * spec_speed(paddle.spec_advance(target, court).velocity) <= spec_speed(
            paddle.velocity,
        ),
{
}

/// After one frame on a field that is at least as high as a paddle, both
/// paddles lie wholly on the field, wherever they were before and whatever
/// the players did.
pub proof fn law_paddles_on_court_after_step(
    game: Game,
    court: Court,
    input: Input,
    rightward: bool,
    downward: bool,
)
    requires
        court.height >= PADDLE_HEIGHT,
    ensures
        game.spec_step(court, input, rightward, downward).paddles_on_court(court),
{
}

/// In every frame of every game that starts from the opening position on a
/// field at least as high as a paddle, both paddles lie wholly on the field.
pub proof fn law_paddles_on_court_always(court: Court, fps: i32, frames: Seq<Frame>)
    requires
        court.height >= PADDLE_HEIGHT,
    ensures
        spec_play(Game::spec_new(court, fps), court, frames).paddles_on_court(court),
    decreases frames.len(),
{
    if frames.len() > 0 {
        law_paddles_on_court_after_step(
            spec_play(Game::spec_new(court, fps), court, frames.drop_last()),
            court,
            frames.last().input,
            frames.last().rightward,
            frames.last().downward,
        );
    }
}

/// A ball that has crossed a wall comes back with its edge exactly on that
/// wall and with its vertical velocity pointing the other way; nothing else
/// about it changes.
pub proof fn law_wall_reflection(ball: Ball, court: Court)
    requires
        ball.spec_wall_hit(court) is Some,
    ensures
        ball.spec_wall_hit(court) == Some(Wall::Top) ==> ball.spec_reflect_walls(court).y - 0
            == BALL_RADIUS,
        ball.spec_wall_hit(court) == Some(Wall::Bottom) ==> court.height - ball.spec_reflect_walls(
            court,
        ).y == BALL_RADIUS,
        signum(ball.spec_reflect_walls(court).vy as int) == -signum(ball.vy as int),
        ball.spec_reflect_walls(court).x == ball.x,
        ball.spec_reflect_walls(court).vx == ball.vx,
{
}

/// A ball that has crossed no wall is left as it is.
pub proof fn law_no_wall_no_change(ball: Ball, court: Court)
    requires
        ball.spec_wall_hit(court) is None,
    ensures
        ball.spec_reflect_walls(court) == ball,
{
}

/// On a field that is at least as high as the ball, a ball that came back
/// from a wall is across no wall any more.
pub proof fn law_wall_reflection_settles(ball: Ball, court: Court)
    requires
        court.height >= 2 * BALL_RADIUS,
    ensures
        ball.spec_reflect_walls(court).spec_wall_hit(court) is None,
{
}

/// A ball that has met a paddle comes back touching the face of that paddle,
/// a radius away from it toward the middle, and with its horizontal velocity
/// pointing the other way. Making it faster as well changes neither.
pub proof fn law_paddle_reflection(ball: Ball, court: Court, left: Paddle, right: Paddle)
    requires
        ball.spec_paddle_hit(court, left, right) is Some,
    ensures
        ball.spec_paddle_hit(court, left, right) == Some(Side::Left) ==> ball.spec_reflect_paddles(
            court,
            left,
            right,
        ).x == PADDLE_WALL_OFFSET + PADDLE_WIDTH + BALL_RADIUS,
        ball.spec_paddle_hit(court, left, right) == Some(Side::Right) ==> ball.spec_reflect_paddles(
            court,
            left,
            right,
        ).x == court.width - PADDLE_WALL_OFFSET - PADDLE_WIDTH - BALL_RADIUS,
        signum(ball.spec_reflect_paddles(court, left, right).vx as int) == -signum(ball.vx as int),
        ball.spec_reflect_paddles(court, left, right).y == ball.y,
        ball.spec_reflect_paddles(court, left, right).vy == ball.vy,
        ball.spec_return_faster(court, left, right).x == ball.spec_reflect_paddles(
            court,
            left,
            right,
        ).x,
        ball.spec_return_faster(court, left, right).y == ball.y,
        signum(ball.spec_return_faster(court, left, right).vx as int) == -signum(ball.vx as int),
        signum(ball.spec_return_faster(court, left, right).vy as int) == signum(ball.vy as int),
{
}

/// A ball that overlaps the left paddle is sent back by the left paddle and
/// by no other, even where it overlaps the right paddle too.
pub proof fn law_left_hit_excludes_right(ball: Ball, court: Court, left: Paddle, right: Paddle)
    requires
        ball.spec_overlaps_left(left),
    ensures
        ball.spec_paddle_hit(court, left, right) == Some(Side::Left),
        ball.spec_reflect_paddles(court, left, right) == ball.spec_bounce(court, Side::Left),
        ball.spec_return_faster(court, left, right) == ball.spec_bounce(
            court,
            Side::Left,
        ).spec_accelerate(),
        ball.spec_return_faster(court, left, right).x == spec_left_contact(),
{
}

/// The right paddle sends the ball back only where the left one does not.
pub proof fn law_right_hit_needs_no_left(ball: Ball, court: Court, left: Paddle, right: Paddle)
    ensures
        ball.spec_paddle_hit(court, left, right) == Some(Side::Right) <==> !ball.spec_overlaps_left(
            left,
        ) && ball.spec_overlaps_right(court, right),
        ball.spec_paddle_hit(court, left, right) == Some(Side::Right)
            ==> ball.spec_return_faster(court, left, right).x == spec_right_contact(court),
{
}

/// A ball that a paddle has sent back no longer overlaps that paddle.
pub proof fn law_paddle_reflection_settles(ball: Ball, court: Court, left: Paddle, right: Paddle)
    ensures
        ball.spec_paddle_hit(court, left, right) == Some(Side::Left) ==> !ball.spec_return_faster(
            court,
            left,
            right,
        ).spec_overlaps_left(left),
        ball.spec_paddle_hit(court, left, right) == Some(Side::Right) ==> !ball.spec_return_faster(
            court,
            left,
            right,
        ).spec_overlaps_right(court, right),
{
}

/// A ball to the left of the field gives the right player exactly one more
/// point, leaves the left player's points alone, and puts the ball at rest
/// in the middle. The count must have room for one more point.
pub proof fn law_point_for_right(game: Game, court: Court)
    requires
        game.ball.x < 0,
        game.score.right < u32::MAX,
    ensures
        game.spec_settle_point(court).score.right == game.score.right + 1,
        game.spec_settle_point(court).score.left == game.score.left,
        game.spec_settle_point(court).ball.x == court.width as int / 2,
        game.spec_settle_point(court).ball.y == court.height as int / 2,
        game.spec_settle_point(court).ball.vx == 0,
        game.spec_settle_point(court).ball.vy == 0,
{
}

/// A ball to the right of the field gives the left player exactly one more
/// point, leaves the right player's points alone, and puts the ball at rest
/// in the middle. The count must have room for one more point.
pub proof fn law_point_for_left(game: Game, court: Court)
    requires
        game.ball.x > court.width,
        game.score.left < u32::MAX,
    ensures
        game.spec_settle_point(court).score.left == game.score.left + 1,
        game.spec_settle_point(court).score.right == game.score.right,
        game.spec_settle_point(court).ball.x == court.width as int / 2,
        game.spec_settle_point(court).ball.y == court.height as int / 2,
        game.spec_settle_point(court).ball.vx == 0,
        game.spec_settle_point(court).ball.vy == 0,
{
}

/// While the ball is on the field no point is given and the ball is left
/// alone.
pub proof fn law_no_point_on_court(game: Game, court: Court)
    requires
        0 <= game.ball.x <= court.width,
    ensures
        game.spec_settle_point(court) == game,
{
}

/// Where the middle of the field is clear, a ball that rests there stays
/// there, at rest, through every frame in which nobody serves.
pub proof fn law_resting_ball_waits_for_a_serve(game: Game, court: Court, input: Input)
    requires
        spec_middle_is_clear(court),
        game.ball == Ball::spec_resting(court),
        !input.serve,
    ensures
        game.spec_frame(court, input).ball == Ball::spec_resting(court),
        game.spec_frame(court, input).score == game.score,
{
}

/// Where the middle of the field is clear, a frame that starts with the ball
/// off the field and without a serve ends with the ball at rest in the
/// middle and with exactly one more point for the player on the other side.
pub proof fn law_point_ends_the_rally(game: Game, court: Court, input: Input)
    requires
        spec_middle_is_clear(court),
        game.ball.x < 0 || game.ball.x > court.width,
        game.score.left < u32::MAX,
        game.score.right < u32::MAX,
        !input.serve,
    ensures
        game.spec_frame(court, input).ball == Ball::spec_resting(court),
        game.ball.x < 0 ==> game.spec_frame(court, input).score == (Score {
            right: (game.score.right + 1) as u32,
            ..game.score
        }),
        game.ball.x > court.width ==> game.spec_frame(court, input).score == (Score {
            left: (game.score.left + 1) as u32,
            ..game.score
        }),
{
}

/// A serve puts the ball in the middle of the field and gives it serving
/// speed along each axis, in the direction chosen for that axis.
pub proof fn law_serve(court: Court, rightward: bool, downward: bool)
    ensures
        Ball::spec_served(court, rightward, downward).x == court.width as int / 2,
        Ball::spec_served(court, rightward, downward).y == court.height as int / 2,
        spec_speed(Ball::spec_served(court, rightward, downward).vx) == BALL_MOVE_SPEED,
        spec_speed(Ball::spec_served(court, rightward, downward).vy) == BALL_MOVE_SPEED,
        rightward <==> Ball::spec_served(court, rightward, downward).vx > 0,
        downward <==> Ball::spec_served(court, rightward, downward).vy > 0,
{
}

/// A serve forgets where the ball was: served again, in whatever direction,
/// the ball is in the middle once more, and the game is as if only the last
/// serve had been made.
pub proof fn law_serve_again(
    game: Game,
    court: Court,
    first_rightward: bool,
    first_downward: bool,
    rightward: bool,
    downward: bool,
)
    ensures
        game.spec_serve(court, first_rightward, first_downward).spec_serve(
            court,
            rightward,
            downward,
        ) == game.spec_serve(court, rightward, downward),
        game.spec_serve(court, first_rightward, first_downward).spec_serve(
            court,
            rightward,
            downward,
        ).ball.x == game.spec_serve(court, first_rightward, first_downward).ball.x,
        game.spec_serve(court, first_rightward, first_downward).spec_serve(
            court,
            rightward,
            downward,
        ).ball.y == game.spec_serve(court, first_rightward, first_downward).ball.y,
{
}

/// The ball never gets slower while it is in play, and it gets faster only
/// where a paddle sends it back. This is stated of velocities that can be
/// turned round, which leaves out the single most negative one.
pub proof fn law_speed_grows_only_at_paddles(
    game: Game,
    court: Court,
    dt_ms: u32,
)
    requires
        game.ball.vx > i64::MIN,
        game.ball.vy > i64::MIN,
    ensures
        spec_speed(game.spec_move_ball(court, dt_ms).ball.vx) >= spec_speed(game.ball.vx),
        spec_speed(game.spec_move_ball(court, dt_ms).ball.vy) >= spec_speed(game.ball.vy),
        game.ball.spec_integrate(dt_ms).spec_reflect_walls(court).spec_paddle_hit(
            court,
            game.left,
            game.right,
        ) is None ==> {
            &&& spec_speed(game.spec_move_ball(court, dt_ms).ball.vx) == spec_speed(game.ball.vx)
            &&& spec_speed(game.spec_move_ball(court, dt_ms).ball.vy) == spec_speed(game.ball.vy)
        },
{
}

} // verus!
