//! Where the things of the game are drawn: plain rectangles and lines, in
//! thousandths of a pixel, for whoever puts them on a screen.

use vstd::prelude::*;
use crate::ball::Side;
use crate::court::Court;
use crate::game::Game;
use crate::paddle::Paddle;
use crate::units::{narrow, saturate, BALL_RADIUS, PADDLE_HEIGHT, PADDLE_WALL_OFFSET, PADDLE_WIDTH};

verus! {

/// Length of one dash of the line down the middle, and of the gap after it.
pub const LINE_RATE: i64 = 50_000;

/// Thickness of the line down the middle.
pub const LINE_THICKNESS: i64 = 5_000;

/// Distance of each score from the line down the middle.
pub const SCORE_MARGIN: i64 = 50_000;

/// The `y` of the baseline of the scores.
pub const SCORE_BASELINE: i64 = 80_000;

/// Font size of the scores, in pixels.
pub const SCORE_FONT_SIZE: u16 = 80;

/// The `x` at which the frame rate starts.
pub const FPS_LEFT: i64 = 20_000;

/// The `y` of the baseline of the frame rate.
pub const FPS_BASELINE: i64 = 40_000;

/// Font size of the frame rate, in pixels.
pub const FPS_FONT_SIZE: u16 = 40;

/// The ball is drawn on a grid of seven by seven cells that fills the box
/// round it; this is the side of one cell, a seventh of the ball's diameter.
pub const BALL_CELL: i64 = 5_000;

/// A rectangle with its upper left corner at (`x`, `y`).
#[derive(Clone, Copy, Debug, PartialEq, Eq, Structural)]
pub struct Rect {
    pub x: i64,
    pub y: i64,
    pub w: i64,
    pub h: i64,
}

/// One dash of the line down the middle: a vertical stroke at `x` from `top`
/// to `bottom`.
#[derive(Clone, Copy, Debug, PartialEq, Eq, Structural)]
pub struct Dash {
    pub x: i64,
    pub top: i64,
    pub bottom: i64,
}

/// The three rectangles that together show the ball as a rough disc.
#[derive(Clone, Copy, Debug, PartialEq, Eq, Structural)]
pub struct BallShape {
    pub wide: Rect,
    pub tall: Rect,
    pub core: Rect,
}

/// The rectangle of `cols` by `rows` cells of the ball's grid whose middle is
/// at (`x`, `y`).
pub open spec fn spec_cells(x: i64, y: i64, cols: int, rows: int) -> Rect {
    Rect {
        x: saturate(x - cols * BALL_CELL / 2),
        y: saturate(y - rows * BALL_CELL / 2),
        w: (cols * BALL_CELL) as i64,
        h: (rows * BALL_CELL) as i64,
    }
}

/// The shape of a ball whose middle is at (`x`, `y`): seven cells by three,
/// three by seven, and five by five.
pub open spec fn spec_ball_shape(x: i64, y: i64) -> BallShape {
    BallShape {
        wide: spec_cells(x, y, 7, 3),
        tall: spec_cells(x, y, 3, 7),
        core: spec_cells(x, y, 5, 5),
    }
}

/// The `y` at which the dash of the given number starts, counted from zero at
/// the top: a dash and a gap of the same length take turns, after half a gap.
pub open spec fn spec_dash_top(k: int) -> int {
    LINE_RATE / 2 + k * (LINE_RATE * 2)
}

/// How many dashes start on a field of the given height.
pub open spec fn spec_dash_count(height: int) -> int {
    if height <= LINE_RATE / 2 {
        0
    } else {
        (height - LINE_RATE / 2 - 1) / (LINE_RATE * 2) + 1
    }
}

/// The rectangle that the paddle of `side` covers.
pub open spec fn spec_paddle_rect(court: Court, side: Side, paddle: Paddle) -> Rect {
    Rect {
        x: match side {
            Side::Left => PADDLE_WALL_OFFSET,
            Side::Right => (court.width - PADDLE_WALL_OFFSET - PADDLE_WIDTH) as i64,
        },
        y: paddle.position,
        w: PADDLE_WIDTH,
        h: PADDLE_HEIGHT,
    }
}

/// The `x` at which the score of `side` starts. The left score ends a fixed
/// distance before the middle, so it starts its own width before that; the
/// right score starts the same distance after the middle.
pub open spec fn spec_score_left(court: Court, side: Side, text_width: u32) -> int {
    match side {
        Side::Left => court.spec_center_x() - SCORE_MARGIN - text_width,
        Side::Right => court.spec_center_x() + SCORE_MARGIN,
    }
}

/// A rectangle of `cols` by `rows` cells of the ball's grid round (`x`, `y`).
/// Both counts are at most seven.
fn cells(x: i64, y: i64, cols: i64, rows: i64) -> (rect: Rect)
    requires
        0 <= cols <= 7,
        0 <= rows <= 7,
    ensures
        rect == spec_cells(x, y, cols as int, rows as int),
{
    let w: i64 = cols * BALL_CELL;
    let h: i64 = rows * BALL_CELL;
    Rect { x: narrow(x as i128 - (w / 2) as i128), y: narrow(y as i128 - (h / 2) as i128), w, h }
}

/// The shape of a ball whose middle is at (`x`, `y`). Its widest and its
/// highest rectangle span the ball's diameter.
pub fn ball_shape(x: i64, y: i64) -> (shape: BallShape)
    ensures
        shape == spec_ball_shape(x, y),
        shape.wide.w == 2 * BALL_RADIUS,
        shape.tall.h == 2 * BALL_RADIUS,
{
    BallShape { wide: cells(x, y, 7, 3), tall: cells(x, y, 3, 7), core: cells(x, y, 5, 5) }
}

/// The dashes of the line down the middle of the field, from the top down.
/// Every dash that starts on the field is there, and no other.
pub fn center_line(court: &Court) -> (dashes: Vec<Dash>)
    ensures
        dashes@.len() == spec_dash_count(court.height as int),
        forall|k: int|
            0 <= k < dashes@.len() ==> {
                &&& (#[trigger] dashes@[k]).x == court.spec_center_x()
                &&& dashes@[k].top == spec_dash_top(k)
                &&& dashes@[k].bottom == spec_dash_top(k) + LINE_RATE
                &&& dashes@[k].top < court.height
            },
        spec_dash_top(dashes@.len() as int) >= court.height,
{
    let x: i64 = court.center_x();
    let height: i64 = court.height as i64;
    let mut dashes: Vec<Dash> = Vec::new();
    let mut top: i64 = LINE_RATE / 2;
    while top < height
        invariant
            height == court.height,
            x == court.spec_center_x(),
            top == spec_dash_top(dashes@.len() as int),
            forall|k: int|
                0 <= k < dashes@.len() ==> {
                    &&& (#[trigger] dashes@[k]).x == court.spec_center_x()
                    &&& dashes@[k].top == spec_dash_top(k)
                    &&& dashes@[k].bottom == spec_dash_top(k) + LINE_RATE
                    &&& dashes@[k].top < court.height
                },
        decreases height + LINE_RATE * 2 - top,
    {
        proof {
            let k = dashes@.len() as int;
            assert((k + 1) * (LINE_RATE * 2) == k * (LINE_RATE * 2) + LINE_RATE * 2)
                by (nonlinear_arith);
        }
        dashes.push(Dash { x, top, bottom: top + LINE_RATE });
        top = top + LINE_RATE * 2;
    }
    proof {
        let n = dashes@.len() as int;
        assert(n * (LINE_RATE * 2) == n * 100_000) by (nonlinear_arith)
            requires
                LINE_RATE == 50_000,
        ;
        if n > 0 {
            assert(dashes@[n - 1].top < court.height);
            assert((n - 1) * (LINE_RATE * 2) == n * 100_000 - 100_000) by (nonlinear_arith)
                requires
                    LINE_RATE == 50_000,
            ;
        }
    }
    dashes
}

/// The rectangle that the paddle of `side` covers.
pub fn paddle_rect(court: &Court, side: Side, paddle: &Paddle) -> (rect: Rect)
    ensures
        rect == spec_paddle_rect(*court, side, *paddle),
{
    let x: i64 = match side {
        Side::Left => PADDLE_WALL_OFFSET,
        Side::Right => court.width as i64 - PADDLE_WALL_OFFSET - PADDLE_WIDTH,
    };
    Rect { x, y: paddle.position, w: PADDLE_WIDTH, h: PADDLE_HEIGHT }
}

/// The `x` at which the score of `side` starts, for a text of the given width.
pub fn score_left(court: &Court, side: Side, text_width: u32) -> (x: i64)
    ensures
        x == spec_score_left(*court, side, text_width),
{
    match side {
        Side::Left => court.center_x() - SCORE_MARGIN - text_width as i64,
        Side::Right => court.center_x() + SCORE_MARGIN,
    }
}

/// The frame rate to draw, if it is to be drawn at all.
pub fn fps_shown(game: &Game) -> (fps: Option<i32>)
    ensures
        fps == (if game.show_fps {
            Some(game.fps)
        } else {
            None
        }),
{
    if game.show_fps {
        Some(game.fps)
    } else {
        None
    }
}

} // verus!
