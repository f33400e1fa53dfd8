use pong::ball::{Ball, Side};
use pong::court::Court;
use pong::game::{point_winner, smooth_fps, Game, Input, Score};
use pong::paddle::Paddle;

fn court() -> Court {
    Court::new(1_200_000, 800_000)
}

fn idle(dt_ms: u32) -> Input {
    Input {
        dt_ms,
        left_up: false,
        left_down: false,
        right_up: false,
        right_down: false,
        serve: false,
        toggle_fps: false,
    }
}

#[test]
fn new_game_is_the_opening_position() {
    let game = Game::new(&court(), 60);
    assert_eq!(
        game,
        Game {
            left: Paddle { position: 300_000, velocity: 0 },
            right: Paddle { position: 300_000, velocity: 0 },
            ball: Ball { x: 600_000, y: 400_000, vx: 0, vy: 0 },
            score: Score { left: 0, right: 0 },
            show_fps: false,
            fps: 60,
        }
    );
}

#[test]
fn point_goes_to_the_player_on_the_other_side() {
    let c = court();
    assert_eq!(point_winner(&Ball { x: -1, y: 0, vx: 0, vy: 0 }, &c), Some(Side::Right));
    assert_eq!(point_winner(&Ball { x: 0, y: 0, vx: 0, vy: 0 }, &c), None);
    assert_eq!(point_winner(&Ball { x: 1_200_000, y: 0, vx: 0, vy: 0 }, &c), None);
    assert_eq!(point_winner(&Ball { x: 1_200_001, y: 0, vx: 0, vy: 0 }, &c), Some(Side::Left));
    assert_eq!(point_winner(&Ball { x: i64::MIN, y: 0, vx: 0, vy: 0 }, &c), Some(Side::Right));
    assert_eq!(point_winner(&Ball { x: i64::MAX, y: 0, vx: 0, vy: 0 }, &c), Some(Side::Left));
}

#[test]
fn ball_out_on_the_left_scores_for_the_right() {
    let mut game = Game::new(&court(), 60);
    game.score = Score { left: 3, right: 7 };
    game.ball = Ball { x: -1, y: 123_000, vx: -650, vy: 700 };
    assert_eq!(game.settle_point(&court()), Some(Side::Right));
    assert_eq!(game.score, Score { left: 3, right: 8 });
    assert_eq!(game.ball, Ball { x: 600_000, y: 400_000, vx: 0, vy: 0 });
}

#[test]
fn ball_out_on_the_right_scores_for_the_left() {
    let mut game = Game::new(&court(), 60);
    game.score = Score { left: 3, right: 7 };
    game.ball = Ball { x: 1_200_001, y: 123_000, vx: 650, vy: -700 };
    assert_eq!(game.settle_point(&court()), Some(Side::Left));
    assert_eq!(game.score, Score { left: 4, right: 7 });
    assert_eq!(game.ball, Ball { x: 600_000, y: 400_000, vx: 0, vy: 0 });
}

#[test]
fn ball_on_the_field_scores_for_nobody() {
    let mut game = Game::new(&court(), 60);
    game.ball = Ball { x: 0, y: 123_000, vx: -650, vy: 700 };
    let before = game;
    assert_eq!(game.settle_point(&court()), None);
    assert_eq!(game, before);
    game.ball.x = 1_200_000;
    let before = game;
    assert_eq!(game.settle_point(&court()), None);
    assert_eq!(game, before);
}

#[test]
fn full_count_stays_full() {
    let mut score = Score { left: u32::MAX, right: u32::MAX - 1 };
    score.award(Side::Left);
    assert_eq!(score, Score { left: u32::MAX, right: u32::MAX - 1 });
    score.award(Side::Right);
    assert_eq!(score, Score { left: u32::MAX, right: u32::MAX });
    score.award(Side::Right);
    assert_eq!(score, Score { left: u32::MAX, right: u32::MAX });
}

#[test]
fn award_counts_one_point() {
    let mut score = Score { left: 0, right: 0 };
    score.award(Side::Left);
    assert_eq!(score, Score { left: 1, right: 0 });
    score.award(Side::Right);
    score.award(Side::Right);
    assert_eq!(score, Score { left: 1, right: 2 });
}

#[test]
fn step_with_a_serve_and_both_paddles_moving() {
    let mut game = Game::new(&court(), 60);
    let input = Input {
        dt_ms: 16,
        left_up: false,
        left_down: true,
        right_up: true,
        right_down: true,
        serve: true,
        toggle_fps: true,
    };
    game.step_with(&court(), &input, 0x8000_0000, 0);
    assert_eq!(
        game,
        Game {
            left: Paddle { position: 304_800, velocity: 4_800 },
            right: Paddle { position: 295_200, velocity: -4_800 },
            ball: Ball { x: 608_000, y: 392_000, vx: 500, vy: -500 },
            score: Score { left: 0, right: 0 },
            show_fps: true,
            fps: 60,
        }
    );
    game.step_with(&court(), &idle(10), 7, 7);
    assert_eq!(
        game,
        Game {
            left: Paddle { position: 307_200, velocity: 2_400 },
            right: Paddle { position: 292_800, velocity: -2_400 },
            ball: Ball { x: 613_000, y: 387_000, vx: 500, vy: -500 },
            score: Score { left: 0, right: 0 },
            show_fps: true,
            fps: 60,
        }
    );
}

#[test]
fn step_without_a_serve_ignores_the_words() {
    let mut one = Game::new(&court(), 60);
    one.ball = Ball { x: 500_000, y: 300_000, vx: -500, vy: 550 };
    let mut two = one;
    let mut three = one;
    one.step_with(&court(), &idle(16), 0, 0);
    two.step_with(&court(), &idle(16), u32::MAX, u32::MAX);
    three.step(&court(), &idle(16));
    assert_eq!(one, two);
    assert_eq!(one, three);
    assert_eq!(one.ball, Ball { x: 492_000, y: 308_800, vx: -500, vy: 550 });
}

#[test]
fn step_with_a_random_serve() {
    let mut serve = idle(16);
    serve.serve = true;
    for _ in 0..50 {
        let mut game = Game::new(&court(), 60);
        game.ball = Ball { x: 17, y: 19, vx: 23, vy: 29 };
        game.step(&court(), &serve);
        assert!(game.ball.vx == 500 || game.ball.vx == -500);
        assert!(game.ball.vy == 500 || game.ball.vy == -500);
        assert_eq!(game.ball.x, 600_000 + 16 * game.ball.vx);
        assert_eq!(game.ball.y, 400_000 + 16 * game.ball.vy);
        assert_eq!(game.score, Score { left: 0, right: 0 });
    }
}

#[test]
fn step_settles_the_point_before_the_ball_moves() {
    let mut game = Game::new(&court(), 60);
    game.ball = Ball { x: -3_000, y: 200_000, vx: -500, vy: 500 };
    game.step_with(&court(), &idle(16), 0, 0);
    assert_eq!(game.score, Score { left: 0, right: 1 });
    assert_eq!(game.ball, Ball { x: 600_000, y: 400_000, vx: 0, vy: 0 });
    game.step_with(&court(), &idle(16), 0, 0);
    assert_eq!(game.score, Score { left: 0, right: 1 });
    assert_eq!(game.ball, Ball { x: 600_000, y: 400_000, vx: 0, vy: 0 });
}

#[test]
fn step_leaves_a_ball_that_just_went_out_for_the_next_frame() {
    let mut game = Game::new(&court(), 60);
    game.ball = Ball { x: 5_000, y: 700_000, vx: -500, vy: 0 };
    game.step_with(&court(), &idle(16), 0, 0);
    assert_eq!(game.ball, Ball { x: -3_000, y: 700_000, vx: -500, vy: 0 });
    assert_eq!(game.score, Score { left: 0, right: 0 });
    game.step_with(&court(), &idle(16), 0, 0);
    assert_eq!(game.score, Score { left: 0, right: 1 });
}

#[test]
fn step_returns_the_ball_from_the_paddle_where_it_now_is() {
    let mut game = Game::new(&court(), 60);
    game.left = Paddle { position: 0, velocity: 0 };
    game.ball = Ball { x: 90_000, y: 201_000, vx: -500, vy: 0 };
    let mut input = idle(16);
    input.left_down = true;
    game.step_with(&court(), &input, 0, 0);
    assert_eq!(game.left, Paddle { position: 4_800, velocity: 4_800 });
    assert_eq!(game.ball, Ball { x: 87_500, y: 201_000, vx: 550, vy: 0 });

    let mut missed = Game::new(&court(), 60);
    missed.left = Paddle { position: 0, velocity: 0 };
    missed.ball = Ball { x: 90_000, y: 201_000, vx: -500, vy: 0 };
    missed.step_with(&court(), &idle(16), 0, 0);
    assert_eq!(missed.ball, Ball { x: 82_000, y: 201_000, vx: -500, vy: 0 });
}

#[test]
fn step_reflects_at_a_wall_and_then_at_a_paddle() {
    let mut game = Game::new(&court(), 60);
    game.right = Paddle { position: 600_000, velocity: 0 };
    game.ball = Ball { x: 1_105_000, y: 780_000, vx: 500, vy: 500 };
    game.step_with(&court(), &idle(16), 0, 0);
    assert_eq!(game.ball, Ball { x: 1_112_500, y: 782_500, vx: -550, vy: -550 });
}

#[test]
fn a_rally_makes_the_ball_faster_by_the_same_step_each_time() {
    let c = court();
    let mut game = Game::new(&c, 60);
    game.ball = Ball { x: 600_000, y: 400_000, vx: 500, vy: 0 };
    let mut hits = 0;
    let mut last = 500;
    for _ in 0..2_000 {
        game.step_with(&c, &idle(16), 0, 0);
        let speed = game.ball.vx.abs();
        if speed != last {
            assert_eq!(speed, last + 50);
            last = speed;
            hits += 1;
        }
        assert_eq!(game.ball.vy, 0);
    }
    assert!(hits >= 10);
    assert_eq!(game.score, Score { left: 0, right: 0 });
}

#[test]
fn toggle_switches_the_frame_rate_on_and_off() {
    let mut game = Game::new(&court(), 60);
    let mut input = idle(16);
    input.toggle_fps = true;
    game.step_with(&court(), &input, 0, 0);
    assert!(game.show_fps);
    game.step_with(&court(), &idle(16), 0, 0);
    assert!(game.show_fps);
    game.step_with(&court(), &input, 0, 0);
    assert!(!game.show_fps);
}

#[test]
fn frame_is_a_step_without_a_serve() {
    let mut one = Game::new(&court(), 60);
    one.ball = Ball { x: 500_000, y: 300_000, vx: -500, vy: 550 };
    let mut two = one;
    let mut input = idle(16);
    input.serve = true;
    one.frame(&court(), &input);
    two.step_with(&court(), &idle(16), 0, 0);
    assert_eq!(one, two);
}

#[test]
fn smooth_fps_weighs_two_to_one() {
    assert_eq!(smooth_fps(60, 60), 60);
    assert_eq!(smooth_fps(60, 30), 50);
    assert_eq!(smooth_fps(0, 2), 0);
    assert_eq!(smooth_fps(1, 2), 1);
    assert_eq!(smooth_fps(-1, 0), 0);
    assert_eq!(smooth_fps(-2, 0), -1);
    assert_eq!(smooth_fps(i32::MAX, i32::MAX), i32::MAX);
    assert_eq!(smooth_fps(i32::MIN, i32::MIN), i32::MIN);
}

#[test]
fn record_fps_changes_nothing_else() {
    let mut game = Game::new(&court(), 60);
    let before = game;
    game.record_fps(30);
    assert_eq!(game.fps, 50);
    game.fps = before.fps;
    assert_eq!(game, before);
}

#[test]
fn paddles_stay_on_the_field_through_a_whole_game() {
    let c = court();
    let mut game = Game::new(&c, 60);
    for frame in 0..600u32 {
        let input = Input {
            dt_ms: 1 + frame % 40,
            left_up: frame % 3 == 0,
            left_down: frame % 5 == 0,
            right_up: frame < 300,
            right_down: frame >= 300,
            serve: frame % 97 == 0,
            toggle_fps: false,
        };
        game.step(&c, &input);
        assert!(0 <= game.left.position && game.left.position <= 600_000);
        assert!(0 <= game.right.position && game.right.position <= 600_000);
        assert!(17_500 <= game.ball.y && game.ball.y <= 782_500);
    }
}
