use pong::ball::Side;
use pong::court::Court;
use pong::game::Game;
use pong::paddle::Paddle;
use pong::scene::{ball_shape, center_line, fps_shown, paddle_rect, score_left, BallShape, Dash, Rect};

fn court() -> Court {
    Court::new(1_200_000, 800_000)
}

#[test]
fn court_knows_its_middle() {
    assert_eq!(court().center_x(), 600_000);
    assert_eq!(court().center_y(), 400_000);
    assert_eq!(Court::new(7, 9).center_x(), 3);
    assert_eq!(Court::new(7, 9).center_y(), 4);
    assert_eq!(Court::new(u32::MAX, 0).center_x(), 2_147_483_647);
    assert_eq!(Court::new(u32::MAX, 0).center_y(), 0);
}

#[test]
fn ball_shape_is_three_rectangles_round_the_middle() {
    assert_eq!(
        ball_shape(600_000, 400_000),
        BallShape {
            wide: Rect { x: 582_500, y: 392_500, w: 35_000, h: 15_000 },
            tall: Rect { x: 592_500, y: 382_500, w: 15_000, h: 35_000 },
            core: Rect { x: 587_500, y: 387_500, w: 25_000, h: 25_000 },
        }
    );
}

#[test]
fn ball_shape_at_the_ends_of_the_range() {
    let shape = ball_shape(i64::MIN, i64::MAX);
    assert_eq!(shape.wide, Rect { x: i64::MIN, y: i64::MAX - 7_500, w: 35_000, h: 15_000 });
    assert_eq!(shape.tall, Rect { x: i64::MIN, y: i64::MAX - 17_500, w: 15_000, h: 35_000 });
    assert_eq!(shape.core, Rect { x: i64::MIN, y: i64::MAX - 12_500, w: 25_000, h: 25_000 });
}

#[test]
fn center_line_has_a_dash_every_hundred_pixels() {
    let dashes = center_line(&court());
    assert_eq!(dashes.len(), 8);
    for (k, dash) in dashes.iter().enumerate() {
        let top = 25_000 + 100_000 * k as i64;
        assert_eq!(*dash, Dash { x: 600_000, top, bottom: top + 50_000 });
    }
}

#[test]
fn center_line_ends_with_the_last_dash_that_starts_on_the_field() {
    assert_eq!(center_line(&Court::new(1_200_000, 0)).len(), 0);
    assert_eq!(center_line(&Court::new(1_200_000, 25_000)).len(), 0);
    assert_eq!(
        center_line(&Court::new(1_000, 25_001)),
        vec![Dash { x: 500, top: 25_000, bottom: 75_000 }]
    );
    assert_eq!(center_line(&Court::new(1_200_000, 125_000)).len(), 1);
    assert_eq!(center_line(&Court::new(1_200_000, 125_001)).len(), 2);
    let tallest = center_line(&Court::new(0, u32::MAX));
    assert_eq!(tallest.len(), 42_950);
    assert_eq!(tallest[42_949], Dash { x: 0, top: 4_294_925_000, bottom: 4_294_975_000 });
}

#[test]
fn paddle_rect_stands_off_the_wall() {
    let paddle = Paddle { position: 123_000, velocity: 77 };
    assert_eq!(
        paddle_rect(&court(), Side::Left, &paddle),
        Rect { x: 50_000, y: 123_000, w: 20_000, h: 200_000 }
    );
    assert_eq!(
        paddle_rect(&court(), Side::Right, &paddle),
        Rect { x: 1_130_000, y: 123_000, w: 20_000, h: 200_000 }
    );
    assert_eq!(
        paddle_rect(&Court::new(0, 0), Side::Right, &paddle),
        Rect { x: -70_000, y: 123_000, w: 20_000, h: 200_000 }
    );
}

#[test]
fn scores_keep_their_distance_from_the_middle() {
    assert_eq!(score_left(&court(), Side::Left, 35_000), 515_000);
    assert_eq!(score_left(&court(), Side::Left, 0), 550_000);
    assert_eq!(score_left(&court(), Side::Right, 35_000), 650_000);
    assert_eq!(score_left(&court(), Side::Right, 0), 650_000);
    assert_eq!(score_left(&Court::new(0, 0), Side::Left, u32::MAX), -4_295_017_295);
}

#[test]
fn frame_rate_is_shown_only_when_switched_on() {
    let mut game = Game::new(&court(), 59);
    assert_eq!(fps_shown(&game), None);
    game.show_fps = true;
    assert_eq!(fps_shown(&game), Some(59));
}
