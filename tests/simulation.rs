use pong::arena::{travel_exec, ARENA_HEIGHT, ARENA_WIDTH, BALL_RADIUS, PADDLE_HEIGHT, PADDLE_WIDTH};
use pong::audio::{AudioSystem, SoundCue};
use pong::bounce::BounceSystem;
use pong::components::{Ball, Paddle, ScoreBoard, ScoreText, Side, Transform};
use pong::event::{EventLog, PongEvent};
use pong::move_balls::MoveBallsSystem;
use pong::paddle::{InputAxes, PaddleSystem};
use pong::pong::Pong;
use pong::winner::WinnerSystem;

fn ball(vx: i64, vy: i64) -> Ball {
    Ball { velocity: (vx, vy), radius: BALL_RADIUS }
}

fn game_paddle(side: Side) -> Paddle {
    Paddle { velocity: 75_000, side, width: PADDLE_WIDTH, height: PADDLE_HEIGHT }
}

fn no_input() -> InputAxes {
    InputAxes { left_paddle: None, right_paddle: None }
}

fn run_winner(
    balls: &mut Vec<Ball>,
    ts: &mut Vec<Transform>,
    board: &mut ScoreBoard,
    text: &mut ScoreText,
    log: &mut EventLog,
) {
    WinnerSystem.run(balls, ts, board, text, log);
}

#[test]
fn ball_left_of_radius_scores_for_right() {
    let mut balls = vec![ball(-75_000, 0)];
    let mut ts = vec![Transform { x: 1_500, y: 50_000 }];
    // The left paddle stands low, away from the ball.
    let paddles = vec![game_paddle(Side::Left), game_paddle(Side::Right)];
    let pts = vec![
        Transform { x: PADDLE_WIDTH / 2, y: 10_000 },
        Transform { x: ARENA_WIDTH - PADDLE_WIDTH / 2, y: 50_000 },
    ];
    let mut log = EventLog::new();
    BounceSystem.run(&mut balls, &ts, &paddles, &pts, &mut log);
    assert_eq!(balls[0].velocity, (-75_000, 0));
    assert_eq!(log.len(), 0);

    let mut board = ScoreBoard::new();
    let mut text = ScoreText::new(&board);
    run_winner(&mut balls, &mut ts, &mut board, &mut text, &mut log);
    assert_eq!(board.score_right, 1);
    assert_eq!(board.score_left, 0);
    assert_eq!(ts[0], Transform { x: 50_000, y: 50_000 });
    assert_eq!(balls[0].velocity, (75_000, 0));
    assert_eq!(text.p2_score, "1");
    assert_eq!(text.p1_score, "0");
    assert_eq!(log.len(), 1);
}

#[test]
fn ball_at_bottom_wall_bounces_up() {
    let mut balls = vec![ball(0, -50_000)];
    let ts = vec![Transform { x: 50_000, y: 1_000 }];
    let mut log = EventLog::new();
    let mut reader = log.register_reader();
    BounceSystem.run(&mut balls, &ts, &vec![], &vec![], &mut log);
    assert_eq!(balls[0].velocity, (0, 50_000));
    assert_eq!(ts[0], Transform { x: 50_000, y: 1_000 });
    assert_eq!(log.read(&mut reader), vec![PongEvent::Bounce]);
}

#[test]
fn left_score_stays_at_cap() {
    let mut board = ScoreBoard { score_left: 999, score_right: 3 };
    let mut text = ScoreText::new(&board);
    let mut balls = vec![ball(75_000, 0)];
    let mut ts = vec![Transform { x: ARENA_WIDTH - 1_000, y: 30_000 }];
    let mut log = EventLog::new();
    run_winner(&mut balls, &mut ts, &mut board, &mut text, &mut log);
    assert_eq!(board.score_left, 999);
    assert_eq!(board.score_right, 3);
    assert_eq!(text.p1_score, "999");
    assert_eq!(ts[0].x, 50_000);
    assert_eq!(balls[0].velocity, (-75_000, 0));
}

#[test]
fn score_rises_to_cap_and_no_further() {
    let mut board = ScoreBoard::new();
    let mut text = ScoreText::new(&board);
    let mut log = EventLog::new();
    let mut last = 0;
    for _ in 0..1005 {
        let mut balls = vec![ball(-75_000, 0)];
        let mut ts = vec![Transform { x: 0, y: 50_000 }];
        run_winner(&mut balls, &mut ts, &mut board, &mut text, &mut log);
        assert!(board.score_right >= last);
        assert!(board.score_right <= 999);
        last = board.score_right;
    }
    assert_eq!(board.score_right, 999);
    assert_eq!(board.score_left, 0);
    assert_eq!(text.p2_score, "999");
    assert_eq!(log.len(), 1005);
}

#[test]
fn ball_exactly_at_radius_scores_once() {
    let mut board = ScoreBoard::new();
    let mut text = ScoreText::new(&board);
    let mut log = EventLog::new();
    let mut balls = vec![ball(-75_000, 50_000)];
    let mut ts = vec![Transform { x: BALL_RADIUS, y: 70_000 }];
    run_winner(&mut balls, &mut ts, &mut board, &mut text, &mut log);
    assert_eq!((board.score_left, board.score_right), (0, 1));
    assert_eq!(ts[0], Transform { x: 50_000, y: 70_000 });
    assert_eq!(balls[0].velocity, (75_000, 50_000));
    assert_eq!(log.len(), 1);
}

#[test]
fn ball_at_right_edge_scores_for_left() {
    let mut board = ScoreBoard::new();
    let mut text = ScoreText::new(&board);
    let mut log = EventLog::new();
    let mut reader = log.register_reader();
    let mut balls = vec![ball(75_000, -50_000), ball(75_000, 0)];
    let mut ts = vec![
        Transform { x: ARENA_WIDTH - BALL_RADIUS, y: 20_000 },
        Transform { x: 40_000, y: 20_000 },
    ];
    run_winner(&mut balls, &mut ts, &mut board, &mut text, &mut log);
    assert_eq!((board.score_left, board.score_right), (1, 0));
    assert_eq!(ts[0], Transform { x: 50_000, y: 20_000 });
    assert_eq!(balls[0].velocity, (-75_000, -50_000));
    assert_eq!(ts[1], Transform { x: 40_000, y: 20_000 });
    assert_eq!(balls[1].velocity, (75_000, 0));
    assert_eq!(text.p1_score, "1");
    assert_eq!(log.read(&mut reader), vec![PongEvent::Score]);
}

#[test]
fn ball_inside_field_does_not_score() {
    let mut board = ScoreBoard::new();
    let mut text = ScoreText::new(&board);
    let mut log = EventLog::new();
    let mut balls = vec![ball(-75_000, 0)];
    let mut ts = vec![Transform { x: BALL_RADIUS + 1, y: 50_000 }];
    run_winner(&mut balls, &mut ts, &mut board, &mut text, &mut log);
    assert_eq!((board.score_left, board.score_right), (0, 0));
    assert_eq!(ts[0].x, BALL_RADIUS + 1);
    assert_eq!(log.len(), 0);
}

#[test]
fn top_wall_flips_only_when_moving_up() {
    let mut balls = vec![ball(10, 50_000), ball(10, -50_000), ball(10, 50_000)];
    let ts = vec![
        Transform { x: 50_000, y: ARENA_HEIGHT - 1_000 },
        Transform { x: 50_000, y: ARENA_HEIGHT - 1_000 },
        Transform { x: 50_000, y: 60_000 },
    ];
    let mut log = EventLog::new();
    BounceSystem.run(&mut balls, &ts, &vec![], &vec![], &mut log);
    assert_eq!(balls[0].velocity, (10, -50_000));
    assert_eq!(balls[1].velocity, (10, -50_000));
    assert_eq!(balls[2].velocity, (10, 50_000));
    assert_eq!(log.len(), 1);
}

#[test]
fn still_ball_at_wall_keeps_velocity() {
    let mut balls = vec![ball(0, 0)];
    let ts = vec![Transform { x: 50_000, y: 0 }];
    let mut log = EventLog::new();
    BounceSystem.run(&mut balls, &ts, &vec![], &vec![], &mut log);
    assert_eq!(balls[0].velocity, (0, 0));
    assert_eq!(log.len(), 0);
}

#[test]
fn paddle_reflects_ball_moving_toward_it() {
    let paddles = vec![game_paddle(Side::Left), game_paddle(Side::Right)];
    let pts = vec![
        Transform { x: 2_000, y: 50_000 },
        Transform { x: 98_000, y: 50_000 },
    ];
    let mut balls = vec![ball(-75_000, 0), ball(75_000, 0), ball(75_000, 0)];
    let ts = vec![
        Transform { x: 5_000, y: 55_000 },
        Transform { x: 5_000, y: 55_000 },
        Transform { x: 94_000, y: 42_000 },
    ];
    let mut log = EventLog::new();
    BounceSystem.run(&mut balls, &ts, &paddles, &pts, &mut log);
    // Toward the left paddle and inside its widened rectangle: reflected.
    assert_eq!(balls[0].velocity, (75_000, 0));
    // Moving away from the left paddle: left alone.
    assert_eq!(balls[1].velocity, (75_000, 0));
    // Toward the right paddle, at the corner of its widened rectangle.
    assert_eq!(balls[2].velocity, (-75_000, 0));
    assert_eq!(log.len(), 2);
}

#[test]
fn wall_and_paddle_in_one_frame_raise_two_bounces() {
    let paddles = vec![game_paddle(Side::Left)];
    let pts = vec![Transform { x: 2_000, y: 8_000 }];
    let mut balls = vec![ball(-75_000, -50_000)];
    let ts = vec![Transform { x: 4_000, y: 1_000 }];
    let mut log = EventLog::new();
    let mut reader = log.register_reader();
    BounceSystem.run(&mut balls, &ts, &paddles, &pts, &mut log);
    assert_eq!(balls[0].velocity, (75_000, 50_000));
    assert_eq!(log.read(&mut reader), vec![PongEvent::Bounce, PongEvent::Bounce]);
}

#[test]
fn ball_just_outside_paddle_reach_is_not_reflected() {
    let paddles = vec![game_paddle(Side::Left)];
    let pts = vec![Transform { x: 2_000, y: 50_000 }];
    let mut balls = vec![ball(-75_000, 0)];
    // The paddle spans x in [0, 4000]; widened by the radius, up to 6000.
    let ts = vec![Transform { x: 6_001, y: 50_000 }];
    let mut log = EventLog::new();
    BounceSystem.run(&mut balls, &ts, &paddles, &pts, &mut log);
    assert_eq!(balls[0].velocity, (-75_000, 0));
    assert_eq!(log.len(), 0);
}

#[test]
fn every_event_read_once_in_order() {
    let mut log = EventLog::new();
    let mut first = log.register_reader();
    log.single_write(PongEvent::Bounce);
    let mut second = log.register_reader();
    log.single_write(PongEvent::Score);
    log.single_write(PongEvent::Bounce);
    assert_eq!(
        log.read(&mut first),
        vec![PongEvent::Bounce, PongEvent::Score, PongEvent::Bounce]
    );
    assert_eq!(log.read(&mut first), vec![]);
    log.single_write(PongEvent::Score);
    assert_eq!(log.read(&mut first), vec![PongEvent::Score]);
    // The second reader is not advanced by the first.
    assert_eq!(
        log.read(&mut second),
        vec![PongEvent::Score, PongEvent::Bounce, PongEvent::Score]
    );
    assert_eq!(log.read(&mut second), vec![]);
}

#[test]
fn audio_plays_each_event_once() {
    let mut log = EventLog::new();
    log.single_write(PongEvent::Score);
    let mut audio = AudioSystem::new(&log);
    log.single_write(PongEvent::Bounce);
    log.single_write(PongEvent::Score);
    assert_eq!(audio.run(&log, true), vec![SoundCue::Bounce, SoundCue::Score]);
    assert_eq!(audio.run(&log, true), vec![]);
    log.single_write(PongEvent::Bounce);
    assert_eq!(audio.run(&log, true), vec![SoundCue::Bounce]);
}

#[test]
fn audio_without_output_skips_and_drains() {
    let mut log = EventLog::new();
    let mut audio = AudioSystem::new(&log);
    log.single_write(PongEvent::Bounce);
    assert_eq!(audio.run(&log, false), vec![]);
    log.single_write(PongEvent::Score);
    assert_eq!(audio.run(&log, true), vec![SoundCue::Score]);
}

#[test]
fn paddle_follows_input_and_stays_inside() {
    let paddles = vec![game_paddle(Side::Left), game_paddle(Side::Right)];
    let mut pts = vec![
        Transform { x: 2_000, y: 50_000 },
        Transform { x: 98_000, y: 50_000 },
    ];
    let input = InputAxes { left_paddle: Some(1000), right_paddle: Some(-500) };
    // 0.1 s at full deflection and 75 units/s: 7.5 units; half of that down.
    PaddleSystem.run(&paddles, &mut pts, &input, 100_000);
    assert_eq!(pts[0], Transform { x: 2_000, y: 57_500 });
    assert_eq!(pts[1], Transform { x: 98_000, y: 46_250 });
    // A whole second up: clamped at the top.
    let up = InputAxes { left_paddle: Some(1000), right_paddle: Some(-1000) };
    PaddleSystem.run(&paddles, &mut pts, &up, 1_000_000);
    assert_eq!(pts[0].y, ARENA_HEIGHT - PADDLE_HEIGHT / 2);
    assert_eq!(pts[1].y, PADDLE_HEIGHT / 2);
}

#[test]
fn paddle_without_input_is_clamped_in_place() {
    let paddles = vec![game_paddle(Side::Left), game_paddle(Side::Right)];
    let mut pts = vec![
        Transform { x: 2_000, y: -30_000 },
        Transform { x: 98_000, y: 40_000 },
    ];
    PaddleSystem.run(&paddles, &mut pts, &no_input(), 16_000);
    assert_eq!(pts[0].y, 8_000);
    assert_eq!(pts[1].y, 40_000);
}

#[test]
fn paddle_extreme_input_is_clamped() {
    let paddles = vec![game_paddle(Side::Left)];
    let mut pts = vec![Transform { x: 2_000, y: 50_000 }];
    let input = InputAxes { left_paddle: Some(i64::MIN), right_paddle: None };
    PaddleSystem.run(&paddles, &mut pts, &input, 1_000_000);
    assert_eq!(pts[0].y, 8_000);
}

#[test]
fn travel_truncates_toward_zero() {
    assert_eq!(travel_exec(75_000, 16_667), 1_250);
    assert_eq!(travel_exec(-75_000, 16_667), -1_250);
    assert_eq!(travel_exec(1, 999_999), 0);
    assert_eq!(travel_exec(-1, 999_999), 0);
    assert_eq!(travel_exec(50_000, 0), 0);
}

#[test]
fn balls_move_by_velocity_times_time() {
    let balls = vec![ball(75_000, -50_000), ball(0, 0)];
    let mut ts = vec![Transform { x: 50_000, y: 50_000 }, Transform { x: 10, y: 20 }];
    MoveBallsSystem.run(&balls, &mut ts, 20_000);
    assert_eq!(ts[0], Transform { x: 51_500, y: 49_000 });
    assert_eq!(ts[1], Transform { x: 10, y: 20 });
    // Movement is not limited to the arena.
    let fast = vec![ball(-1_000_000_000, 1_000_000_000)];
    let mut ft = vec![Transform { x: 0, y: 0 }];
    MoveBallsSystem.run(&fast, &mut ft, 1_000_000);
    assert_eq!(ft[0], Transform { x: -1_000_000_000, y: 1_000_000_000 });
}

#[test]
fn passes_accept_empty_worlds() {
    let mut log = EventLog::new();
    let mut balls: Vec<Ball> = vec![];
    let mut ts: Vec<Transform> = vec![];
    MoveBallsSystem.run(&balls, &mut ts, 1_000);
    BounceSystem.run(&mut balls, &ts, &vec![], &vec![], &mut log);
    let mut board = ScoreBoard::new();
    let mut text = ScoreText::new(&board);
    run_winner(&mut balls, &mut ts, &mut board, &mut text, &mut log);
    assert_eq!(log.len(), 0);
    assert_eq!((board.score_left, board.score_right), (0, 0));
}

#[test]
fn constructors_give_defaults() {
    let p = Paddle::new(Side::Right);
    assert_eq!(p, Paddle { velocity: 1_000, side: Side::Right, width: 1_000, height: 1_000 });
    let b = ScoreBoard::new();
    assert_eq!((b.score_left, b.score_right), (0, 0));
    let t = ScoreText::new(&ScoreBoard { score_left: 12, score_right: 305 });
    assert_eq!(t.p1_score, "12");
    assert_eq!(t.p2_score, "305");
}

#[test]
fn new_game_layout() {
    let g = Pong::new();
    assert_eq!(g.balls.len(), 1);
    assert_eq!(g.balls[0].velocity, (75_000, 50_000));
    assert_eq!(g.balls[0].radius, 2_000);
    assert_eq!(g.ball_transforms[0], Transform { x: 50_000, y: 50_000 });
    assert_eq!(g.paddles.len(), 2);
    assert_eq!(g.paddle_transforms[0], Transform { x: 2_000, y: 50_000 });
    assert_eq!(g.paddle_transforms[1], Transform { x: 98_000, y: 50_000 });
    assert_eq!(g.score_text.p1_score, "0");
    assert_eq!(g.events.len(), 0);
}

#[test]
fn frames_keep_scores_monotone_and_paddles_inside() {
    let mut g = Pong::new();
    let mut left = 0;
    let mut right = 0;
    let mut sounds = 0;
    for frame in 0..5_000 {
        let axis = if frame % 300 < 150 { 1000 } else { -1000 };
        let input = InputAxes { left_paddle: Some(axis), right_paddle: None };
        let cues = g.tick(&input, 16_667, true);
        sounds += cues.len();
        assert!(g.score_board.score_left >= left && g.score_board.score_left <= 999);
        assert!(g.score_board.score_right >= right && g.score_board.score_right <= 999);
        left = g.score_board.score_left;
        right = g.score_board.score_right;
        for i in 0..2 {
            let y = g.paddle_transforms[i].y;
            assert!(y >= PADDLE_HEIGHT / 2 && y <= ARENA_HEIGHT - PADDLE_HEIGHT / 2);
        }
        let t = g.ball_transforms[0];
        assert!(t.x >= 0 && t.x <= ARENA_WIDTH);
    }
    assert!(left + right > 0);
    assert_eq!(sounds, g.events.len());
}

#[test]
fn frame_without_sound_output_plays_nothing() {
    let mut g = Pong::new();
    g.ball_transforms[0] = Transform { x: 50_000, y: ARENA_HEIGHT - 2_010 };
    let cues = g.tick(&no_input(), 1_000, false);
    assert_eq!(cues, vec![]);
    assert_eq!(g.balls[0].velocity, (75_000, -50_000));
    assert_eq!(g.events.len(), 1);
    let cues = g.tick(&no_input(), 1_000, true);
    assert_eq!(cues, vec![]);
}

#[test]
fn odd_paddle_height_keeps_margin_rounded_up() {
    let paddles = vec![Paddle { velocity: 75_000, side: Side::Left, width: 4_000, height: 15_001 }];
    let mut pts = vec![Transform { x: 2_000, y: 50_000 }];
    let down = InputAxes { left_paddle: Some(-1000), right_paddle: None };
    PaddleSystem.run(&paddles, &mut pts, &down, 2_000_000);
    assert_eq!(pts[0].y, 7_501);
    let up = InputAxes { left_paddle: Some(1000), right_paddle: None };
    PaddleSystem.run(&paddles, &mut pts, &up, 2_000_000);
    assert_eq!(pts[0].y, ARENA_HEIGHT - 7_501);
}

#[test]
fn long_frames_are_accepted() {
    let balls = vec![ball(75_000, -50_000)];
    let mut ts = vec![Transform { x: 0, y: 0 }];
    MoveBallsSystem.run(&balls, &mut ts, 3_000_000_000);
    assert_eq!(ts[0], Transform { x: 225_000_000, y: -150_000_000 });
    assert_eq!(travel_exec(-1_000_000_000, 9_000_000_000), -9_000_000_000_000);
}

#[test]
fn one_frame_moves_bounces_and_scores() {
    let mut g = Pong::new();
    g.ball_transforms[0] = Transform { x: 97_000, y: 97_000 };
    g.balls[0].velocity = (75_000, 50_000);
    let input = InputAxes { left_paddle: Some(1000), right_paddle: None };
    // 20 ms: the ball moves by (1.5, 1.0) units to (98.5, 98.0).
    let cues = g.tick(&input, 20_000, true);
    assert_eq!(g.paddle_transforms[0], Transform { x: 2_000, y: 51_500 });
    assert_eq!(g.paddle_transforms[1], Transform { x: 98_000, y: 50_000 });
    // The top wall negates the vertical velocity, then the right edge scores.
    assert_eq!(g.ball_transforms[0], Transform { x: 50_000, y: 98_000 });
    assert_eq!(g.balls[0].velocity, (-75_000, -50_000));
    assert_eq!((g.score_board.score_left, g.score_board.score_right), (1, 0));
    assert_eq!(g.score_text.p1_score, "1");
    assert_eq!(cues, vec![SoundCue::Bounce, SoundCue::Score]);
}

#[test]
fn new_game_paddles_have_game_size() {
    let g = Pong::new();
    assert_eq!(g.paddles[0], game_paddle(Side::Left));
    assert_eq!(g.paddles[1], game_paddle(Side::Right));
}
