// The simulation context and one frame of play: the passes in their fixed
// order over state that each of them leaves valid for the next.

use vstd::prelude::*;
use crate::arena::{
    lemma_travel_bounds, ARENA_HEIGHT, ARENA_WIDTH, BALL_RADIUS, BALL_VELOCITY_X, BALL_VELOCITY_Y,
    MAX_FRAME_MICROS, MAX_STEP, PADDLE_HEIGHT, PADDLE_VELOCITY, PADDLE_WIDTH,
};
use crate::audio::{cues, AudioSystem, SoundCue};
use crate::bounce::{ball_after_bounce, bounces, wall_contact, BounceSystem};
use crate::components::{decimal, Ball, Paddle, ScoreBoard, ScoreText, Side, Transform};
use crate::event::{repeated, unread, EventLog, PongEvent};
use crate::move_balls::{moved, MoveBallsSystem};
use crate::paddle::{highest_y, lowest_y, paddle_y_after, InputAxes, PaddleSystem};
use crate::winner::{ball_after_score, capped_add, points, transform_after_score, WinnerSystem};

verus! {

/// Ball `b` at `t` between frames: horizontally inside the arena, vertically no
/// more than one frame's travel outside it, and not moving further out past a
/// wall it touches.
pub open spec fn in_play(b: Ball, t: Transform) -> bool {
    &&& 0 <= t.x <= ARENA_WIDTH
    &&& -MAX_STEP <= t.y <= ARENA_HEIGHT + MAX_STEP
    &&& t.y <= b.radius ==> b.velocity.1 >= 0
    &&& t.y >= ARENA_HEIGHT - b.radius ==> b.velocity.1 <= 0
}

/// A frame keeps a ball in play: movement, then a bounce that negates the
/// vertical velocity exactly on wall contact, then the scoring check.
pub proof fn lemma_frame_keeps_in_play(b: Ball, t: Transform, dt: int, b2: Ball)
    requires
        b.valid(),
        in_play(b, t),
        0 <= dt <= MAX_FRAME_MICROS,
        b2.valid(),
        b2.radius == b.radius,
        b2.velocity.1 == if wall_contact(b, moved(b, t, dt)) {
            -b.velocity.1
        } else {
            b.velocity.1 as int
        },
    ensures
        in_play(
            ball_after_score(b2, moved(b, t, dt)),
            transform_after_score(b2, moved(b, t, dt)),
        ),
        ball_after_score(b2, moved(b, t, dt)).valid(),
{
    lemma_travel_bounds(b.velocity.0 as int, dt);
    lemma_travel_bounds(b.velocity.1 as int, dt);
}

/// Paddle positions after the paddle pass of a frame of `dt` microseconds.
pub open spec fn frame_paddles(g: Pong, input: InputAxes, dt: int) -> Seq<Transform> {
    Seq::new(
        g.paddle_transforms@.len(),
        |i: int|
            Transform {
                x: g.paddle_transforms[i].x,
                y: paddle_y_after(g.paddles[i], g.paddle_transforms[i].y as int, input, dt) as i64,
            },
    )
}

/// Ball positions after the movement pass of the frame.
pub open spec fn frame_moved(g: Pong, dt: int) -> Seq<Transform> {
    Seq::new(g.ball_transforms@.len(), |i: int| moved(g.balls[i], g.ball_transforms[i], dt))
}

/// Balls after the collision pass of the frame.
pub open spec fn frame_bounced(g: Pong, input: InputAxes, dt: int) -> Seq<Ball> {
    Seq::new(
        g.balls@.len(),
        |i: int|
            ball_after_bounce(
                g.balls[i],
                frame_moved(g, dt)[i],
                g.paddles@,
                frame_paddles(g, input, dt),
            ),
    )
}

/// `Bounce` events written in the frame.
pub open spec fn frame_bounces(g: Pong, input: InputAxes, dt: int) -> nat {
    bounces(g.balls@, frame_moved(g, dt), g.paddles@, frame_paddles(g, input, dt), g.balls@.len())
}

/// Points that `side` wins in the frame.
pub open spec fn frame_points(g: Pong, input: InputAxes, dt: int, side: Side) -> nat {
    points(frame_bounced(g, input, dt), frame_moved(g, dt), side, g.balls@.len())
}

/// The whole state of a game: balls and paddles with their positions, the score
/// board and its displays, the event log, and the audio system that reads it.
pub struct Pong {
    pub balls: Vec<Ball>,
    pub ball_transforms: Vec<Transform>,
    pub paddles: Vec<Paddle>,
    pub paddle_transforms: Vec<Transform>,
    pub score_board: ScoreBoard,
    pub score_text: ScoreText,
    pub events: EventLog,
    pub audio: AudioSystem,
}

impl Pong {
    /// Each entity has a position, every ball and paddle is valid and every
    /// ball in play, the scores are in range and the audio cursor is in the log.
    pub open spec fn valid(&self) -> bool {
        &&& self.balls.len() == self.ball_transforms.len()
        &&& self.paddles.len() == self.paddle_transforms.len()
        &&& forall|i: int| 0 <= i < self.balls.len() ==> (#[trigger] self.balls[i]).valid()
        &&& forall|i: int|
            0 <= i < self.balls.len() ==> in_play(#[trigger] self.balls[i], self.ball_transforms[i])
        &&& forall|i: int| 0 <= i < self.paddles.len() ==> (#[trigger] self.paddles[i]).valid()
        &&& self.score_board.valid()
        &&& self.audio.cursor() <= self.events@.len()
    }

    /// A new game: one ball at the centre moving at the initial velocity, a
    /// paddle at each side at mid height, both scores zero.
    pub fn new() -> (r: Pong)
        ensures
            r.valid(),
            r.balls.len() == 1,
            r.balls[0].velocity == (BALL_VELOCITY_X, BALL_VELOCITY_Y),
            r.balls[0].radius == BALL_RADIUS,
            r.ball_transforms[0].x == ARENA_WIDTH / 2,
            r.ball_transforms[0].y == ARENA_HEIGHT / 2,
            r.paddles.len() == 2,
            r.paddles[0] == (Paddle {
                velocity: PADDLE_VELOCITY,
                side: Side::Left,
                width: PADDLE_WIDTH,
                height: PADDLE_HEIGHT,
            }),
            r.paddles[1] == (Paddle {
                velocity: PADDLE_VELOCITY,
                side: Side::Right,
                width: PADDLE_WIDTH,
                height: PADDLE_HEIGHT,
            }),
            r.paddle_transforms[0].x == PADDLE_WIDTH / 2,
            r.paddle_transforms[0].y == ARENA_HEIGHT / 2,
            r.paddle_transforms[1].x == ARENA_WIDTH - PADDLE_WIDTH / 2,
            r.paddle_transforms[1].y == ARENA_HEIGHT / 2,
            r.score_board.score_left == 0,
            r.score_board.score_right == 0,
            r.score_text.p1_score@ == decimal(0),
            r.score_text.p2_score@ == decimal(0),
            r.events@.len() == 0,
    {
        let ball = Ball { velocity: (BALL_VELOCITY_X, BALL_VELOCITY_Y), radius: BALL_RADIUS };
        let left = Paddle {
            velocity: PADDLE_VELOCITY,
            side: Side::Left,
            width: PADDLE_WIDTH,
            height: PADDLE_HEIGHT,
        };
        let right = Paddle {
            velocity: PADDLE_VELOCITY,
            side: Side::Right,
            width: PADDLE_WIDTH,
            height: PADDLE_HEIGHT,
        };
        let score_board = ScoreBoard::new();
        let score_text = ScoreText::new(&score_board);
        let events = EventLog::new();
        let audio = AudioSystem::new(&events);
        let right_x = ARENA_WIDTH - PADDLE_WIDTH / 2;
        Pong {
            balls: vec![ball],
            ball_transforms: vec![Transform { x: ARENA_WIDTH / 2, y: ARENA_HEIGHT / 2 }],
            paddles: vec![left, right],
            paddle_transforms: vec![
                Transform { x: PADDLE_WIDTH / 2, y: ARENA_HEIGHT / 2 },
                Transform { x: right_x, y: ARENA_HEIGHT / 2 },
            ],
            score_board,
            score_text,
            events,
            audio,
        }
    }

    /// One frame of `dt` microseconds: the paddle pass, the movement pass, the
    /// collision pass, the scoring pass, and last the audio pass, which reads
    /// every event written since it last ran and returns the sounds to play.
    pub fn tick(&mut self, input: &InputAxes, dt: i64, can_play: bool) -> (r: Vec<SoundCue>)
        requires
            old(self).valid(),
            0 <= dt <= MAX_FRAME_MICROS,
        ensures
            final(self).valid(),
            final(self).balls.len() == old(self).balls.len(),
            final(self).paddles@ == old(self).paddles@,
            old(self).score_board.score_left <= final(self).score_board.score_left,
            old(self).score_board.score_right <= final(self).score_board.score_right,
            forall|i: int|
                0 <= i < final(self).paddles.len() ==> lowest_y(final(self).paddles[i])
                    <= (#[trigger] final(self).paddle_transforms[i]).y <= highest_y(
                    final(self).paddles[i],
                ),
            final(self).paddle_transforms@ == frame_paddles(*old(self), *input, dt as int),
            forall|i: int|
                0 <= i < old(self).balls.len() ==> #[trigger] final(self).balls[i] == ball_after_score(
                    frame_bounced(*old(self), *input, dt as int)[i],
                    frame_moved(*old(self), dt as int)[i],
                ),
            forall|i: int|
                0 <= i < old(self).balls.len() ==> #[trigger] final(self).ball_transforms[i]
                    == transform_after_score(
                    frame_bounced(*old(self), *input, dt as int)[i],
                    frame_moved(*old(self), dt as int)[i],
                ),
            final(self).score_board.score_left == capped_add(
                old(self).score_board.score_left as int,
                frame_points(*old(self), *input, dt as int, Side::Left),
            ),
            final(self).score_board.score_right == capped_add(
                old(self).score_board.score_right as int,
                frame_points(*old(self), *input, dt as int, Side::Right),
            ),
            frame_points(*old(self), *input, dt as int, Side::Left) > 0
                ==> final(self).score_text.p1_score@ == decimal(final(self).score_board.score_left as int),
            frame_points(*old(self), *input, dt as int, Side::Left) == 0
                ==> final(self).score_text.p1_score@ == old(self).score_text.p1_score@,
            frame_points(*old(self), *input, dt as int, Side::Right) > 0
                ==> final(self).score_text.p2_score@ == decimal(final(self).score_board.score_right as int),
            frame_points(*old(self), *input, dt as int, Side::Right) == 0
                ==> final(self).score_text.p2_score@ == old(self).score_text.p2_score@,
            final(self).events@ == old(self).events@ + repeated(
                PongEvent::Bounce,
                frame_bounces(*old(self), *input, dt as int),
            ) + repeated(
                PongEvent::Score,
                frame_points(*old(self), *input, dt as int, Side::Left) + frame_points(
                    *old(self),
                    *input,
                    dt as int,
                    Side::Right,
                ),
            ),
            final(self).audio.cursor() == final(self).events@.len(),
            can_play ==> r@ == cues(unread(final(self).events@, old(self).audio.cursor())),
            !can_play ==> r@.len() == 0,
    {
        let ghost g0 = *self;
        let ghost ev0 = self.events@;
        let ghost b0 = self.balls@;
        let ghost t0 = self.ball_transforms@;
        PaddleSystem.run(&self.paddles, &mut self.paddle_transforms, input, dt);
        proof {
            assert(self.paddle_transforms@ =~= frame_paddles(g0, *input, dt as int));
            assert forall|i: int| 0 <= i < b0.len() implies crate::move_balls::within_limit(
                #[trigger] t0[i],
            ) by {
                assert(in_play(b0[i], t0[i]));
            }
        }
        MoveBallsSystem.run(&self.balls, &mut self.ball_transforms, dt);
        let ghost t1 = self.ball_transforms@;
        proof {
            assert(t1 =~= frame_moved(g0, dt as int));
        }
        BounceSystem.run(
            &mut self.balls,
            &self.ball_transforms,
            &self.paddles,
            &self.paddle_transforms,
            &mut self.events,
        );
        let ghost b2 = self.balls@;
        proof {
            assert(b2 =~= frame_bounced(g0, *input, dt as int));
        }
        WinnerSystem.run(
            &mut self.balls,
            &mut self.ball_transforms,
            &mut self.score_board,
            &mut self.score_text,
            &mut self.events,
        );
        proof {
            assert forall|i: int| 0 <= i < self.balls.len() implies in_play(
                #[trigger] self.balls[i],
                self.ball_transforms[i],
            ) && self.balls[i].valid() by {
                assert(t1[i] == moved(b0[i], t0[i], dt as int));
                assert(b2[i].velocity.1 != b0[i].velocity.1 <==> wall_contact(b0[i], t1[i]));
                assert(b2[i] == crate::bounce::ball_after_bounce(b0[i], t1[i], self.paddles@, self.paddle_transforms@));
                lemma_frame_keeps_in_play(b0[i], t0[i], dt as int, b2[i]);
            }
            assert(self.events@ =~= ev0 + repeated(
                PongEvent::Bounce,
                frame_bounces(g0, *input, dt as int),
            ) + repeated(
                PongEvent::Score,
                frame_points(g0, *input, dt as int, Side::Left) + frame_points(g0, *input, dt as int, Side::Right),
            ));
        }
        self.audio.run(&self.events, can_play)
    }
}

} // verus!
