// The scoring pass: a ball that reaches the left or the right edge gives a
// point to the player on the other side and is sent back from the centre line.

use vstd::prelude::*;
use crate::arena::{ARENA_WIDTH, MAX_SCORE};
use crate::components::{decimal, Ball, ScoreBoard, ScoreText, Side, Transform};
use crate::event::{repeated, EventLog, PongEvent};

verus! {

/// Who scores with ball `b` at `t`: the right player when it reaches the left
/// edge, else the left player when it reaches the right edge, else nobody.
pub open spec fn scorer(b: Ball, t: Transform) -> Option<Side> {
    if t.x <= b.radius {
        Some(Side::Right)
    } else if t.x >= ARENA_WIDTH - b.radius {
        Some(Side::Left)
    } else {
        None
    }
}

/// The ball after the pass: its horizontal velocity negated when it scored.
pub open spec fn ball_after_score(b: Ball, t: Transform) -> Ball {
    if scorer(b, t) is Some {
        Ball { velocity: ((-b.velocity.0) as i64, b.velocity.1), radius: b.radius }
    } else {
        b
    }
}

/// The ball's position after the pass: on the centre line when it scored.
pub open spec fn transform_after_score(b: Ball, t: Transform) -> Transform {
    if scorer(b, t) is Some {
        Transform { x: (ARENA_WIDTH / 2) as i64, y: t.y }
    } else {
        t
    }
}

/// Points that `side` wins with the first `n` balls.
pub open spec fn points(balls: Seq<Ball>, ts: Seq<Transform>, side: Side, n: nat) -> nat
    decreases n,
{
    if n == 0 {
        0
    } else {
        points(balls, ts, side, (n - 1) as nat) + if scorer(balls[n - 1], ts[n - 1]) == Some(side) {
            1nat
        } else {
            0nat
        }
    }
}

/// `s` raised by `k`, but not above `MAX_SCORE`.
pub open spec fn capped_add(s: int, k: nat) -> int {
    if s + k > MAX_SCORE {
        MAX_SCORE as int
    } else {
        s + k
    }
}

/// Both scoring conditions never hold of one valid ball at once.
pub proof fn lemma_scoring_exclusive(b: Ball, t: Transform)
    requires
        b.valid(),
    ensures
        !(t.x <= b.radius && t.x >= ARENA_WIDTH - b.radius),
{
}

/// Checks each ball for a point scored.
pub struct WinnerSystem;

impl WinnerSystem {
    /// For each ball, in order: when `scorer` names a player, that player's score
    /// rises by one (not above `MAX_SCORE`) and is shown on its display, the
    /// ball's horizontal velocity is negated, it moves to the centre line, and
    /// a `Score` event is written.
    pub fn run(
        &self,
        balls: &mut Vec<Ball>,
        transforms: &mut Vec<Transform>,
        score_board: &mut ScoreBoard,
        score_text: &mut ScoreText,
        events: &mut EventLog,
    )
        requires
            old(balls).len() == old(transforms).len(),
            forall|i: int| 0 <= i < old(balls).len() ==> (#[trigger] old(balls)[i]).valid(),
            old(score_board).valid(),
        ensures
            final(balls).len() == old(balls).len(),
            final(transforms).len() == old(transforms).len(),
            forall|i: int|
                0 <= i < old(balls).len() ==> #[trigger] final(balls)[i] == ball_after_score(
                    old(balls)[i],
                    old(transforms)[i],
                ),
            forall|i: int|
                0 <= i < old(balls).len() ==> #[trigger] final(transforms)[i]
                    == transform_after_score(old(balls)[i], old(transforms)[i]),
            forall|i: int|
                0 <= i < old(balls).len() && (scorer(old(balls)[i], old(transforms)[i]) is Some)
                    ==> (#[trigger] final(transforms)[i]).x == ARENA_WIDTH / 2
                    && final(balls)[i].velocity.0 == -old(balls)[i].velocity.0,
            final(score_board).score_left == capped_add(
                old(score_board).score_left as int,
                points(old(balls)@, old(transforms)@, Side::Left, old(balls).len() as nat),
            ),
            final(score_board).score_right == capped_add(
                old(score_board).score_right as int,
                points(old(balls)@, old(transforms)@, Side::Right, old(balls).len() as nat),
            ),
            final(score_board).valid(),
            old(score_board).score_left <= final(score_board).score_left,
            old(score_board).score_right <= final(score_board).score_right,
            final(events)@ == old(events)@ + repeated(
                PongEvent::Score,
                points(old(balls)@, old(transforms)@, Side::Left, old(balls).len() as nat)
                    + points(old(balls)@, old(transforms)@, Side::Right, old(balls).len() as nat),
            ),
            points(old(balls)@, old(transforms)@, Side::Left, old(balls).len() as nat) > 0
                ==> final(score_text).p1_score@ == decimal(final(score_board).score_left as int),
            points(old(balls)@, old(transforms)@, Side::Left, old(balls).len() as nat) == 0
                ==> final(score_text).p1_score@ == old(score_text).p1_score@,
            points(old(balls)@, old(transforms)@, Side::Right, old(balls).len() as nat) > 0
                ==> final(score_text).p2_score@ == decimal(final(score_board).score_right as int),
            points(old(balls)@, old(transforms)@, Side::Right, old(balls).len() as nat) == 0
                ==> final(score_text).p2_score@ == old(score_text).p2_score@,
    {
        let ghost b0 = balls@;
        let ghost t0 = transforms@;
        let n = balls.len();
        let mut i: usize = 0;
        while i < n
            invariant
                n == b0.len(),
                b0.len() == t0.len(),
                balls.len() == n,
                transforms.len() == n,
                0 <= i <= n,
                forall|j: int| 0 <= j < n ==> (#[trigger] b0[j]).valid(),
                forall|j: int| 0 <= j < i ==> #[trigger] balls[j] == ball_after_score(b0[j], t0[j]),
                forall|j: int|
                    0 <= j < i ==> #[trigger] transforms[j] == transform_after_score(b0[j], t0[j]),
                forall|j: int| i <= j < n ==> #[trigger] balls[j] == b0[j],
                forall|j: int| i <= j < n ==> #[trigger] transforms[j] == t0[j],
                score_board.score_left == capped_add(
                    old(score_board).score_left as int,
                    points(b0, t0, Side::Left, i as nat),
                ),
                score_board.score_right == capped_add(
                    old(score_board).score_right as int,
                    points(b0, t0, Side::Right, i as nat),
                ),
                score_board.valid(),
                old(score_board).valid(),
                events@ == old(events)@ + repeated(
                    PongEvent::Score,
                    points(b0, t0, Side::Left, i as nat) + points(b0, t0, Side::Right, i as nat),
                ),
                points(b0, t0, Side::Left, i as nat) > 0 ==> score_text.p1_score@ == decimal(
                    score_board.score_left as int,
                ),
                points(b0, t0, Side::Left, i as nat) == 0 ==> score_text.p1_score@ == old(
                    score_text,
                ).p1_score@,
                points(b0, t0, Side::Right, i as nat) > 0 ==> score_text.p2_score@ == decimal(
                    score_board.score_right as int,
                ),
                points(b0, t0, Side::Right, i as nat) == 0 ==> score_text.p2_score@ == old(
                    score_text,
                ).p2_score@,
            decreases n - i,
        {
            let mut ball = balls[i];
            let mut transform = transforms[i];
            let did_hit = if transform.x <= ball.radius {
                score_board.score_right = if score_board.score_right < MAX_SCORE {
                    score_board.score_right + 1
                } else {
                    MAX_SCORE
                };
                score_text.show(Side::Right, score_board.score_right);
                true
            } else if transform.x >= ARENA_WIDTH - ball.radius {
                score_board.score_left = if score_board.score_left < MAX_SCORE {
                    score_board.score_left + 1
                } else {
                    MAX_SCORE
                };
                score_text.show(Side::Left, score_board.score_left);
                true
            } else {
                false
            };
            if did_hit {
                ball.velocity.0 = -ball.velocity.0;
                transform.x = ARENA_WIDTH / 2;
                events.single_write(PongEvent::Score);
            }
            balls.set(i, ball);
            transforms.set(i, transform);
            proof {
                let pl = points(b0, t0, Side::Left, i as nat);
                let pr = points(b0, t0, Side::Right, i as nat);
                assert(points(b0, t0, Side::Left, (i + 1) as nat) == pl + if scorer(b0[i as int], t0[i as int]) == Some(Side::Left) { 1nat } else { 0nat });
                assert(points(b0, t0, Side::Right, (i + 1) as nat) == pr + if scorer(b0[i as int], t0[i as int]) == Some(Side::Right) { 1nat } else { 0nat });
                if did_hit {
                    assert(events@ =~= old(events)@ + repeated(
                        PongEvent::Score,
                        points(b0, t0, Side::Left, (i + 1) as nat) + points(b0, t0, Side::Right, (i + 1) as nat),
                    ));
                }
            }
            i = i + 1;
        }
    }
}

} // verus!
