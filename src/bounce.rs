// The collision pass: a ball that meets the top or bottom wall, or a paddle it
// moves toward, has the matching velocity component negated.

use vstd::prelude::*;
use crate::arena::{ARENA_HEIGHT, MAX_SPEED};
use crate::components::{Ball, Paddle, Side, Transform};
use crate::event::{repeated, EventLog, PongEvent};

verus! {

/// Ball `b` at `t` touches the bottom wall while moving down, or the top wall
/// while moving up.
pub open spec fn wall_contact(b: Ball, t: Transform) -> bool {
    (t.y <= b.radius && b.velocity.1 < 0) || (t.y >= ARENA_HEIGHT - b.radius && b.velocity.1 > 0)
}

/// A ball of radius `r` centred at `t` overlaps paddle `p` centred at `pt`:
/// its centre lies in the paddle's rectangle widened by `r` on every side.
pub open spec fn touches_paddle(t: Transform, r: int, p: Paddle, pt: Transform) -> bool {
    let left = pt.x - p.width / 2;
    let bottom = pt.y - p.height / 2;
    &&& left - r <= t.x <= left + p.width + r
    &&& bottom - r <= t.y <= bottom + p.height + r
}

/// Horizontal velocity `vx` carries the ball toward the side that `p` guards.
pub open spec fn moving_toward(p: Paddle, vx: int) -> bool {
    (p.side == Side::Left && vx < 0) || (p.side == Side::Right && vx > 0)
}

/// The ball, at `t` with radius `r` and horizontal velocity `vx`, bounces off `p`.
pub open spec fn paddle_hit(t: Transform, r: int, vx: int, p: Paddle, pt: Transform) -> bool {
    touches_paddle(t, r, p, pt) && moving_toward(p, vx)
}

/// Horizontal velocity after testing the first `k` paddles in turn, each test
/// seeing the velocity that the earlier ones left.
pub open spec fn vx_after_paddles(
    t: Transform,
    r: int,
    vx: int,
    ps: Seq<Paddle>,
    pts: Seq<Transform>,
    k: nat,
) -> int
    decreases k,
{
    if k == 0 {
        vx
    } else {
        let v = vx_after_paddles(t, r, vx, ps, pts, (k - 1) as nat);
        if paddle_hit(t, r, v, ps[k - 1], pts[k - 1]) {
            -v
        } else {
            v
        }
    }
}

/// Paddle bounces among the first `k` paddles.
pub open spec fn paddle_hits(
    t: Transform,
    r: int,
    vx: int,
    ps: Seq<Paddle>,
    pts: Seq<Transform>,
    k: nat,
) -> nat
    decreases k,
{
    if k == 0 {
        0
    } else {
        let v = vx_after_paddles(t, r, vx, ps, pts, (k - 1) as nat);
        paddle_hits(t, r, vx, ps, pts, (k - 1) as nat) + if paddle_hit(
            t,
            r,
            v,
            ps[k - 1],
            pts[k - 1],
        ) {
            1nat
        } else {
            0nat
        }
    }
}

/// The ball after the pass.
pub open spec fn ball_after_bounce(b: Ball, t: Transform, ps: Seq<Paddle>, pts: Seq<Transform>) -> Ball {
    Ball {
        velocity: (
            vx_after_paddles(t, b.radius as int, b.velocity.0 as int, ps, pts, ps.len()) as i64,
            if wall_contact(b, t) {
                (-b.velocity.1) as i64
            } else {
                b.velocity.1
            },
        ),
        radius: b.radius,
    }
}

/// `Bounce` events that one ball raises: one for a wall, one for each paddle.
pub open spec fn ball_bounces(b: Ball, t: Transform, ps: Seq<Paddle>, pts: Seq<Transform>) -> nat {
    (if wall_contact(b, t) {
        1nat
    } else {
        0nat
    }) + paddle_hits(t, b.radius as int, b.velocity.0 as int, ps, pts, ps.len())
}

/// `Bounce` events that the first `n` balls raise.
pub open spec fn bounces(
    balls: Seq<Ball>,
    ts: Seq<Transform>,
    ps: Seq<Paddle>,
    pts: Seq<Transform>,
    n: nat,
) -> nat
    decreases n,
{
    if n == 0 {
        0
    } else {
        bounces(balls, ts, ps, pts, (n - 1) as nat) + ball_bounces(balls[n - 1], ts[n - 1], ps, pts)
    }
}

/// Bounces one ball off the walls and the paddles and writes its events.
fn bounce_ball(
    ball: Ball,
    t: Transform,
    paddles: &Vec<Paddle>,
    paddle_transforms: &Vec<Transform>,
    events: &mut EventLog,
) -> (r: Ball)
    requires
        ball.valid(),
        paddles.len() == paddle_transforms.len(),
        forall|j: int| 0 <= j < paddles.len() ==> (#[trigger] paddles[j]).valid(),
    ensures
        r == ball_after_bounce(ball, t, paddles@, paddle_transforms@),
        r.valid(),
        final(events)@ == old(events)@ + repeated(
            PongEvent::Bounce,
            ball_bounces(ball, t, paddles@, paddle_transforms@),
        ),
{
    let mut vy = ball.velocity.1;
    if (t.y <= ball.radius && vy < 0) || (t.y >= ARENA_HEIGHT - ball.radius && vy > 0) {
        vy = -vy;
        events.single_write(PongEvent::Bounce);
    }
    let ghost after_wall = events@;
    let ghost ps = paddles@;
    let ghost pts = paddle_transforms@;
    let ghost r = ball.radius as int;
    let ghost vx0 = ball.velocity.0 as int;
    let mut vx = ball.velocity.0;
    let n = paddles.len();
    let mut k: usize = 0;
    while k < n
        invariant
            n == ps.len(),
            ps.len() == pts.len(),
            paddles@ == ps,
            paddle_transforms@ == pts,
            forall|j: int| 0 <= j < n ==> (#[trigger] ps[j]).valid(),
            r == ball.radius,
            vx0 == ball.velocity.0,
            0 <= k <= n,
            -MAX_SPEED <= vx <= MAX_SPEED,
            vx == vx_after_paddles(t, r, vx0, ps, pts, k as nat),
            events@ == after_wall + repeated(
                PongEvent::Bounce,
                paddle_hits(t, r, vx0, ps, pts, k as nat),
            ),
        decreases n - k,
    {
        let p = paddles[k];
        let pt = paddle_transforms[k];
        let left: i128 = pt.x as i128 - (p.width / 2) as i128;
        let bottom: i128 = pt.y as i128 - (p.height / 2) as i128;
        let rr = ball.radius as i128;
        let bx = t.x as i128;
        let by = t.y as i128;
        let inside = left - rr <= bx && bx <= left + p.width as i128 + rr && bottom - rr <= by
            && by <= bottom + p.height as i128 + rr;
        let toward = (p.side == Side::Left && vx < 0) || (p.side == Side::Right && vx > 0);
        proof {
            assert(p == ps[k as int]);
            assert(inside == touches_paddle(t, r, p, pt));
            assert(toward == moving_toward(p, vx as int));
        }
        if inside && toward {
            vx = -vx;
            events.single_write(PongEvent::Bounce);
        }
        proof {
            assert(events@ =~= after_wall + repeated(
                PongEvent::Bounce,
                paddle_hits(t, r, vx0, ps, pts, (k + 1) as nat),
            ));
        }
        k = k + 1;
    }
    proof {
        assert(events@ =~= old(events)@ + repeated(
            PongEvent::Bounce,
            ball_bounces(ball, t, paddles@, paddle_transforms@),
        ));
    }
    Ball { velocity: (vx, vy), radius: ball.radius }
}

/// Reflects balls off the walls and the paddles.
pub struct BounceSystem;

impl BounceSystem {
    /// For each ball, in order: when it touches the bottom wall moving down or
    /// the top wall moving up, its vertical velocity is negated and a `Bounce`
    /// is written; then for each paddle in turn, when the ball overlaps it while
    /// moving toward its side, its horizontal velocity is negated and a
    /// `Bounce` is written. Positions do not change.
    pub fn run(
        &self,
        balls: &mut Vec<Ball>,
        transforms: &Vec<Transform>,
        paddles: &Vec<Paddle>,
        paddle_transforms: &Vec<Transform>,
        events: &mut EventLog,
    )
        requires
            old(balls).len() == transforms.len(),
            paddles.len() == paddle_transforms.len(),
            forall|i: int| 0 <= i < old(balls).len() ==> (#[trigger] old(balls)[i]).valid(),
            forall|j: int| 0 <= j < paddles.len() ==> (#[trigger] paddles[j]).valid(),
        ensures
            final(balls).len() == old(balls).len(),
            forall|i: int|
                0 <= i < old(balls).len() ==> #[trigger] final(balls)[i] == ball_after_bounce(
                    old(balls)[i],
                    transforms[i],
                    paddles@,
                    paddle_transforms@,
                ),
            forall|i: int|
                0 <= i < old(balls).len() ==> ((#[trigger] final(balls)[i]).velocity.1
                    != old(balls)[i].velocity.1 <==> wall_contact(old(balls)[i], transforms[i])),
            forall|i: int| 0 <= i < old(balls).len() ==> (#[trigger] final(balls)[i]).valid(),
            final(events)@ == old(events)@ + repeated(
                PongEvent::Bounce,
                bounces(old(balls)@, transforms@, paddles@, paddle_transforms@, old(balls).len() as nat),
            ),
    {
        let ghost b0 = balls@;
        let n = balls.len();
        let mut i: usize = 0;
        while i < n
            invariant
                n == b0.len(),
                b0.len() == transforms.len(),
                paddles.len() == paddle_transforms.len(),
                forall|j: int| 0 <= j < paddles.len() ==> (#[trigger] paddles[j]).valid(),
                balls.len() == n,
                0 <= i <= n,
                forall|j: int| 0 <= j < n ==> (#[trigger] b0[j]).valid(),
                forall|j: int|
                    0 <= j < i ==> #[trigger] balls[j] == ball_after_bounce(
                        b0[j],
                        transforms[j],
                        paddles@,
                        paddle_transforms@,
                    ),
                forall|j: int| 0 <= j < i ==> (#[trigger] balls[j]).valid(),
                forall|j: int| i <= j < n ==> #[trigger] balls[j] == b0[j],
                events@ == old(events)@ + repeated(
                    PongEvent::Bounce,
                    bounces(b0, transforms@, paddles@, paddle_transforms@, i as nat),
                ),
            decreases n - i,
        {
            let b = bounce_ball(balls[i], transforms[i], paddles, paddle_transforms, events);
            balls.set(i, b);
            proof {
                assert(events@ =~= old(events)@ + repeated(
                    PongEvent::Bounce,
                    bounces(b0, transforms@, paddles@, paddle_transforms@, (i + 1) as nat),
                ));
            }
            i = i + 1;
        }
    }
}

} // verus!
