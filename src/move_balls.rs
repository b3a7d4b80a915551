// The movement pass: each ball advances by its velocity over the frame time.

use vstd::prelude::*;
use crate::arena::{travel, travel_exec, MAX_FRAME_MICROS, POSITION_LIMIT};
use crate::components::{Ball, Transform};

verus! {

/// Position of ball `b` at `t` after `dt` microseconds.
pub open spec fn moved(b: Ball, t: Transform, dt: int) -> Transform {
    Transform {
        x: (t.x + travel(b.velocity.0 as int, dt)) as i64,
        y: (t.y + travel(b.velocity.1 as int, dt)) as i64,
    }
}

/// Both coordinates of `t` lie within `POSITION_LIMIT` of the origin.
pub open spec fn within_limit(t: Transform) -> bool {
    -POSITION_LIMIT <= t.x <= POSITION_LIMIT && -POSITION_LIMIT <= t.y <= POSITION_LIMIT
}

/// Advances the balls.
pub struct MoveBallsSystem;

impl MoveBallsSystem {
    /// Each ball's position gains its velocity times the frame time, on both
    /// axes, with no regard to walls or paddles.
    pub fn run(&self, balls: &Vec<Ball>, transforms: &mut Vec<Transform>, dt: i64)
        requires
            balls.len() == old(transforms).len(),
            forall|i: int| 0 <= i < balls.len() ==> (#[trigger] balls[i]).valid(),
            forall|i: int| 0 <= i < balls.len() ==> within_limit(#[trigger] old(transforms)[i]),
            0 <= dt <= MAX_FRAME_MICROS,
        ensures
            final(transforms).len() == old(transforms).len(),
            forall|i: int|
                0 <= i < balls.len() ==> #[trigger] final(transforms)[i] == moved(
                    balls[i],
                    old(transforms)[i],
                    dt as int,
                ),
    {
        let ghost t0 = transforms@;
        let n = balls.len();
        let mut i: usize = 0;
        while i < n
            invariant
                n == balls.len(),
                transforms.len() == n,
                t0.len() == n,
                0 <= dt <= MAX_FRAME_MICROS,
                forall|j: int| 0 <= j < n ==> (#[trigger] balls[j]).valid(),
                forall|j: int| 0 <= j < n ==> within_limit(#[trigger] t0[j]),
                0 <= i <= n,
                forall|j: int| 0 <= j < i ==> #[trigger] transforms[j] == moved(balls[j], t0[j], dt as int),
                forall|j: int| i <= j < n ==> #[trigger] transforms[j] == t0[j],
            decreases n - i,
        {
            let b = balls[i];
            let t = transforms[i];
            let dx = travel_exec(b.velocity.0, dt);
            let dy = travel_exec(b.velocity.1, dt);
            transforms.set(i, Transform { x: t.x + dx, y: t.y + dy });
            i = i + 1;
        }
    }
}

} // verus!
