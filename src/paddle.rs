// The paddle pass: each paddle follows its player's input axis and stays
// inside the arena.

use vstd::prelude::*;
use crate::arena::{div_toward_zero, ARENA_HEIGHT, AXIS_SCALE, MAX_FRAME_MICROS, MAX_SPEED, MICROS_PER_SECOND};
use crate::components::{Paddle, Side, Transform};

verus! {

/// Input axis values for this frame, in thousandths (`AXIS_SCALE` is full
/// deflection), read under the names `"left_paddle"` and `"right_paddle"`;
/// `None` where the axis has no binding.
#[derive(Clone, Copy, Debug)]
pub struct InputAxes {
    pub left_paddle: Option<i64>,
    pub right_paddle: Option<i64>,
}

/// The axis value that drives the paddle of `side`, zero when absent.
pub open spec fn axis_for(input: InputAxes, side: Side) -> int {
    let a = match side {
        Side::Left => input.left_paddle,
        Side::Right => input.right_paddle,
    };
    match a {
        Some(v) => v as int,
        None => 0,
    }
}

/// Vertical displacement of a paddle of speed `v` under axis value `axis` over
/// `dt` microseconds, truncated toward zero.
pub open spec fn displacement(axis: int, v: int, dt: int) -> int {
    div_toward_zero(axis * v * dt, AXIS_SCALE * MICROS_PER_SECOND)
}

/// `y` limited to `lo ..= hi`.
pub open spec fn clamp(y: int, lo: int, hi: int) -> int {
    if y < lo {
        lo
    } else if y > hi {
        hi
    } else {
        y
    }
}

/// Half the height of paddle `p`, rounded up: the margin it keeps from each wall.
pub open spec fn half_height(p: Paddle) -> int {
    (p.height + 1) / 2
}

/// Lowest centre height that keeps paddle `p` inside the arena.
pub open spec fn lowest_y(p: Paddle) -> int {
    half_height(p)
}

/// Highest centre height that keeps paddle `p` inside the arena.
pub open spec fn highest_y(p: Paddle) -> int {
    ARENA_HEIGHT - half_height(p)
}

/// Centre height of paddle `p`, at height `y`, after the pass.
pub open spec fn paddle_y_after(p: Paddle, y: int, input: InputAxes, dt: int) -> int {
    clamp(y + displacement(axis_for(input, p.side), p.velocity as int, dt), lowest_y(p), highest_y(p))
}

/// Computes `paddle_y_after(p, y, input, dt)`.
fn move_paddle(p: Paddle, y: i64, input: &InputAxes, dt: i64) -> (r: i64)
    requires
        p.valid(),
        0 <= dt <= MAX_FRAME_MICROS,
    ensures
        r == paddle_y_after(p, y as int, *input, dt as int),
{
    let axis: i64 = match p.side {
        Side::Left => match input.left_paddle {
            Some(v) => v,
            None => 0,
        },
        Side::Right => match input.right_paddle {
            Some(v) => v,
            None => 0,
        },
    };
    let a = axis as i128;
    let m: i128 = if a >= 0 { a } else { -a };
    let v = p.velocity as i128;
    let t = dt as i128;
    proof {
        assert(0 <= m * v <= 0x8000_0000_0000_0000 * 1_000_000_000) by (nonlinear_arith)
            requires
                0 <= m <= 0x8000_0000_0000_0000,
                0 <= v <= 1_000_000_000,
        ;
        assert(0 <= m * v * t <= 0x8000_0000_0000_0000 * 1_000_000_000 * 9_000_000_000) by (nonlinear_arith)
            requires
                0 <= m * v <= 0x8000_0000_0000_0000 * 1_000_000_000,
                0 <= t <= 9_000_000_000,
        ;
        assert(a < 0 ==> m * v * t == -(a * v * t)) by (nonlinear_arith)
            requires (a >= 0 ==> m == a), (a < 0 ==> m == -a);
        assert(a >= 0 ==> m * v * t == a * v * t) by (nonlinear_arith)
            requires (a >= 0 ==> m == a), (a < 0 ==> m == -a);
        assert(a >= 0 ==> a * v * t >= 0) by (nonlinear_arith)
            requires 0 <= v, 0 <= t;
        assert(a < 0 ==> a * v * t <= 0) by (nonlinear_arith)
            requires 0 <= v, 0 <= t;
    }
    let q = (m * v * t) / ((AXIS_SCALE as i128) * (MICROS_PER_SECOND as i128));
    let d: i128 = if a >= 0 { q } else { -q };
    let target = y as i128 + d;
    let half = p.height / 2 + p.height % 2;
    let lo = half as i128;
    let hi = (ARENA_HEIGHT - half) as i128;
    let c = if target < lo {
        lo
    } else if target > hi {
        hi
    } else {
        target
    };
    c as i64
}

/// Moves the paddles by their input axes.
pub struct PaddleSystem;

impl PaddleSystem {
    /// Each paddle's centre rises by its axis value (`"left_paddle"` for the
    /// left paddle, `"right_paddle"` for the right one, zero when absent) times
    /// its speed times the frame time, and is then limited so that the whole
    /// paddle lies between `0` and `ARENA_HEIGHT`. Horizontal positions do not
    /// change.
    pub fn run(&self, paddles: &Vec<Paddle>, transforms: &mut Vec<Transform>, input: &InputAxes, dt: i64)
        requires
            paddles.len() == old(transforms).len(),
            forall|i: int| 0 <= i < paddles.len() ==> (#[trigger] paddles[i]).valid(),
            0 <= dt <= MAX_FRAME_MICROS,
        ensures
            final(transforms).len() == old(transforms).len(),
            forall|i: int|
                0 <= i < paddles.len() ==> (#[trigger] final(transforms)[i]).x == old(transforms)[i].x,
            forall|i: int|
                0 <= i < paddles.len() ==> (#[trigger] final(transforms)[i]).y == paddle_y_after(
                    paddles[i],
                    old(transforms)[i].y as int,
                    *input,
                    dt as int,
                ),
            forall|i: int|
                0 <= i < paddles.len() ==> lowest_y(paddles[i]) <= (#[trigger] final(transforms)[i]).y
                    <= highest_y(paddles[i]),
            forall|i: int|
                0 <= i < paddles.len() ==> paddles[i].height <= 2 * (#[trigger] final(transforms)[i]).y
                    <= 2 * ARENA_HEIGHT - paddles[i].height,
    {
        let ghost t0 = transforms@;
        let n = paddles.len();
        let mut i: usize = 0;
        while i < n
            invariant
                n == paddles.len(),
                transforms.len() == n,
                t0.len() == n,
                0 <= dt <= MAX_FRAME_MICROS,
                forall|j: int| 0 <= j < n ==> (#[trigger] paddles[j]).valid(),
                0 <= i <= n,
                forall|j: int| 0 <= j < i ==> (#[trigger] transforms[j]).x == t0[j].x,
                forall|j: int|
                    0 <= j < i ==> (#[trigger] transforms[j]).y == paddle_y_after(
                        paddles[j],
                        t0[j].y as int,
                        *input,
                        dt as int,
                    ),
                forall|j: int| i <= j < n ==> #[trigger] transforms[j] == t0[j],
            decreases n - i,
        {
            let t = transforms[i];
            let y = move_paddle(paddles[i], t.y, input, dt);
            transforms.set(i, Transform { x: t.x, y });
            i = i + 1;
        }
    }
}

} // verus!
