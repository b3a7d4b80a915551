// Fixed dimensions of the play field and the numeric scale of the model.
//
// Lengths are held in milli-units (a thousandth of an arena unit), times in
// microseconds and velocities in milli-units per second, all as integers.

use vstd::prelude::*;

verus! {

/// Milli-units in one arena unit.
pub const UNIT: i64 = 1000;

/// Microseconds in one second.
pub const MICROS_PER_SECOND: i64 = 1_000_000;

pub const ARENA_HEIGHT: i64 = 100_000;

pub const ARENA_WIDTH: i64 = 100_000;

pub const PADDLE_HEIGHT: i64 = 16_000;

pub const PADDLE_WIDTH: i64 = 4_000;

pub const PADDLE_VELOCITY: i64 = 75_000;

pub const BALL_VELOCITY_X: i64 = 75_000;

pub const BALL_VELOCITY_Y: i64 = 50_000;

pub const BALL_RADIUS: i64 = 2_000;

/// Largest magnitude of a velocity component (a million arena units per second).
pub const MAX_SPEED: i64 = 1_000_000_000;

/// Longest frame that a pass accepts (9000 seconds), the most that keeps
/// `MAX_SPEED * MAX_FRAME_MICROS` within `i64`.
pub const MAX_FRAME_MICROS: i64 = 9_000_000_000;

/// Largest distance a ball travels in one frame: `MAX_SPEED` for `MAX_FRAME_MICROS`.
pub const MAX_STEP: i64 = 9_000_000_000_000;

/// Highest value a score reaches.
pub const MAX_SCORE: i32 = 999;

/// An input axis value of one in thousandths: full deflection.
pub const AXIS_SCALE: i64 = 1000;

/// Largest magnitude of a ball coordinate that the movement pass accepts.
pub const POSITION_LIMIT: i64 = 1_000_000_000_000_000_000;

/// `a / d` rounded toward zero, for positive `d`.
pub open spec fn div_toward_zero(a: int, d: int) -> int {
    if a >= 0 {
        a / d
    } else {
        -((-a) / d)
    }
}

/// Distance covered at velocity `v` (milli-units per second) in `dt`
/// microseconds, truncated toward zero.
pub open spec fn travel(v: int, dt: int) -> int {
    div_toward_zero(v * dt, MICROS_PER_SECOND as int)
}

/// Travel has the sign of the velocity and is at most `MAX_STEP` either way;
/// the product of speed and time stays within `MAX_SPEED * MAX_FRAME_MICROS`.
pub proof fn lemma_travel_bounds(v: int, dt: int)
    requires
        -MAX_SPEED <= v <= MAX_SPEED,
        0 <= dt <= MAX_FRAME_MICROS,
    ensures
        -MAX_SPEED * MAX_FRAME_MICROS <= v * dt <= MAX_SPEED * MAX_FRAME_MICROS,
        (-v) * dt == -(v * dt),
        -MAX_STEP <= travel(v, dt) <= MAX_STEP,
        v >= 0 ==> travel(v, dt) >= 0,
        v <= 0 ==> travel(v, dt) <= 0,
{
    let m: int = if v >= 0 { v } else { -v };
    assert((-v) * dt == -(v * dt)) by (nonlinear_arith);
    assert(v >= 0 ==> v * dt >= 0) by (nonlinear_arith)
        requires 0 <= dt;
    assert(v < 0 ==> v * dt <= 0) by (nonlinear_arith)
        requires 0 <= dt;
    assert(0 <= m * dt <= MAX_SPEED * MAX_FRAME_MICROS) by (nonlinear_arith)
        requires
            0 <= m <= MAX_SPEED,
            0 <= dt <= MAX_FRAME_MICROS,
    ;
    let p: int = m * dt;
    assert(p / 1_000_000 <= 9_000_000_000_000) by (nonlinear_arith)
        requires
            0 <= p <= 9_000_000_000_000_000_000,
    ;
    assert(0 <= p / 1_000_000) by (nonlinear_arith)
        requires 0 <= p;
    assert(v <= 0 && v * dt >= 0 ==> v * dt == 0) by (nonlinear_arith)
        requires 0 <= dt;
}

/// Computes `travel(v, dt)`.
pub fn travel_exec(v: i64, dt: i64) -> (r: i64)
    requires
        -MAX_SPEED <= v <= MAX_SPEED,
        0 <= dt <= MAX_FRAME_MICROS,
    ensures
        r == travel(v as int, dt as int),
        -MAX_STEP <= r <= MAX_STEP,
{
    proof {
        lemma_travel_bounds(v as int, dt as int);
    }
    let m: i64 = if v >= 0 { v } else { -v };
    let d = (m * dt) / MICROS_PER_SECOND;
    if v >= 0 {
        d
    } else {
        -d
    }
}

} // verus!
