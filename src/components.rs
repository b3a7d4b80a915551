// The entity state that the passes read and write: balls, paddles, their
// positions, the score board and the score display.

use vstd::prelude::*;
use crate::arena::{ARENA_HEIGHT, ARENA_WIDTH, MAX_SCORE, MAX_SPEED, UNIT};

verus! {

/// Which end of the arena a paddle guards.
#[derive(Clone, Copy, Debug, PartialEq, Eq, Structural)]
pub enum Side {
    Left,
    Right,
}

/// A position in the arena, in milli-units.
#[derive(Clone, Copy, Debug, PartialEq, Eq, Structural)]
pub struct Transform {
    pub x: i64,
    pub y: i64,
}

/// A ball: its velocity in milli-units per second and its radius in milli-units.
/// Its position is held by a `Transform` beside it.
#[derive(Clone, Copy, Debug)]
pub struct Ball {
    pub velocity: (i64, i64),
    pub radius: i64,
}

impl Ball {
    /// A positive radius that fits twice across the arena, and bounded velocity.
    pub open spec fn valid(self) -> bool {
        &&& 0 < self.radius
        &&& 2 * self.radius < ARENA_WIDTH
        &&& 2 * self.radius < ARENA_HEIGHT
        &&& -MAX_SPEED <= self.velocity.0 <= MAX_SPEED
        &&& -MAX_SPEED <= self.velocity.1 <= MAX_SPEED
    }
}

/// A paddle: the speed at which it follows its input axis, its side, and its size.
#[derive(Clone, Copy, Debug, PartialEq, Eq, Structural)]
pub struct Paddle {
    pub velocity: i64,
    pub side: Side,
    pub width: i64,
    pub height: i64,
}

impl Paddle {
    /// A paddle of one unit in each dimension that moves one unit per second.
    pub fn new(side: Side) -> (r: Paddle)
        ensures
            r.side == side,
            r.velocity == UNIT,
            r.width == UNIT,
            r.height == UNIT,
            r.valid(),
    {
        Paddle { velocity: UNIT, side, width: UNIT, height: UNIT }
    }

    /// A non-negative bounded speed and a size that fits in the arena.
    pub open spec fn valid(self) -> bool {
        &&& 0 <= self.velocity <= MAX_SPEED
        &&& 0 < self.width <= ARENA_WIDTH
        &&& 0 < self.height <= ARENA_HEIGHT
    }
}

/// Points of each player.
#[derive(Clone, Copy, Debug, PartialEq, Eq, Structural)]
pub struct ScoreBoard {
    pub score_left: i32,
    pub score_right: i32,
}

impl ScoreBoard {
    /// Both scores at zero.
    pub fn new() -> (r: ScoreBoard)
        ensures
            r.score_left == 0,
            r.score_right == 0,
            r.valid(),
    {
        ScoreBoard { score_left: 0, score_right: 0 }
    }

    /// Both scores lie in `0 ..= MAX_SCORE`.
    pub open spec fn valid(self) -> bool {
        &&& 0 <= self.score_left <= MAX_SCORE
        &&& 0 <= self.score_right <= MAX_SCORE
    }
}

/// A decimal digit as a character.
pub open spec fn digit_char(d: nat) -> char {
    seq!['0', '1', '2', '3', '4', '5', '6', '7', '8', '9'][d as int]
}

/// The decimal digits of `n`, most significant first, without leading zeros.
pub open spec fn digits(n: nat) -> Seq<char>
    decreases n,
{
    if n < 10 {
        seq![digit_char(n)]
    } else {
        digits(n / 10).push(digit_char(n % 10))
    }
}

/// `n` written in decimal, with a leading `-` when negative.
pub open spec fn decimal(n: int) -> Seq<char> {
    if n < 0 {
        seq!['-'].add(digits((-n) as nat))
    } else {
        digits(n as nat)
    }
}

/// Relies on `i32`'s `Display` through `ToString::to_string`: the number in
/// decimal, with a leading `-` when negative.
#[verifier::external_body]
fn score_string(n: i32) -> (r: String)
    ensures
        r@ == decimal(n as int),
{
    n.to_string()
}

/// The text shown by the two score displays: `p1_score` for the left player,
/// `p2_score` for the right one.
#[derive(Debug)]
pub struct ScoreText {
    pub p1_score: String,
    pub p2_score: String,
}

impl ScoreText {
    /// Displays that show the scores of `board`.
    pub fn new(board: &ScoreBoard) -> (r: ScoreText)
        ensures
            r.p1_score@ == decimal(board.score_left as int),
            r.p2_score@ == decimal(board.score_right as int),
    {
        ScoreText { p1_score: score_string(board.score_left), p2_score: score_string(board.score_right) }
    }

    /// Shows `score` on the display of `side`: `p1_score` for the left player,
    /// `p2_score` for the right one.
    pub fn show(&mut self, side: Side, score: i32)
        ensures
            side == Side::Left ==> final(self).p1_score@ == decimal(score as int)
                && final(self).p2_score@ == old(self).p2_score@,
            side == Side::Right ==> final(self).p2_score@ == decimal(score as int)
                && final(self).p1_score@ == old(self).p1_score@,
    {
        match side {
            Side::Left => {
                self.p1_score = score_string(score);
            },
            Side::Right => {
                self.p2_score = score_string(score);
            },
        }
    }
}

} // verus!
