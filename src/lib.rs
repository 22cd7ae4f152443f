//! A two-player pong simulation: a ball whose heading is an angle, two paddles
//! (one driven by the player, one by a simple reactive controller) and the
//! per-tick collision and scoring rules.
//!
//! Lengths are integers in `UNIT`ths of a pixel and angles are integers in
//! `DEGREE`ths of a degree, so that every rule is exact.
use vstd::prelude::*;

pub mod angle;
pub mod ball;
pub mod game;
pub mod player;

verus! {

/// Subdivisions of one pixel.
pub const UNIT: i64 = 1000;

/// Subdivisions of one degree.
pub const DEGREE: i64 = 1000;

/// Largest width or height of an arena.
pub const MAX_EXTENT: i64 = 1_000_000_000_000;

/// Radius of the ball.
pub const BALL_RADIUS: i64 = 10 * UNIT;

/// Height of a paddle.
pub const PADDLE_HEIGHT: i64 = 100 * UNIT;

/// Width of a paddle.
pub const PADDLE_WIDTH: i64 = 10 * UNIT;

/// Distance a paddle moves in one tick.
pub const PADDLE_SPEED: i64 = 8 * UNIT;

/// Distance of a paddle from its side of the arena.
pub const OFFSET: i64 = 50 * UNIT;

/// The rectangle the game is played in, from `(0, 0)` to `(width, height)`.
pub struct Arena {
    pub width: i64,
    pub height: i64,
}

impl Arena {
    /// Wide enough that a ball served from the centre touches neither side,
    /// tall enough for a paddle, and small enough for exact arithmetic.
    pub open spec fn wf(&self) -> bool {
        &&& 2 * BALL_RADIUS < self.width <= MAX_EXTENT
        &&& PADDLE_HEIGHT <= self.height <= MAX_EXTENT
    }

    /// The arena of the given size.
    pub fn new(width: i64, height: i64) -> (r: Arena)
        ensures
            r.width == width,
            r.height == height,
    {
        Arena { width, height }
    }

    /// Whether the arena is one the game can be played in.
    pub fn is_valid(&self) -> (r: bool)
        ensures
            r == self.wf(),
    {
        2 * BALL_RADIUS < self.width && self.width <= MAX_EXTENT && PADDLE_HEIGHT <= self.height
            && self.height <= MAX_EXTENT
    }
}

} // verus!
