//! The ball: a position and a heading.
use vstd::prelude::*;

use crate::angle::{
    draw_below, is_heading, is_serve_angle, noise_is_positive, noise_of, noise_with, normalize,
    reflected, reflects_to, serve_angle, MAX_TURN, NOISE_LIMIT,
};
use crate::{Arena, DEGREE};

verus! {

/// Bound on the ball's coordinates, so that every comparison is exact.
pub const POS_LIMIT: i64 = 1_000_000_000_000_000;

/// The ball: its centre and its heading (clockwise from the `+x` axis).
pub struct Ball {
    pub x: i64,
    pub y: i64,
    pub rot: i64,
}

impl Ball {
    /// The heading is a valid angle.
    pub open spec fn wf(&self) -> bool {
        is_heading(self.rot as int)
    }

    /// The coordinates are within `POS_LIMIT`.
    pub open spec fn in_bounds(&self) -> bool {
        &&& -POS_LIMIT <= self.x <= POS_LIMIT
        &&& -POS_LIMIT <= self.y <= POS_LIMIT
    }

    /// A ball at the centre of the arena with a freshly served heading.
    pub fn new(arena: &Arena) -> (r: Ball)
        requires
            arena.wf(),
        ensures
            r.x == arena.width / 2,
            r.y == arena.height / 2,
            is_serve_angle(r.rot as int),
            r.wf(),
    {
        let rot = Ball::new_rot();
        Ball { x: arena.width / 2, y: arena.height / 2, rot }
    }

    /// Draws a fresh serve heading: each band with equal chance. No heading
    /// within 30° of vertical travel is ever served.
    pub fn new_rot() -> (r: i64)
        ensures
            is_heading(r as int),
            is_serve_angle(r as int),
            !(60 * DEGREE < r < 120 * DEGREE),
            !(240 * DEGREE < r < 300 * DEGREE),
    {
        let coin = draw_below(0, 2);
        let draw = if coin == 0 {
            draw_below(300 * DEGREE, 420 * DEGREE)
        } else {
            draw_below(120 * DEGREE, 240 * DEGREE)
        };
        serve_angle(coin, draw)
    }

    /// Serves again: back to the centre with a fresh heading.
    pub fn rest(&mut self, arena: &Arena)
        requires
            arena.wf(),
        ensures
            final(self).x == arena.width / 2,
            final(self).y == arena.height / 2,
            is_serve_angle(final(self).rot as int),
            final(self).wf(),
    {
        self.x = arena.width / 2;
        self.y = arena.height / 2;
        self.rot = Ball::new_rot();
    }

    /// Advances the ball by one tick's displacement.
    pub fn mv(&mut self, dx: i64, dy: i64)
        requires
            -POS_LIMIT <= old(self).x + dx <= POS_LIMIT,
            -POS_LIMIT <= old(self).y + dy <= POS_LIMIT,
        ensures
            final(self).x == old(self).x + dx,
            final(self).y == old(self).y + dy,
            final(self).rot == old(self).rot,
    {
        self.x = self.x + dx;
        self.y = self.y + dy;
    }

    /// Draws the jitter for the current heading: its sign follows the
    /// heading's quadrant and its magnitude is below 10°.
    pub fn gen_noise(&self) -> (r: i64)
        requires
            self.wf(),
        ensures
            noise_is_positive(self.rot as int) ==> 0 <= r < NOISE_LIMIT,
            !noise_is_positive(self.rot as int) ==> -NOISE_LIMIT < r <= 0,
            exists|m: int| 0 <= m < NOISE_LIMIT && r == #[trigger] noise_of(self.rot as int, m),
    {
        let m = draw_below(0, NOISE_LIMIT);
        noise_with(self.rot, m)
    }

    /// Turns the heading through `rot` plus the jitter of the given magnitude.
    pub fn rot_add_with(&mut self, rot: i64, magnitude: i64)
        requires
            old(self).wf(),
            -MAX_TURN <= rot <= MAX_TURN,
            0 <= magnitude < NOISE_LIMIT,
        ensures
            final(self).rot == reflected(old(self).rot as int, rot as int, magnitude as int),
            final(self).wf(),
            final(self).x == old(self).x,
            final(self).y == old(self).y,
    {
        let noise = noise_with(self.rot, magnitude);
        self.rot = normalize(self.rot + rot + noise);
    }

    /// Turns the heading through `rot` plus a freshly drawn jitter.
    pub fn rot_add(&mut self, rot: i64)
        requires
            old(self).wf(),
            -MAX_TURN <= rot <= MAX_TURN,
        ensures
            reflects_to(old(self).rot as int, rot as int, final(self).rot as int),
            final(self).wf(),
            final(self).x == old(self).x,
            final(self).y == old(self).y,
    {
        let noise = self.gen_noise();
        let ghost h = self.rot as int;
        let ghost m = choose|m: int| 0 <= m < NOISE_LIMIT && noise == #[trigger] noise_of(h, m);
        self.rot = normalize(self.rot + rot + noise);
        assert(self.rot == reflected(h, rot as int, m));
    }
}

} // verus!
