//! The paddles: one moved by the player's keys, one by a reactive controller.
use vstd::prelude::*;

use crate::ball::Ball;
use crate::{Arena, MAX_EXTENT, OFFSET, PADDLE_HEIGHT, PADDLE_SPEED};

verus! {

/// The keys held for the player's paddle in this tick.
pub struct Input {
    pub up: bool,
    pub down: bool,
}

/// A paddle: its fixed `x`, its centre `y`, its score and who moves it.
pub struct Player {
    pub score: u64,
    pub is_ai: bool,
    pub x: i64,
    pub y: i64,
}

/// The paddle centred at `y` lies within `[0, height]` vertically.
pub open spec fn paddle_fits(y: int, height: int) -> bool {
    PADDLE_HEIGHT / 2 <= y <= height - PADDLE_HEIGHT / 2
}

/// One step up keeps the paddle centred at `y` below the top edge.
pub open spec fn can_move_up(y: int) -> bool {
    y - PADDLE_SPEED - PADDLE_HEIGHT / 2 >= 0
}

/// One step down keeps the paddle centred at `y` above the bottom edge.
pub open spec fn can_move_down(y: int, height: int) -> bool {
    y + PADDLE_SPEED + PADDLE_HEIGHT / 2 <= height
}

/// Where the player's paddle goes from `y`: each held key moves it one step
/// if that step, taken from `y`, stays inside the arena.
pub open spec fn player_target(y: int, up: bool, down: bool, height: int) -> int {
    let y1 = if up && can_move_up(y) { y - PADDLE_SPEED } else { y };
    if down && can_move_down(y, height) { y1 + PADDLE_SPEED } else { y1 }
}

/// The controller only reacts while the ball is on its own half.
pub open spec fn ai_active(px: int, bx: int, width: int) -> bool {
    if 2 * px < width { 2 * bx <= width } else { 2 * bx >= width }
}

/// Where the controlled paddle goes from `y`: one step towards the ball's
/// height while active, if that step stays inside the arena.
pub open spec fn ai_target(px: int, y: int, bx: int, by: int, width: int, height: int) -> int {
    if !ai_active(px, bx, width) {
        y
    } else if by > y && can_move_down(y, height) {
        y + PADDLE_SPEED
    } else if by < y && can_move_up(y) {
        y - PADDLE_SPEED
    } else {
        y
    }
}

impl Player {
    /// The player's paddle: at the left, centred vertically, no score.
    pub fn new(arena: &Arena) -> (r: Player)
        requires
            arena.wf(),
        ensures
            r.score == 0,
            !r.is_ai,
            r.x == OFFSET,
            r.y == arena.height / 2,
            paddle_fits(r.y as int, arena.height as int),
    {
        Player { score: 0, is_ai: false, x: OFFSET, y: arena.height / 2 }
    }

    /// The controlled paddle: at the right, centred vertically, no score.
    pub fn new_ai(arena: &Arena) -> (r: Player)
        requires
            arena.wf(),
        ensures
            r.score == 0,
            r.is_ai,
            r.x == arena.width - OFFSET,
            r.y == arena.height / 2,
            paddle_fits(r.y as int, arena.height as int),
    {
        Player { score: 0, is_ai: true, x: arena.width - OFFSET, y: arena.height / 2 }
    }

    /// Moves one step towards the ball while the ball is on this paddle's half.
    pub fn ai_mv(&mut self, ball: &Ball, arena: &Arena)
        requires
            arena.wf(),
            paddle_fits(old(self).y as int, arena.height as int),
            -MAX_EXTENT <= old(self).x <= MAX_EXTENT,
            ball.in_bounds(),
        ensures
            final(self).y == ai_target(
                old(self).x as int,
                old(self).y as int,
                ball.x as int,
                ball.y as int,
                arena.width as int,
                arena.height as int,
            ),
            paddle_fits(final(self).y as int, arena.height as int),
            final(self).x == old(self).x,
            final(self).score == old(self).score,
            final(self).is_ai == old(self).is_ai,
    {
        let can_mv_up = self.y - PADDLE_SPEED - PADDLE_HEIGHT / 2 >= 0;
        let can_mv_down = self.y + PADDLE_SPEED + PADDLE_HEIGHT / 2 <= arena.height;
        let active = if 2 * self.x < arena.width {
            2 * ball.x <= arena.width
        } else {
            2 * ball.x >= arena.width
        };
        if active {
            if ball.y > self.y && can_mv_down {
                self.y = self.y + PADDLE_SPEED;
            } else if ball.y < self.y && can_mv_up {
                self.y = self.y - PADDLE_SPEED;
            }
        }
    }

    /// Moves by the held keys: up if asked and room is left above, down if
    /// asked and room is left below (both judged from where the paddle stood).
    pub fn player_mv(&mut self, input: &Input, arena: &Arena)
        requires
            arena.wf(),
            paddle_fits(old(self).y as int, arena.height as int),
        ensures
            final(self).y == player_target(
                old(self).y as int,
                input.up,
                input.down,
                arena.height as int,
            ),
            paddle_fits(final(self).y as int, arena.height as int),
            final(self).x == old(self).x,
            final(self).score == old(self).score,
            final(self).is_ai == old(self).is_ai,
    {
        let can_mv_up = self.y - PADDLE_SPEED - PADDLE_HEIGHT / 2 >= 0;
        let can_mv_down = self.y + PADDLE_SPEED + PADDLE_HEIGHT / 2 <= arena.height;
        if input.up && can_mv_up {
            self.y = self.y - PADDLE_SPEED;
        }
        if input.down && can_mv_down {
            self.y = self.y + PADDLE_SPEED;
        }
    }
}

} // verus!
