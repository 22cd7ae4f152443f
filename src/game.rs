//! The match: two paddles, one ball, and the rules of one tick.
use vstd::prelude::*;

use crate::angle::{
    is_heading, is_serve_angle, noise_of, reflected, reflects_to, FULL_TURN, NOISE_LIMIT,
};
use crate::ball::{Ball, POS_LIMIT};
use crate::player::{ai_target, paddle_fits, player_target, Input, Player};
use crate::{Arena, BALL_RADIUS, DEGREE, OFFSET, PADDLE_HEIGHT, PADDLE_WIDTH};

verus! {

/// The ball at `(bx, by)` overlaps the left paddle centred at `(px, py)`: its
/// left edge lies within the paddle's width band and its vertical extent meets
/// the paddle's.
pub open spec fn hits_left_paddle(bx: int, by: int, px: int, py: int) -> bool {
    &&& bx - BALL_RADIUS <= px + PADDLE_WIDTH / 2
    &&& bx - BALL_RADIUS >= px - PADDLE_WIDTH / 2
    &&& by - BALL_RADIUS <= py + PADDLE_HEIGHT / 2
    &&& by + BALL_RADIUS >= py - PADDLE_HEIGHT / 2
}

/// The ball at `(bx, by)` overlaps the right paddle centred at `(px, py)`: its
/// right edge lies within the paddle's width band and its vertical extent
/// meets the paddle's.
pub open spec fn hits_right_paddle(bx: int, by: int, px: int, py: int) -> bool {
    &&& bx + BALL_RADIUS >= px - PADDLE_WIDTH / 2
    &&& bx + BALL_RADIUS <= px + PADDLE_WIDTH / 2
    &&& by - BALL_RADIUS <= py + PADDLE_HEIGHT / 2
    &&& by + BALL_RADIUS >= py - PADDLE_HEIGHT / 2
}

/// A reflection through `turn` when `cond` holds, no change otherwise.
pub open spec fn turn_stage(h: int, cond: bool, turn: int, h2: int) -> bool {
    if cond { reflects_to(h, turn, h2) } else { h2 == h }
}

/// A fresh serve when `cond` holds, no change otherwise.
pub open spec fn serve_stage(h: int, cond: bool, h2: int) -> bool {
    if cond { is_heading(h2) && is_serve_angle(h2) } else { h2 == h }
}

/// The headings `h0` to `h6` through the six stages of the collision pass:
/// top wall, bottom wall (each a mirror through `-2h`), left side, right side
/// (each a serve), left paddle (`+180°`) and right paddle (`-180°`).
pub open spec fn heading_chain(
    h0: int,
    top: bool,
    bottom: bool,
    left: bool,
    right: bool,
    hit_left: bool,
    hit_right: bool,
    h1: int,
    h2: int,
    h3: int,
    h4: int,
    h5: int,
    h6: int,
) -> bool {
    &&& turn_stage(h0, top, -2 * h0, h1)
    &&& turn_stage(h1, bottom, -2 * h1, h2)
    &&& serve_stage(h2, left, h3)
    &&& serve_stage(h3, right, h4)
    &&& turn_stage(h4, hit_left, 180 * DEGREE, h5)
    &&& turn_stage(h5, hit_right, -180 * DEGREE, h6)
}

/// The game: the player's paddle, the controlled paddle, the ball, the arena
/// and whether play goes on.
pub struct Game {
    pub person: Player,
    pub ai: Player,
    pub ball: Ball,
    pub arena: Arena,
    pub is_running: bool,
}

impl Game {
    /// Paddles at their sides and inside the arena, heading valid.
    pub open spec fn wf(&self) -> bool {
        &&& self.arena.wf()
        &&& !self.person.is_ai
        &&& self.person.x == OFFSET
        &&& self.ai.is_ai
        &&& self.ai.x == self.arena.width - OFFSET
        &&& paddle_fits(self.person.y as int, self.arena.height as int)
        &&& paddle_fits(self.ai.y as int, self.arena.height as int)
        &&& self.ball.wf()
    }

    /// The ball is past the left side: the controlled paddle scores.
    pub open spec fn past_left(self) -> bool {
        self.ball.x - BALL_RADIUS <= 0
    }

    /// The ball's position once the left side has been checked.
    pub open spec fn pos_after_left(self) -> (int, int) {
        if self.past_left() {
            (self.arena.width / 2, self.arena.height / 2)
        } else {
            (self.ball.x as int, self.ball.y as int)
        }
    }

    /// The ball, as the left check left it, is past the right side: the
    /// player scores.
    pub open spec fn past_right(self) -> bool {
        self.pos_after_left().0 + BALL_RADIUS >= self.arena.width
    }

    /// The ball's position once both sides have been checked; the paddle
    /// checks test this position, and the pass leaves the ball there.
    pub open spec fn pos_after_sides(self) -> (int, int) {
        if self.past_right() {
            (self.arena.width / 2, self.arena.height / 2)
        } else {
            self.pos_after_left()
        }
    }

    /// The headings `h1` to `h5` between the stages lead from the heading of
    /// `pre` to `h6`.
    pub open spec fn headings_through(
        pre: Game,
        h1: int,
        h2: int,
        h3: int,
        h4: int,
        h5: int,
        h6: int,
    ) -> bool {
        let (x2, y2) = pre.pos_after_sides();
        heading_chain(
            pre.ball.rot as int,
            pre.ball.y - BALL_RADIUS <= 0,
            pre.ball.y + BALL_RADIUS >= pre.arena.height,
            pre.past_left(),
            pre.past_right(),
            hits_left_paddle(x2, y2, pre.person.x as int, pre.person.y as int),
            hits_right_paddle(x2, y2, pre.ai.x as int, pre.ai.y as int),
            h1,
            h2,
            h3,
            h4,
            h5,
            h6,
        )
    }

    /// What one collision pass does to `pre`, whatever was drawn: the checks
    /// run in order on the ball as the earlier checks left it.
    pub open spec fn collided(pre: Game, post: Game) -> bool {
        &&& post.ball.x == pre.pos_after_sides().0
        &&& post.ball.y == pre.pos_after_sides().1
        &&& post.person.score == pre.person.score + (if pre.past_right() { 1int } else { 0int })
        &&& post.ai.score == pre.ai.score + (if pre.past_left() { 1int } else { 0int })
        &&& post.person.x == pre.person.x && post.person.y == pre.person.y
        &&& post.person.is_ai == pre.person.is_ai
        &&& post.ai.x == pre.ai.x && post.ai.y == pre.ai.y
        &&& post.ai.is_ai == pre.ai.is_ai
        &&& post.arena == pre.arena
        &&& post.is_running == pre.is_running
        &&& exists|h1: int, h2: int, h3: int, h4: int, h5: int|
            #[trigger] Game::headings_through(pre, h1, h2, h3, h4, h5, post.ball.rot as int)
    }

    /// A new game in the given arena: paddles centred at their sides, the
    /// ball served from the centre, play running.
    pub fn new(arena: Arena) -> (r: Game)
        requires
            arena.wf(),
        ensures
            r.wf(),
            r.arena == arena,
            r.is_running,
            r.person.score == 0 && r.ai.score == 0,
            r.person.y == arena.height / 2 && r.ai.y == arena.height / 2,
            r.ball.x == arena.width / 2 && r.ball.y == arena.height / 2,
            is_serve_angle(r.ball.rot as int),
    {
        let person = Player::new(&arena);
        let ai = Player::new_ai(&arena);
        let ball = Ball::new(&arena);
        Game { person, ai, ball, arena, is_running: true }
    }

    /// The game after the paddles and the ball have moved in a tick, before
    /// the collision pass: the player's paddle by the keys, the controlled
    /// paddle towards the ball as it stood, then the ball by `(dx, dy)`.
    pub open spec fn moved(self, input: Input, dx: int, dy: int) -> Game {
        let w = self.arena.width as int;
        let h = self.arena.height as int;
        Game {
            person: Player {
                y: player_target(self.person.y as int, input.up, input.down, h) as i64,
                ..self.person
            },
            ai: Player {
                y: ai_target(
                    self.ai.x as int,
                    self.ai.y as int,
                    self.ball.x as int,
                    self.ball.y as int,
                    w,
                    h,
                ) as i64,
                ..self.ai
            },
            ball: Ball { x: (self.ball.x + dx) as i64, y: (self.ball.y + dy) as i64, ..self.ball },
            ..self
        }
    }

    /// One tick: move the player's paddle by `input`, the controlled paddle
    /// towards the ball, the ball by its displacement `(dx, dy)` for this
    /// tick, then run the collision pass.
    pub fn mv(&mut self, input: &Input, dx: i64, dy: i64)
        requires
            old(self).wf(),
            old(self).ball.in_bounds(),
            -POS_LIMIT <= old(self).ball.x + dx <= POS_LIMIT,
            -POS_LIMIT <= old(self).ball.y + dy <= POS_LIMIT,
            old(self).person.score < u64::MAX,
            old(self).ai.score < u64::MAX,
        ensures
            final(self).wf(),
            Game::collided(old(self).moved(*input, dx as int, dy as int), *final(self)),
            paddle_fits(final(self).person.y as int, final(self).arena.height as int),
            paddle_fits(final(self).ai.y as int, final(self).arena.height as int),
    {
        self.person.player_mv(input, &self.arena);
        self.ai.ai_mv(&self.ball, &self.arena);
        self.ball.mv(dx, dy);
        assert(*self == old(self).moved(*input, dx as int, dy as int));
        self.check_collision();
    }

    /// Runs the collision and scoring pass: walls mirror the heading, a ball
    /// past a side scores for the other paddle and is served again, a paddle
    /// hit turns the heading through a half turn.
    pub fn check_collision(&mut self)
        requires
            old(self).wf(),
            old(self).ball.in_bounds(),
            old(self).person.score < u64::MAX,
            old(self).ai.score < u64::MAX,
        ensures
            final(self).wf(),
            Game::collided(*old(self), *final(self)),
            old(self).ball.x + BALL_RADIUS >= old(self).arena.width ==> {
                &&& final(self).person.score == old(self).person.score + 1
                &&& final(self).ai.score == old(self).ai.score
                &&& final(self).ball.x == old(self).arena.width / 2
                &&& final(self).ball.y == old(self).arena.height / 2
            },
    {
        let ghost h0 = self.ball.rot as int;
        if self.ball.y - BALL_RADIUS <= 0 {
            let turn = 0 - 2 * self.ball.rot;
            self.ball.rot_add(turn);
        }
        let ghost h1 = self.ball.rot as int;
        if self.ball.y + BALL_RADIUS >= self.arena.height {
            let turn = 0 - 2 * self.ball.rot;
            self.ball.rot_add(turn);
        }
        let ghost h2 = self.ball.rot as int;
        if self.ball.x - BALL_RADIUS <= 0 {
            self.ai.score = self.ai.score + 1;
            self.ball.rest(&self.arena);
        }
        let ghost h3 = self.ball.rot as int;
        if self.ball.x + BALL_RADIUS >= self.arena.width {
            self.person.score = self.person.score + 1;
            self.ball.rest(&self.arena);
        }
        let ghost h4 = self.ball.rot as int;
        if self.ball.x - BALL_RADIUS <= self.person.x + PADDLE_WIDTH / 2
            && self.ball.x - BALL_RADIUS >= self.person.x - PADDLE_WIDTH / 2
            && self.ball.y - BALL_RADIUS <= self.person.y + PADDLE_HEIGHT / 2
            && self.ball.y + BALL_RADIUS >= self.person.y - PADDLE_HEIGHT / 2
        {
            self.ball.rot_add(180 * DEGREE);
        }
        let ghost h5 = self.ball.rot as int;
        if self.ball.x + BALL_RADIUS >= self.ai.x - PADDLE_WIDTH / 2
            && self.ball.x + BALL_RADIUS <= self.ai.x + PADDLE_WIDTH / 2
            && self.ball.y - BALL_RADIUS <= self.ai.y + PADDLE_HEIGHT / 2
            && self.ball.y + BALL_RADIUS >= self.ai.y - PADDLE_HEIGHT / 2
        {
            self.ball.rot_add(-180 * DEGREE);
        }
        assert(Game::headings_through(*old(self), h1, h2, h3, h4, h5, self.ball.rot as int));
    }
}

/// A tick keeps both paddles inside the arena: whatever was drawn, every
/// outcome of a tick from a well-formed game has both paddles within
/// `[0, height]`.
pub proof fn lemma_tick_keeps_paddles_inside(
    pre: Game,
    input: Input,
    dx: int,
    dy: int,
    post: Game,
)
    requires
        pre.wf(),
        Game::collided(pre.moved(input, dx, dy), post),
    ensures
        paddle_fits(post.person.y as int, post.arena.height as int),
        paddle_fits(post.ai.y as int, post.arena.height as int),
{
}

/// A reflection or a serve always leaves a valid heading: whatever was drawn,
/// the collision pass from a valid heading ends with a heading in `[0, 360°)`.
pub proof fn lemma_collision_keeps_heading_valid(pre: Game, post: Game)
    requires
        pre.ball.wf(),
        Game::collided(pre, post),
    ensures
        is_heading(post.ball.rot as int),
{
    let (h1, h2, h3, h4, h5) = choose|h1: int, h2: int, h3: int, h4: int, h5: int|
        #[trigger] Game::headings_through(pre, h1, h2, h3, h4, h5, post.ball.rot as int);
    let (x2, y2) = pre.pos_after_sides();
    let h0 = pre.ball.rot as int;
    lemma_turn_stage_keeps_heading(h0, pre.ball.y - BALL_RADIUS <= 0, -2 * h0, h1);
    lemma_turn_stage_keeps_heading(h1, pre.ball.y + BALL_RADIUS >= pre.arena.height, -2 * h1, h2);
    lemma_turn_stage_keeps_heading(
        h4,
        hits_left_paddle(x2, y2, pre.person.x as int, pre.person.y as int),
        180 * DEGREE,
        h5,
    );
    lemma_turn_stage_keeps_heading(
        h5,
        hits_right_paddle(x2, y2, pre.ai.x as int, pre.ai.y as int),
        -180 * DEGREE,
        post.ball.rot as int,
    );
}

/// One turning stage from a valid heading leaves a valid heading.
proof fn lemma_turn_stage_keeps_heading(h: int, cond: bool, turn: int, h2: int)
    requires
        turn_stage(h, cond, turn, h2),
    ensures
        is_heading(h) ==> is_heading(h2),
        cond ==> is_heading(h2),
{
    if cond {
        let m = choose|m: int| 0 <= m < NOISE_LIMIT && h2 == #[trigger] reflected(h, turn, m);
        vstd::arithmetic::div_mod::lemma_mod_bound(h + turn + noise_of(h, m), FULL_TURN as int);
    }
}

} // verus!
