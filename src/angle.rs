//! Headings in `[0, 360°)`, the serve angle and the jitter added on a bounce.
use vstd::prelude::*;

use crate::DEGREE;

verus! {

/// One full turn.
pub const FULL_TURN: i64 = 360 * DEGREE;

/// A quarter turn.
pub const QUARTER_TURN: i64 = 90 * DEGREE;

/// The jitter added on a bounce is strictly below this in magnitude.
pub const NOISE_LIMIT: i64 = 10 * DEGREE;

/// Largest turn that may be added to a heading in one reflection.
pub const MAX_TURN: i64 = 2 * FULL_TURN;

/// A heading is a valid angle in `[0, 360°)`.
pub open spec fn is_heading(h: int) -> bool {
    0 <= h < FULL_TURN
}

/// The angle `a` brought into `[0, 360°)`.
pub open spec fn wrap(a: int) -> int {
    a % (FULL_TURN as int)
}

/// Brings any angle within four turns of zero into `[0, 360°)`.
pub fn normalize(a: i64) -> (r: i64)
    requires
        -4 * FULL_TURN <= a <= 4 * FULL_TURN,
    ensures
        r == wrap(a as int),
        is_heading(r as int),
{
    let mut v: i64 = a;
    while v < 0
        invariant
            -4 * FULL_TURN <= v <= 4 * FULL_TURN,
            wrap(v as int) == wrap(a as int),
        decreases FULL_TURN - v,
    {
        proof {
            vstd::arithmetic::div_mod::lemma_mod_add_multiples_vanish(v as int, FULL_TURN as int);
        }
        v = v + FULL_TURN;
    }
    while v >= FULL_TURN
        invariant
            0 <= v <= 4 * FULL_TURN,
            wrap(v as int) == wrap(a as int),
        decreases v,
    {
        proof {
            vstd::arithmetic::div_mod::lemma_mod_sub_multiples_vanish(v as int, FULL_TURN as int);
        }
        v = v - FULL_TURN;
    }
    proof {
        vstd::arithmetic::div_mod::lemma_small_mod(v as nat, FULL_TURN as nat);
    }
    v
}

/// Largest bound that `draw_below` accepts; every such draw is exact.
pub const DRAW_LIMIT: i64 = 1_000_000;

/// Relies on `macroquad::rand::gen_range` (quad-rand) on `i64`: it scales a
/// 32-bit draw `k` to `low + (high - low) * k / 2^32` in `f64` and truncates.
/// For bounds in `[0, DRAW_LIMIT]` that value is exact and below `high`.
#[verifier::external_body]
pub(crate) fn draw_below(low: i64, high: i64) -> (r: i64)
    requires
        0 <= low < high <= DRAW_LIMIT,
    ensures
        low <= r < high,
{
    macroquad::rand::gen_range(low, high)
}

/// The serve angle chosen by a fair coin (`0`: the band around 0°, `1`: the
/// band around 180°) and an angle drawn in that band.
pub open spec fn serve_draw_ok(coin: int, draw: int) -> bool {
    &&& (coin == 0 || coin == 1)
    &&& coin == 0 ==> 300 * DEGREE <= draw < 420 * DEGREE
    &&& coin == 1 ==> 120 * DEGREE <= draw < 240 * DEGREE
}

/// A serve angle lies in `[300°, 360°) ∪ [0°, 60°)` or in `[120°, 240°)`.
pub open spec fn is_serve_angle(h: int) -> bool {
    ||| 0 <= h < 60 * DEGREE
    ||| 120 * DEGREE <= h < 240 * DEGREE
    ||| 300 * DEGREE <= h < FULL_TURN
}

/// Turns a serve draw into a heading: the band around 0° is drawn as
/// `[300°, 420°)` and folded back by a full turn.
pub fn serve_angle(coin: i64, draw: i64) -> (r: i64)
    requires
        serve_draw_ok(coin as int, draw as int),
    ensures
        r == wrap(draw as int),
        r == (if draw >= FULL_TURN { draw - FULL_TURN } else { draw as int }),
        is_heading(r as int),
        is_serve_angle(r as int),
{
    let r = normalize(draw);
    proof {
        if draw >= FULL_TURN {
            vstd::arithmetic::div_mod::lemma_mod_sub_multiples_vanish(draw as int, FULL_TURN as int);
            vstd::arithmetic::div_mod::lemma_small_mod((draw - FULL_TURN) as nat, FULL_TURN as nat);
        } else {
            vstd::arithmetic::div_mod::lemma_small_mod(draw as nat, FULL_TURN as nat);
        }
    }
    r
}

/// Headings in `(0°, 90°]` or `(180°, 270°]` take a jitter of positive sign,
/// all others (`0°` included) one of negative sign.
pub open spec fn noise_is_positive(h: int) -> bool {
    ||| 0 < h <= QUARTER_TURN
    ||| 2 * QUARTER_TURN < h <= 3 * QUARTER_TURN
}

/// The jitter of magnitude `m` for heading `h`.
pub open spec fn noise_of(h: int, m: int) -> int {
    if noise_is_positive(h) { m } else { -m }
}

/// The jitter for heading `h` given a magnitude drawn in `[0, 10°)`.
pub fn noise_with(h: i64, magnitude: i64) -> (r: i64)
    requires
        is_heading(h as int),
        0 <= magnitude < NOISE_LIMIT,
    ensures
        r == noise_of(h as int, magnitude as int),
{
    if (0 < h && h <= QUARTER_TURN) || (2 * QUARTER_TURN < h && h <= 3 * QUARTER_TURN) {
        magnitude
    } else {
        -magnitude
    }
}

/// The heading reached from `h` by turning through `turn` plus the jitter of
/// magnitude `m`, brought into `[0, 360°)`.
pub open spec fn reflected(h: int, turn: int, m: int) -> int {
    wrap(h + turn + noise_of(h, m))
}

/// `h2` is reachable from `h` by turning through `turn` with some jitter.
pub open spec fn reflects_to(h: int, turn: int, h2: int) -> bool {
    exists|m: int| 0 <= m < NOISE_LIMIT && h2 == #[trigger] reflected(h, turn, m)
}

} // verus!
