use pong::angle::{normalize, noise_with, serve_angle, FULL_TURN, NOISE_LIMIT};
use pong::ball::Ball;
use pong::game::Game;
use pong::player::{Input, Player};
use pong::{Arena, DEGREE, UNIT};

fn arena() -> Arena {
    Arena::new(800 * UNIT, 600 * UNIT)
}

fn no_keys() -> Input {
    Input { up: false, down: false }
}

fn in_serve_bands(h: i64) -> bool {
    (0..60 * DEGREE).contains(&h)
        || (120 * DEGREE..240 * DEGREE).contains(&h)
        || (300 * DEGREE..FULL_TURN).contains(&h)
}

#[test]
fn new_game_starts_centred() {
    let g = Game::new(arena());
    assert!(g.is_running);
    assert_eq!((g.person.x, g.person.y), (50 * UNIT, 300 * UNIT));
    assert_eq!((g.ai.x, g.ai.y), (750 * UNIT, 300 * UNIT));
    assert!(!g.person.is_ai && g.ai.is_ai);
    assert_eq!((g.person.score, g.ai.score), (0, 0));
    assert_eq!((g.ball.x, g.ball.y), (400 * UNIT, 300 * UNIT));
    assert!(in_serve_bands(g.ball.rot));
}

#[test]
fn one_tick_moves_ball_by_its_displacement() {
    let mut g = Game::new(arena());
    g.ball.rot = 0;
    g.mv(&no_keys(), 10 * UNIT, 0);
    assert_eq!((g.ball.x, g.ball.y), (410 * UNIT, 300 * UNIT));
    assert_eq!(g.ball.rot, 0);
    assert_eq!((g.person.score, g.ai.score), (0, 0));
}

#[test]
fn ball_past_right_side_scores_for_player() {
    let mut g = Game::new(arena());
    g.ball.x = 805 * UNIT;
    g.ball.y = 300 * UNIT;
    g.check_collision();
    assert_eq!(g.person.score, 1);
    assert_eq!(g.ai.score, 0);
    assert_eq!((g.ball.x, g.ball.y), (400 * UNIT, 300 * UNIT));
    assert!(in_serve_bands(g.ball.rot));
}

#[test]
fn ball_past_right_side_scores_whatever_its_height() {
    for y in [-40, 0, 5, 300, 595, 700] {
        let mut g = Game::new(arena());
        g.ball.x = 795 * UNIT;
        g.ball.y = y * UNIT;
        g.check_collision();
        assert_eq!(g.person.score, 1);
        assert_eq!((g.ball.x, g.ball.y), (400 * UNIT, 300 * UNIT));
        assert!(g.ball.rot >= 0 && g.ball.rot < FULL_TURN);
    }
}

#[test]
fn ball_past_left_side_scores_for_ai() {
    let mut g = Game::new(arena());
    g.ball.x = 5 * UNIT;
    g.ball.y = 200 * UNIT;
    g.check_collision();
    assert_eq!(g.ai.score, 1);
    assert_eq!(g.person.score, 0);
    assert_eq!((g.ball.x, g.ball.y), (400 * UNIT, 300 * UNIT));
}

#[test]
fn ball_on_ai_paddle_turns_back() {
    let mut g = Game::new(arena());
    g.ball.x = 740 * UNIT;
    g.ball.y = 300 * UNIT;
    g.ball.rot = 30 * DEGREE;
    g.check_collision();
    // (30 - 180 + jitter) with a jitter in [0, 10) lands in [210, 220).
    assert!(g.ball.rot >= 210 * DEGREE && g.ball.rot < 220 * DEGREE);
    assert_eq!((g.ball.x, g.ball.y), (740 * UNIT, 300 * UNIT));
    assert_eq!((g.person.score, g.ai.score), (0, 0));
}

#[test]
fn ball_on_player_paddle_turns_back() {
    let mut g = Game::new(arena());
    g.ball.x = 60 * UNIT;
    g.ball.y = 320 * UNIT;
    g.ball.rot = 180 * DEGREE;
    g.check_collision();
    // 180 + 180 with a jitter in (-10, 0], wrapped.
    assert!(g.ball.rot == 0 || g.ball.rot > 350 * DEGREE);
    assert!(g.ball.rot < FULL_TURN);
}

#[test]
fn ball_at_top_wall_is_mirrored() {
    let mut g = Game::new(arena());
    g.ball.x = 300 * UNIT;
    g.ball.y = 5 * UNIT;
    g.ball.rot = 300 * DEGREE;
    g.check_collision();
    // -300 + jitter in (-10, 0], wrapped: (50, 60].
    assert!(g.ball.rot > 50 * DEGREE && g.ball.rot <= 60 * DEGREE);
}

#[test]
fn ball_at_bottom_wall_is_mirrored() {
    let mut g = Game::new(arena());
    g.ball.x = 300 * UNIT;
    g.ball.y = 595 * UNIT;
    g.ball.rot = 45 * DEGREE;
    g.check_collision();
    // -45 + jitter in [0, 10), wrapped: [315, 325).
    assert!(g.ball.rot >= 315 * DEGREE && g.ball.rot < 325 * DEGREE);
}

#[test]
fn wall_mirror_near_full_turn_stays_in_range() {
    let mut b = Ball { x: 0, y: 0, rot: 359 * DEGREE };
    b.rot_add_with(-2 * 359 * DEGREE, 9 * DEGREE);
    assert_eq!(b.rot, 352 * DEGREE);
}

#[test]
fn rot_add_with_gives_exact_heading() {
    let mut b = Ball { x: 1, y: 2, rot: 30 * DEGREE };
    b.rot_add_with(-180 * DEGREE, 5 * DEGREE);
    assert_eq!(b.rot, 215 * DEGREE);
    assert_eq!((b.x, b.y), (1, 2));
    let mut b = Ball { x: 0, y: 0, rot: 100 * DEGREE };
    b.rot_add_with(180 * DEGREE, 4 * DEGREE);
    assert_eq!(b.rot, 276 * DEGREE);
}

#[test]
fn rot_add_keeps_heading_in_range() {
    let mut b = Ball { x: 0, y: 0, rot: 30 * DEGREE };
    for _ in 0..500 {
        b.rot_add(-180 * DEGREE);
        assert!(b.rot >= 0 && b.rot < FULL_TURN);
        let r = b.rot;
        b.rot_add(-2 * r);
        assert!(b.rot >= 0 && b.rot < FULL_TURN);
    }
}

#[test]
fn noise_sign_follows_quadrant() {
    let m = 5 * DEGREE;
    assert_eq!(noise_with(0, m), -m);
    assert_eq!(noise_with(1, m), m);
    assert_eq!(noise_with(90 * DEGREE, m), m);
    assert_eq!(noise_with(90 * DEGREE + 1, m), -m);
    assert_eq!(noise_with(180 * DEGREE, m), -m);
    assert_eq!(noise_with(180 * DEGREE + 1, m), m);
    assert_eq!(noise_with(270 * DEGREE, m), m);
    assert_eq!(noise_with(270 * DEGREE + 1, m), -m);
    assert_eq!(noise_with(FULL_TURN - 1, m), -m);
}

#[test]
fn drawn_noise_has_quadrant_sign_and_small_magnitude() {
    for (h, positive) in [(0, false), (45 * DEGREE, true), (135 * DEGREE, false), (225 * DEGREE, true), (315 * DEGREE, false)] {
        let b = Ball { x: 0, y: 0, rot: h };
        let mut seen_nonzero = false;
        for _ in 0..200 {
            let n = b.gen_noise();
            if positive {
                assert!(n >= 0 && n < NOISE_LIMIT);
            } else {
                assert!(n <= 0 && n > -NOISE_LIMIT);
            }
            seen_nonzero |= n != 0;
        }
        assert!(seen_nonzero);
    }
}

#[test]
fn serve_angle_folds_band_around_zero() {
    assert_eq!(serve_angle(0, 400 * DEGREE), 40 * DEGREE);
    assert_eq!(serve_angle(0, 360 * DEGREE), 0);
    assert_eq!(serve_angle(0, 300 * DEGREE), 300 * DEGREE);
    assert_eq!(serve_angle(1, 150 * DEGREE), 150 * DEGREE);
}

#[test]
fn serves_avoid_near_vertical_bands_and_use_both_sides() {
    let (mut towards_right, mut towards_left) = (false, false);
    for _ in 0..2000 {
        let h = Ball::new_rot();
        assert!(!(h > 60 * DEGREE && h < 120 * DEGREE));
        assert!(!(h > 240 * DEGREE && h < 300 * DEGREE));
        assert!(in_serve_bands(h));
        if (120 * DEGREE..240 * DEGREE).contains(&h) {
            towards_left = true;
        } else {
            towards_right = true;
        }
    }
    assert!(towards_left && towards_right);
}

#[test]
fn normalize_wraps_into_one_turn() {
    assert_eq!(normalize(-150 * DEGREE), 210 * DEGREE);
    assert_eq!(normalize(FULL_TURN), 0);
    assert_eq!(normalize(-368 * DEGREE), 352 * DEGREE);
    assert_eq!(normalize(725 * DEGREE), 5 * DEGREE);
    assert_eq!(normalize(17), 17);
}

#[test]
fn player_paddle_follows_keys_within_arena() {
    let a = arena();
    let mut p = Player::new(&a);
    p.player_mv(&Input { up: true, down: false }, &a);
    assert_eq!(p.y, 292 * UNIT);
    p.player_mv(&Input { up: false, down: true }, &a);
    assert_eq!(p.y, 300 * UNIT);
    p.player_mv(&Input { up: true, down: true }, &a);
    assert_eq!(p.y, 300 * UNIT);
    p.y = 55 * UNIT;
    p.player_mv(&Input { up: true, down: false }, &a);
    assert_eq!(p.y, 55 * UNIT);
    p.player_mv(&Input { up: true, down: true }, &a);
    assert_eq!(p.y, 63 * UNIT);
    p.y = 545 * UNIT;
    p.player_mv(&Input { up: false, down: true }, &a);
    assert_eq!(p.y, 545 * UNIT);
}

#[test]
fn ai_paddle_waits_for_ball_on_its_half() {
    let a = arena();
    let mut p = Player::new_ai(&a);
    let far = Ball { x: 399 * UNIT, y: 100 * UNIT, rot: 0 };
    p.ai_mv(&far, &a);
    assert_eq!(p.y, 300 * UNIT);
    let near = Ball { x: 400 * UNIT, y: 100 * UNIT, rot: 0 };
    p.ai_mv(&near, &a);
    assert_eq!(p.y, 292 * UNIT);
    let below = Ball { x: 600 * UNIT, y: 500 * UNIT, rot: 0 };
    p.ai_mv(&below, &a);
    assert_eq!(p.y, 300 * UNIT);
    let level = Ball { x: 600 * UNIT, y: 300 * UNIT, rot: 0 };
    p.ai_mv(&level, &a);
    assert_eq!(p.y, 300 * UNIT);
    p.y = 545 * UNIT;
    let lowest = Ball { x: 600 * UNIT, y: 590 * UNIT, rot: 0 };
    p.ai_mv(&lowest, &a);
    assert_eq!(p.y, 545 * UNIT);
}

#[test]
fn paddles_stay_inside_over_many_ticks() {
    let mut g = Game::new(arena());
    for i in 0..3000 {
        let keys = Input { up: i % 7 < 4, down: i % 11 < 3 };
        let (dx, dy) = if g.ball.rot < 180 * DEGREE { (7 * UNIT, 7 * UNIT) } else { (-7 * UNIT, -7 * UNIT) };
        g.mv(&keys, dx, dy);
        for y in [g.person.y, g.ai.y] {
            assert!(y >= 50 * UNIT && y <= 550 * UNIT);
        }
        assert!(g.ball.rot >= 0 && g.ball.rot < FULL_TURN);
    }
}

#[test]
fn arena_validity_bounds() {
    assert!(arena().is_valid());
    assert!(Arena::new(21 * UNIT, 100 * UNIT).is_valid());
    assert!(!Arena::new(20 * UNIT, 600 * UNIT).is_valid());
    assert!(!Arena::new(800 * UNIT, 99 * UNIT).is_valid());
    assert!(!Arena::new(0, 0).is_valid());
}
