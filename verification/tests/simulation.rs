//! End-to-end checks of the simulation core on concrete values. Positions
//! are in milliunits, velocities in units per second, elapsed time in
//! milliseconds.

use pong_core::collision::{resolve_collisions, resolve_collisions_with};
use pong_core::config::{standard_config, Config};
use pong_core::model::{Ball, InputState, Paddle};
use pong_core::motion::{ball_integrate, clamp_to, paddle_control};
use pong_core::world::World;

fn far_left_paddle() -> Paddle {
    Paddle { x: -380_000, y: 0 }
}

fn far_right_paddle() -> Paddle {
    Paddle { x: 380_000, y: 0 }
}

#[test]
fn standard_config_values() {
    let c = standard_config();
    assert_eq!(c.min_y, -715_000);
    assert_eq!(c.max_y, 565_000);
    assert_eq!(c.paddle_speed, 200);
    assert_eq!(c.ball_half, 12_500);
    assert_eq!(c.paddle_half_w, 12_500);
    assert_eq!(c.paddle_half_h, 12_500);
    assert_eq!(c.bounce_line, 250_000);
    assert_eq!(c.rand_lo, -100);
    assert_eq!(c.rand_hi, 100);
}

#[test]
fn new_world_startup_state() {
    let w = World::new();
    assert_eq!(w.ball, Ball { x: 0, y: 0, vx: -100, vy: 0 });
    assert_eq!(w.left, Paddle { x: -380_000, y: 0 });
    assert_eq!(w.right, Paddle { x: 380_000, y: 0 });
    assert_eq!(w.ball_position(), (0, 0));
    assert_eq!(w.ball_velocity(), (-100, 0));
    assert_eq!(w.left_paddle_position(), (-380_000, 0));
    assert_eq!(w.right_paddle_position(), (380_000, 0));
}

#[test]
fn ball_moves_left_one_tenth_second() {
    // Ball at the origin moving left at 100 units/s; 0.1 s later and with no
    // collision it stands at (-10, 0) units.
    let mut w = World::new();
    w.step(InputState::none(), 100);
    assert_eq!(w.ball_position(), (-10_000, 0));
    assert_eq!(w.ball_velocity(), (-100, 0));
}

#[test]
fn left_paddle_moves_up_half_second() {
    // Held up key at 200 units/s for 0.5 s moves the paddle 100 units.
    let mut w = World::new();
    let input = InputState { left_up: true, left_down: false, right_up: false, right_down: false };
    w.step(input, 500);
    assert_eq!(w.left_paddle_position(), (-380_000, 100_000));
    assert_eq!(w.right_paddle_position(), (380_000, 0));
}

#[test]
fn ball_bounces_off_left_paddle() {
    // Ball box touching the left paddle box: the overlap fires, the
    // horizontal velocity flips from -50 to +50, and the vertical velocity
    // takes the supplied draw.
    let cfg = standard_config();
    let mut b = Ball { x: -287_500, y: 0, vx: -50, vy: 0 };
    let left = Paddle { x: -300_000, y: 0 };
    resolve_collisions_with(&mut b, &left, &far_right_paddle(), 42, 7, &cfg);
    assert_eq!(b.vx, 50);
    assert_eq!(b.vy, 42);
    assert_eq!((b.x, b.y), (-287_500, 0));
}

#[test]
fn paddle_bounce_draws_from_configured_range() {
    let cfg = standard_config();
    let mut b = Ball { x: -287_500, y: 0, vx: -50, vy: 0 };
    let left = Paddle { x: -300_000, y: 0 };
    resolve_collisions(&mut b, &left, &far_right_paddle(), &cfg);
    assert_eq!(b.vx, 50);
    assert!(cfg.rand_lo <= b.vy && b.vy < cfg.rand_hi);
}

#[test]
fn deflection_draw_respects_narrow_range() {
    // With a one-value deflection range the draw is forced: the resolver
    // must set the vertical velocity to exactly 7.
    let cfg = Config { rand_lo: 7, rand_hi: 8, ..standard_config() };
    let mut b = Ball { x: -287_500, y: 0, vx: -50, vy: 0 };
    let left = Paddle { x: -300_000, y: 0 };
    resolve_collisions(&mut b, &left, &far_right_paddle(), &cfg);
    assert_eq!(b.vy, 7);
}

#[test]
fn boundary_bounce_flips_vertical_velocity() {
    // |240| + 12.5 > 250: past the line, so vy flips sign exactly, vx stays.
    let cfg = standard_config();
    let mut b = Ball { x: 0, y: 240_000, vx: -100, vy: 80 };
    resolve_collisions(&mut b, &far_left_paddle(), &far_right_paddle(), &cfg);
    assert_eq!(b.vy, -80);
    assert_eq!(b.vx, -100);
}

#[test]
fn boundary_bounce_refires_each_pass() {
    // A ball left past the line flips again on the next pass: two passes
    // with no movement restore the original vertical velocity.
    let cfg = standard_config();
    let mut b = Ball { x: 0, y: -245_000, vx: 10, vy: 30 };
    resolve_collisions(&mut b, &far_left_paddle(), &far_right_paddle(), &cfg);
    assert_eq!(b.vy, -30);
    resolve_collisions(&mut b, &far_left_paddle(), &far_right_paddle(), &cfg);
    assert_eq!(b.vy, 30);
}

#[test]
fn no_overlap_is_a_no_op() {
    let cfg = standard_config();
    let mut b = Ball { x: 0, y: 0, vx: 33, vy: 44 };
    resolve_collisions(&mut b, &far_left_paddle(), &far_right_paddle(), &cfg);
    assert_eq!((b.vx, b.vy), (33, 44));
    assert_eq!((b.x, b.y), (0, 0));
}

#[test]
fn touching_boxes_without_strict_overlap_do_not_collide() {
    // All four inequalities are strict: a ball exactly 25 units from the
    // paddle center on the x axis only touches and does not bounce.
    let cfg = standard_config();
    let mut b = Ball { x: -275_000, y: 0, vx: -50, vy: 0 };
    let left = Paddle { x: -300_000, y: 0 };
    resolve_collisions(&mut b, &left, &far_right_paddle(), &cfg);
    assert_eq!((b.vx, b.vy), (-50, 0));
}

#[test]
fn double_hit_restores_horizontal_velocity() {
    // Both paddles overlapping in one frame: the horizontal velocity is
    // negated twice, and the vertical velocity takes the second draw.
    let cfg = standard_config();
    let mut b = Ball { x: 0, y: 0, vx: 70, vy: 3 };
    let left = Paddle { x: -10_000, y: 0 };
    let right = Paddle { x: 10_000, y: 0 };
    resolve_collisions_with(&mut b, &left, &right, 5, 9, &cfg);
    assert_eq!(b.vx, 70);
    assert_eq!(b.vy, 9);
}

#[test]
fn integration_is_exact() {
    let mut b = Ball { x: 1_000, y: -2_000, vx: 3, vy: -4 };
    ball_integrate(&mut b, 7);
    assert_eq!((b.x, b.y), (1_021, -2_028));
    assert_eq!((b.vx, b.vy), (3, -4));
}

#[test]
fn integration_with_zero_elapsed_time() {
    let mut b = Ball { x: 5, y: 6, vx: 100, vy: -100 };
    ball_integrate(&mut b, 0);
    assert_eq!((b.x, b.y), (5, 6));
}

#[test]
fn paddle_clamps_at_top() {
    let cfg = standard_config();
    let mut p = Paddle { x: -380_000, y: 565_000 };
    paddle_control(&mut p, true, false, 1_000, &cfg);
    assert_eq!(p.y, 565_000);
}

#[test]
fn paddle_clamps_at_bottom() {
    let cfg = standard_config();
    let mut p = Paddle { x: -380_000, y: -715_000 };
    paddle_control(&mut p, false, true, 1_000, &cfg);
    assert_eq!(p.y, -715_000);
}

#[test]
fn both_keys_cancel_in_the_open_field() {
    let cfg = standard_config();
    let mut p = Paddle { x: -380_000, y: 0 };
    paddle_control(&mut p, true, true, 500, &cfg);
    assert_eq!(p.y, 0);
}

#[test]
fn both_keys_at_the_top_drift_down() {
    // Clamping after each branch: at the top the up branch is swallowed by
    // the clamp, so the down branch wins and the paddle drifts down.
    let cfg = standard_config();
    let mut p = Paddle { x: -380_000, y: 565_000 };
    paddle_control(&mut p, true, true, 500, &cfg);
    assert_eq!(p.y, 465_000);
}

#[test]
fn no_keys_is_a_no_op() {
    let cfg = standard_config();
    let mut p = Paddle { x: -380_000, y: 123_000 };
    paddle_control(&mut p, false, false, 1_000, &cfg);
    assert_eq!(p, Paddle { x: -380_000, y: 123_000 });
}

#[test]
fn clamp_pins_values_to_the_interval() {
    assert_eq!(clamp_to(5, -3, 7), 5);
    assert_eq!(clamp_to(-10, -3, 7), -3);
    assert_eq!(clamp_to(10, -3, 7), 7);
    assert_eq!(clamp_to(7, -3, 7), 7);
}

#[test]
fn step_runs_systems_in_order() {
    // The resolver sees the post-movement ball: a ball one frame short of
    // the left paddle crosses into overlap during the same step and leaves
    // it with its horizontal velocity already flipped.
    let mut w = World::new();
    w.ball = Ball { x: -277_400, y: 0, vx: -102, vy: 0 };
    w.left = Paddle { x: -300_000, y: 0 };
    w.step_with(InputState::none(), 100, 0, 0);
    // Integration first: x = -277_400 - 102 * 100 = -287_600 (overlap), then
    // the bounce flips vx.
    assert_eq!(w.ball_position(), (-287_600, 0));
    assert_eq!(w.ball_velocity(), (102, 0));
}

#[test]
fn step_with_zero_elapsed_time_changes_nothing() {
    let mut w = World::new();
    let before = w;
    w.step(InputState::none(), 0);
    assert_eq!(w, before);
}
