//! Per-frame motion: the paddle controller (held keys move a paddle at a
//! fixed speed, clamped to the playfield) and the ball integrator (position
//! advances by velocity times elapsed time).

use crate::config::{Config, DT_LIMIT, POS_LIMIT};
use crate::model::{Ball, Paddle};
use vstd::prelude::*;

verus! {

/// `v` pulled into the interval `[lo, hi]`.
pub open spec fn clamped(v: int, lo: int, hi: int) -> int {
    if v < lo {
        lo
    } else if v > hi {
        hi
    } else {
        v
    }
}

/// The paddle center after one controller pass: the up key adds
/// `paddle_speed * dt` and clamps, then the down key subtracts the same
/// displacement and clamps again. Both keys held apply both branches in
/// that order, each clamped on its own.
pub open spec fn paddle_step_y(y: int, up: bool, down: bool, dt: int, cfg: Config) -> int {
    let after_up = if up {
        clamped(y + cfg.paddle_speed * dt, cfg.min_y as int, cfg.max_y as int)
    } else {
        y
    };
    if down {
        clamped(after_up - cfg.paddle_speed * dt, cfg.min_y as int, cfg.max_y as int)
    } else {
        after_up
    }
}

/// `v` pulled into `[lo, hi]`.
pub fn clamp_to(v: i64, lo: i64, hi: i64) -> (r: i64)
    requires
        lo <= hi,
    ensures
        r == clamped(v as int, lo as int, hi as int),
{
    if v < lo {
        lo
    } else if v > hi {
        hi
    } else {
        v
    }
}

/// The paddle controller for one paddle and one frame: applies the held
/// keys at the configured speed, clamping after each branch.
pub fn paddle_control(p: &mut Paddle, up: bool, down: bool, dt: i64, cfg: &Config)
    requires
        cfg.wf(),
        0 <= dt <= DT_LIMIT,
        old(p).wf(*cfg),
    ensures
        final(p).x == old(p).x,
        final(p).y == paddle_step_y(old(p).y as int, up, down, dt as int, *cfg),
        final(p).wf(*cfg),
{
    proof {
        assert(cfg.paddle_speed * dt <= crate::config::VEL_LIMIT * DT_LIMIT && 0 <= cfg.paddle_speed * dt) by (nonlinear_arith)
            requires
                0 <= cfg.paddle_speed <= crate::config::VEL_LIMIT,
                0 <= dt <= DT_LIMIT,
        ;
    }
    let shift: i64 = cfg.paddle_speed * dt;
    if up {
        p.y = clamp_to(p.y + shift, cfg.min_y, cfg.max_y);
    }
    if down {
        p.y = clamp_to(p.y - shift, cfg.min_y, cfg.max_y);
    }
}

/// Clamping law: whenever a key is held — or the paddle already stands
/// inside the clamp interval — one controller pass leaves the paddle center
/// inside `[min_y, max_y]`.
pub proof fn lemma_paddle_clamped(y: int, up: bool, down: bool, dt: int, cfg: Config)
    requires
        cfg.wf(),
        up || down || cfg.min_y <= y <= cfg.max_y,
    ensures
        cfg.min_y <= paddle_step_y(y, up, down, dt, cfg) <= cfg.max_y,
{
}

/// The ball integrator: adds `velocity * dt` to the position,
/// componentwise, and touches nothing else. The bounds in `requires` are
/// exactly what keeps the new position on the representable grid.
pub fn ball_integrate(b: &mut Ball, dt: i64)
    requires
        0 <= dt <= DT_LIMIT,
        old(b).wf(),
        -POS_LIMIT <= old(b).x + old(b).vx * dt <= POS_LIMIT,
        -POS_LIMIT <= old(b).y + old(b).vy * dt <= POS_LIMIT,
    ensures
        final(b).x == old(b).x + old(b).vx * dt,
        final(b).y == old(b).y + old(b).vy * dt,
        final(b).vx == old(b).vx,
        final(b).vy == old(b).vy,
        final(b).wf(),
{
    proof {
        assert(-(crate::config::VEL_LIMIT * DT_LIMIT) <= b.vx * dt <= crate::config::VEL_LIMIT * DT_LIMIT) by (nonlinear_arith)
            requires
                -crate::config::VEL_LIMIT <= b.vx <= crate::config::VEL_LIMIT,
                0 <= dt <= DT_LIMIT,
        ;
        assert(-(crate::config::VEL_LIMIT * DT_LIMIT) <= b.vy * dt <= crate::config::VEL_LIMIT * DT_LIMIT) by (nonlinear_arith)
            requires
                -crate::config::VEL_LIMIT <= b.vy <= crate::config::VEL_LIMIT,
                0 <= dt <= DT_LIMIT,
        ;
    }
    b.x = b.x + b.vx * dt;
    b.y = b.y + b.vy * dt;
}

} // verus!
