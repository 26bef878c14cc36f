//! The collision resolver: the boundary bounce at the top and bottom of the
//! playfield, the axis-aligned overlap test against each paddle, and the
//! randomized vertical deflection a paddle hit introduces.
//!
//! Run once per frame, after integration: first the boundary check flips the
//! vertical velocity if the ball's box pokes past the bounce line; then each
//! paddle in turn (left, then right) is tested for overlap, and on overlap
//! both velocity components are negated and the vertical one is overwritten
//! with a fresh draw from the configured range. Positions are never touched
//! here.

use crate::config::{Config, COORD_LIMIT, POS_LIMIT};
use crate::model::{Ball, Paddle};
use rand::Rng;
use vstd::prelude::*;

verus! {

/// Magnitude of `v`.
pub open spec fn abs_val(v: int) -> int {
    if v < 0 {
        -v
    } else {
        v
    }
}

/// The boundary bounce fires: the ball's box reaches past the top or
/// bottom of the playfield.
pub open spec fn past_boundary(by: int, cfg: Config) -> bool {
    abs_val(by) + cfg.ball_half > cfg.bounce_line
}

/// The axis-aligned overlap test between the ball's box centered at
/// `(bx, by)` and a paddle's box centered at `(px, py)`: all four strict
/// inequalities must hold.
pub open spec fn overlaps(bx: int, by: int, px: int, py: int, cfg: Config) -> bool {
    &&& bx - cfg.ball_half < px + cfg.paddle_half_w
    &&& by - cfg.ball_half < py + cfg.paddle_half_h
    &&& bx + cfg.ball_half > px - cfg.paddle_half_w
    &&& by + cfg.ball_half > py - cfg.paddle_half_h
}

/// Horizontal velocity after one resolver pass on a ball at `(bx, by)`
/// moving horizontally at `vx`: each overlapping paddle negates it, so a
/// double hit in one frame restores the original sign.
pub open spec fn vx_after(
    bx: int,
    by: int,
    vx: int,
    lx: int,
    ly: int,
    rx: int,
    ry: int,
    cfg: Config,
) -> int {
    let after_left = if overlaps(bx, by, lx, ly, cfg) {
        -vx
    } else {
        vx
    };
    if overlaps(bx, by, rx, ry, cfg) {
        -after_left
    } else {
        after_left
    }
}

/// Vertical velocity after one resolver pass, given the draws `r1` (spent
/// on a left-paddle hit) and `r2` (spent on a right-paddle hit): the last
/// paddle hit wins; with no hit, the boundary bounce may flip the sign; with
/// neither, the velocity is unchanged.
pub open spec fn vy_after(
    bx: int,
    by: int,
    vy: int,
    lx: int,
    ly: int,
    rx: int,
    ry: int,
    r1: int,
    r2: int,
    cfg: Config,
) -> int {
    if overlaps(bx, by, rx, ry, cfg) {
        r2
    } else if overlaps(bx, by, lx, ly, cfg) {
        r1
    } else if past_boundary(by, cfg) {
        -vy
    } else {
        vy
    }
}

/// Executable form of the overlap test.
pub fn overlap_test(bx: i64, by: i64, px: i64, py: i64, cfg: &Config) -> (r: bool)
    requires
        cfg.wf(),
        -POS_LIMIT <= bx <= POS_LIMIT,
        -POS_LIMIT <= by <= POS_LIMIT,
        -COORD_LIMIT <= px <= COORD_LIMIT,
        -COORD_LIMIT <= py <= COORD_LIMIT,
    ensures
        r == overlaps(bx as int, by as int, px as int, py as int, *cfg),
{
    bx - cfg.ball_half < px + cfg.paddle_half_w && by - cfg.ball_half < py + cfg.paddle_half_h
        && bx + cfg.ball_half > px - cfg.paddle_half_w && by + cfg.ball_half > py
        - cfg.paddle_half_h
}

/// One resolver pass with the two deflection draws supplied by the caller,
/// so that the whole outcome is a function of the arguments.
pub fn resolve_collisions_with(
    b: &mut Ball,
    left: &Paddle,
    right: &Paddle,
    r1: i64,
    r2: i64,
    cfg: &Config,
)
    requires
        cfg.wf(),
        old(b).wf(),
        left.wf(*cfg),
        right.wf(*cfg),
        cfg.rand_lo <= r1 < cfg.rand_hi,
        cfg.rand_lo <= r2 < cfg.rand_hi,
    ensures
        final(b).x == old(b).x,
        final(b).y == old(b).y,
        final(b).vx == vx_after(
            old(b).x as int,
            old(b).y as int,
            old(b).vx as int,
            left.x as int,
            left.y as int,
            right.x as int,
            right.y as int,
            *cfg,
        ),
        final(b).vy == vy_after(
            old(b).x as int,
            old(b).y as int,
            old(b).vy as int,
            left.x as int,
            left.y as int,
            right.x as int,
            right.y as int,
            r1 as int,
            r2 as int,
            *cfg,
        ),
        final(b).wf(),
{
    let magnitude: i64 = if b.y < 0 {
        -b.y
    } else {
        b.y
    };
    if magnitude + cfg.ball_half > cfg.bounce_line {
        b.vy = -b.vy;
    }
    if overlap_test(b.x, b.y, left.x, left.y, cfg) {
        b.vx = -b.vx;
        b.vy = r1;
    }
    if overlap_test(b.x, b.y, right.x, right.y, cfg) {
        b.vx = -b.vx;
        b.vy = r2;
    }
}

/// Relies on rand's `Rng::gen_range` over `lo..hi`: the sample lies in
/// `[lo, hi)`, and the call panics only on an empty range, which the
/// precondition rules out.
#[verifier::external_body]
fn random_in_range(lo: i64, hi: i64) -> (r: i64)
    requires
        lo < hi,
    ensures
        lo <= r < hi,
{
    rand::thread_rng().gen_range(lo..hi)
}

/// One resolver pass with the deflection draws taken from the process-wide
/// generator. The horizontal outcome and the no-hit vertical outcome are
/// exact; after a paddle hit the vertical velocity is only known to lie in
/// the configured range.
pub fn resolve_collisions(b: &mut Ball, left: &Paddle, right: &Paddle, cfg: &Config)
    requires
        cfg.wf(),
        old(b).wf(),
        left.wf(*cfg),
        right.wf(*cfg),
    ensures
        final(b).x == old(b).x,
        final(b).y == old(b).y,
        final(b).vx == vx_after(
            old(b).x as int,
            old(b).y as int,
            old(b).vx as int,
            left.x as int,
            left.y as int,
            right.x as int,
            right.y as int,
            *cfg,
        ),
        !overlaps(old(b).x as int, old(b).y as int, left.x as int, left.y as int, *cfg)
            && !overlaps(old(b).x as int, old(b).y as int, right.x as int, right.y as int, *cfg)
            ==> final(b).vy == (if past_boundary(old(b).y as int, *cfg) {
            -old(b).vy
        } else {
            old(b).vy as int
        }),
        overlaps(old(b).x as int, old(b).y as int, left.x as int, left.y as int, *cfg)
            || overlaps(old(b).x as int, old(b).y as int, right.x as int, right.y as int, *cfg)
            ==> cfg.rand_lo <= final(b).vy < cfg.rand_hi,
        final(b).wf(),
{
    let r1 = random_in_range(cfg.rand_lo, cfg.rand_hi);
    let r2 = random_in_range(cfg.rand_lo, cfg.rand_hi);
    resolve_collisions_with(b, left, right, r1, r2, cfg);
}

/// Boundary bounce law: past the bounce line and clear of both paddles,
/// one resolver pass flips the sign of the vertical velocity and preserves
/// its magnitude, and leaves the horizontal velocity alone.
pub proof fn lemma_boundary_bounce(
    bx: int,
    by: int,
    vx: int,
    vy: int,
    lx: int,
    ly: int,
    rx: int,
    ry: int,
    r1: int,
    r2: int,
    cfg: Config,
)
    requires
        past_boundary(by, cfg),
        !overlaps(bx, by, lx, ly, cfg),
        !overlaps(bx, by, rx, ry, cfg),
    ensures
        vy_after(bx, by, vy, lx, ly, rx, ry, r1, r2, cfg) == -vy,
        vx_after(bx, by, vx, lx, ly, rx, ry, cfg) == vx,
{
}

/// Paddle bounce law: on an overlap with exactly one paddle, one resolver
/// pass negates the horizontal velocity and leaves the vertical velocity
/// inside the configured deflection range.
pub proof fn lemma_paddle_bounce(
    bx: int,
    by: int,
    vx: int,
    vy: int,
    lx: int,
    ly: int,
    rx: int,
    ry: int,
    r1: int,
    r2: int,
    cfg: Config,
)
    requires
        cfg.rand_lo <= r1 < cfg.rand_hi,
        cfg.rand_lo <= r2 < cfg.rand_hi,
        overlaps(bx, by, lx, ly, cfg) != overlaps(bx, by, rx, ry, cfg),
    ensures
        vx_after(bx, by, vx, lx, ly, rx, ry, cfg) == -vx,
        cfg.rand_lo <= vy_after(bx, by, vy, lx, ly, rx, ry, r1, r2, cfg) < cfg.rand_hi,
{
}

/// No-overlap no-op law: clear of both paddles and inside the bounce line,
/// one resolver pass leaves both velocity components unchanged.
pub proof fn lemma_no_overlap_no_op(
    bx: int,
    by: int,
    vx: int,
    vy: int,
    lx: int,
    ly: int,
    rx: int,
    ry: int,
    r1: int,
    r2: int,
    cfg: Config,
)
    requires
        !overlaps(bx, by, lx, ly, cfg),
        !overlaps(bx, by, rx, ry, cfg),
        !past_boundary(by, cfg),
    ensures
        vx_after(bx, by, vx, lx, ly, rx, ry, cfg) == vx,
        vy_after(bx, by, vy, lx, ly, rx, ry, r1, r2, cfg) == vy,
{
}

} // verus!
