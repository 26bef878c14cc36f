//! Fixed configuration of a simulation session: playfield geometry, paddle
//! speed and the range of the randomized deflection, together with the limits
//! that keep every per-frame computation inside `i64`.

use vstd::prelude::*;

verus! {

/// Milliunits per world unit: the resolution of the position grid.
pub const MILLIS_PER_UNIT: i64 = 1_000;

/// Largest magnitude, in milliunits, of any configured coordinate
/// (clamp bounds, paddle centers, half-extents, bounce line).
pub const COORD_LIMIT: i64 = 1_000_000_000_000;

/// Largest magnitude, in units per second, of any velocity component.
pub const VEL_LIMIT: i64 = 1_000_000_000;

/// Largest elapsed time, in milliseconds, accepted for a single frame.
pub const DT_LIMIT: i64 = 1_000_000_000;

/// Largest magnitude, in milliunits, of a ball coordinate. The ball may
/// drift far outside the playfield, so this bound is much wider than
/// `COORD_LIMIT`; it still leaves room to add a half-extent without
/// overflowing `i64`.
pub const POS_LIMIT: i64 = 9_000_000_000_000_000_000;

/// The fixed parameters of a session. Lengths are milliunits, speeds are
/// units per second.
#[derive(Clone, Copy, PartialEq, Eq, Structural, Debug)]
pub struct Config {
    /// Lowest paddle center the clamp allows.
    pub min_y: i64,
    /// Highest paddle center the clamp allows.
    pub max_y: i64,
    /// Paddle displacement per second while a key is held.
    pub paddle_speed: i64,
    /// Half-extent of the ball's collision box, both axes.
    pub ball_half: i64,
    /// Horizontal half-extent of a paddle's collision box.
    pub paddle_half_w: i64,
    /// Vertical half-extent of a paddle's collision box.
    pub paddle_half_h: i64,
    /// Boundary bounce fires when `|ball.y| + ball_half` exceeds this.
    pub bounce_line: i64,
    /// Inclusive lower end of the randomized vertical deflection.
    pub rand_lo: i64,
    /// Exclusive upper end of the randomized vertical deflection.
    pub rand_hi: i64,
}

impl Config {
    /// A configuration the simulation can run on: the clamp interval is
    /// non-empty, the deflection range is non-empty, and every parameter is
    /// small enough that frame arithmetic stays inside `i64`.
    pub open spec fn wf(&self) -> bool {
        &&& -COORD_LIMIT <= self.min_y <= self.max_y <= COORD_LIMIT
        &&& 0 <= self.paddle_speed <= VEL_LIMIT
        &&& 0 <= self.ball_half <= COORD_LIMIT
        &&& 0 <= self.paddle_half_w <= COORD_LIMIT
        &&& 0 <= self.paddle_half_h <= COORD_LIMIT
        &&& 0 <= self.bounce_line <= COORD_LIMIT
        &&& -VEL_LIMIT <= self.rand_lo < self.rand_hi <= VEL_LIMIT
    }
}

/// The stock session: a 1280-unit-tall window, paddles clamped to
/// `[-715, 565]` units, paddle speed 200 units/s, 25x25-unit ball, 25x25-unit
/// paddle collision boxes, bounce line at 250 units of half-height, and
/// vertical deflection drawn from `[-100, 100)` units/s.
pub open spec fn spec_standard_config() -> Config {
    Config {
        min_y: -715_000i64,
        max_y: 565_000,
        paddle_speed: 200,
        ball_half: 12_500,
        paddle_half_w: 12_500,
        paddle_half_h: 12_500,
        bounce_line: 250_000,
        rand_lo: -100i64,
        rand_hi: 100,
    }
}

/// Builds the stock session configuration.
pub fn standard_config() -> (c: Config)
    ensures
        c == spec_standard_config(),
        c.wf(),
{
    Config {
        min_y: -715_000i64,
        max_y: 565_000,
        paddle_speed: 200,
        ball_half: 12_500,
        paddle_half_w: 12_500,
        paddle_half_h: 12_500,
        bounce_line: 250_000,
        rand_lo: -100i64,
        rand_hi: 100,
    }
}

} // verus!
