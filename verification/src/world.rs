//! The world store: the one ball, the two paddles and the session
//! configuration, created once at startup and mutated only by the three
//! per-frame systems, which [`World::step`] runs in the fixed order
//! paddle controller, ball integrator, collision resolver.

use crate::collision::{overlaps, past_boundary, resolve_collisions, resolve_collisions_with, vx_after, vy_after};
use crate::config::{spec_standard_config, standard_config, Config, DT_LIMIT, POS_LIMIT};
use crate::model::{Ball, InputState, Paddle};
use crate::motion::{ball_integrate, paddle_control, paddle_step_y};
use vstd::prelude::*;

verus! {

/// The shared simulation state: exactly one ball and exactly two paddles,
/// held for the lifetime of the session.
#[derive(Clone, Copy, PartialEq, Eq, Structural, Debug)]
pub struct World {
    pub config: Config,
    pub ball: Ball,
    pub left: Paddle,
    pub right: Paddle,
}

/// The ball's horizontal position after the integrator pass of one frame.
pub open spec fn step_ball_x(w: World, dt: int) -> int {
    w.ball.x + w.ball.vx * dt
}

/// The ball's vertical position after the integrator pass of one frame.
pub open spec fn step_ball_y(w: World, dt: int) -> int {
    w.ball.y + w.ball.vy * dt
}

/// The left paddle's center after the controller pass of one frame.
pub open spec fn step_left_y(w: World, input: InputState, dt: int) -> int {
    paddle_step_y(w.left.y as int, input.left_up, input.left_down, dt, w.config)
}

/// The right paddle's center after the controller pass of one frame.
pub open spec fn step_right_y(w: World, input: InputState, dt: int) -> int {
    paddle_step_y(w.right.y as int, input.right_up, input.right_down, dt, w.config)
}

/// The resolver's overlap test against the left paddle, taken on the
/// positions the paddle controller and ball integrator leave behind.
pub open spec fn step_overlaps_left(w: World, input: InputState, dt: int) -> bool {
    overlaps(
        step_ball_x(w, dt),
        step_ball_y(w, dt),
        w.left.x as int,
        step_left_y(w, input, dt),
        w.config,
    )
}

/// The resolver's overlap test against the right paddle, on the same
/// post-movement positions.
pub open spec fn step_overlaps_right(w: World, input: InputState, dt: int) -> bool {
    overlaps(
        step_ball_x(w, dt),
        step_ball_y(w, dt),
        w.right.x as int,
        step_right_y(w, input, dt),
        w.config,
    )
}

/// The ball's horizontal velocity at the end of one frame.
pub open spec fn step_vx(w: World, input: InputState, dt: int) -> int {
    vx_after(
        step_ball_x(w, dt),
        step_ball_y(w, dt),
        w.ball.vx as int,
        w.left.x as int,
        step_left_y(w, input, dt),
        w.right.x as int,
        step_right_y(w, input, dt),
        w.config,
    )
}

/// The ball's vertical velocity at the end of one frame, given the two
/// deflection draws.
pub open spec fn step_vy(w: World, input: InputState, dt: int, r1: int, r2: int) -> int {
    vy_after(
        step_ball_x(w, dt),
        step_ball_y(w, dt),
        w.ball.vy as int,
        w.left.x as int,
        step_left_y(w, input, dt),
        w.right.x as int,
        step_right_y(w, input, dt),
        r1,
        r2,
        w.config,
    )
}

/// The startup state of the stock session: the ball at the origin moving
/// left at 100 units/s, and the paddles vertically centered 380 units out
/// on either side.
pub open spec fn spec_initial_world() -> World {
    World {
        config: spec_standard_config(),
        ball: Ball { x: 0, y: 0, vx: -100i64, vy: 0 },
        left: Paddle { x: -380_000i64, y: 0 },
        right: Paddle { x: 380_000, y: 0 },
    }
}

impl World {
    /// Every piece of the state is well formed under the one configuration.
    pub open spec fn wf(&self) -> bool {
        &&& self.config.wf()
        &&& self.ball.wf()
        &&& self.left.wf(self.config)
        &&& self.right.wf(self.config)
    }

    /// One frame of integration stays on the representable grid for this
    /// elapsed time.
    pub open spec fn integration_fits(&self, dt: int) -> bool {
        &&& -POS_LIMIT <= self.ball.x + self.ball.vx * dt <= POS_LIMIT
        &&& -POS_LIMIT <= self.ball.y + self.ball.vy * dt <= POS_LIMIT
    }

    /// Creates the stock session in its startup state.
    pub fn new() -> (w: World)
        ensures
            w == spec_initial_world(),
            w.wf(),
    {
        World {
            config: standard_config(),
            ball: Ball { x: 0, y: 0, vx: -100i64, vy: 0 },
            left: Paddle { x: -380_000i64, y: 0 },
            right: Paddle { x: 380_000, y: 0 },
        }
    }

    /// One frame with the two deflection draws supplied by the caller: the
    /// paddle controller moves both paddles, the ball integrator advances
    /// the ball, and the collision resolver adjusts the velocity — in that
    /// order, so the resolver sees the post-movement positions. The whole
    /// new state is a function of the arguments.
    pub fn step_with(&mut self, input: InputState, dt: i64, r1: i64, r2: i64)
        requires
            old(self).wf(),
            0 <= dt <= DT_LIMIT,
            old(self).integration_fits(dt as int),
            old(self).config.rand_lo <= r1 < old(self).config.rand_hi,
            old(self).config.rand_lo <= r2 < old(self).config.rand_hi,
        ensures
            final(self).config == old(self).config,
            final(self).left.x == old(self).left.x,
            final(self).right.x == old(self).right.x,
            final(self).left.y == step_left_y(*old(self), input, dt as int),
            final(self).right.y == step_right_y(*old(self), input, dt as int),
            final(self).ball.x == step_ball_x(*old(self), dt as int),
            final(self).ball.y == step_ball_y(*old(self), dt as int),
            final(self).ball.vx == step_vx(*old(self), input, dt as int),
            final(self).ball.vy == step_vy(*old(self), input, dt as int, r1 as int, r2 as int),
            final(self).wf(),
    {
        let cfg = self.config;
        let mut left = self.left;
        paddle_control(&mut left, input.left_up, input.left_down, dt, &cfg);
        self.left = left;
        let mut right = self.right;
        paddle_control(&mut right, input.right_up, input.right_down, dt, &cfg);
        self.right = right;
        let mut ball = self.ball;
        ball_integrate(&mut ball, dt);
        resolve_collisions_with(&mut ball, &self.left, &self.right, r1, r2, &cfg);
        self.ball = ball;
    }

    /// One frame with the deflection draws taken from the process-wide
    /// generator: positions, the horizontal velocity and the no-hit
    /// vertical velocity are exact; after a paddle hit the vertical
    /// velocity is only known to lie in the configured range.
    pub fn step(&mut self, input: InputState, dt: i64)
        requires
            old(self).wf(),
            0 <= dt <= DT_LIMIT,
            old(self).integration_fits(dt as int),
        ensures
            final(self).config == old(self).config,
            final(self).left.x == old(self).left.x,
            final(self).right.x == old(self).right.x,
            final(self).left.y == step_left_y(*old(self), input, dt as int),
            final(self).right.y == step_right_y(*old(self), input, dt as int),
            final(self).ball.x == step_ball_x(*old(self), dt as int),
            final(self).ball.y == step_ball_y(*old(self), dt as int),
            final(self).ball.vx == step_vx(*old(self), input, dt as int),
            !step_overlaps_left(*old(self), input, dt as int) && !step_overlaps_right(
                *old(self),
                input,
                dt as int,
            ) ==> final(self).ball.vy == (if past_boundary(
                step_ball_y(*old(self), dt as int),
                old(self).config,
            ) {
                -old(self).ball.vy
            } else {
                old(self).ball.vy as int
            }),
            step_overlaps_left(*old(self), input, dt as int) || step_overlaps_right(
                *old(self),
                input,
                dt as int,
            ) ==> old(self).config.rand_lo <= final(self).ball.vy < old(self).config.rand_hi,
            final(self).wf(),
    {
        let cfg = self.config;
        let mut left = self.left;
        paddle_control(&mut left, input.left_up, input.left_down, dt, &cfg);
        self.left = left;
        let mut right = self.right;
        paddle_control(&mut right, input.right_up, input.right_down, dt, &cfg);
        self.right = right;
        let mut ball = self.ball;
        ball_integrate(&mut ball, dt);
        resolve_collisions(&mut ball, &self.left, &self.right, &cfg);
        self.ball = ball;
    }

    /// The ball's center, in milliunits, for the rendering host.
    pub fn ball_position(&self) -> (p: (i64, i64))
        ensures
            p.0 == self.ball.x,
            p.1 == self.ball.y,
    {
        (self.ball.x, self.ball.y)
    }

    /// The ball's velocity, in units per second.
    pub fn ball_velocity(&self) -> (v: (i64, i64))
        ensures
            v.0 == self.ball.vx,
            v.1 == self.ball.vy,
    {
        (self.ball.vx, self.ball.vy)
    }

    /// The left paddle's center, in milliunits, for the rendering host.
    pub fn left_paddle_position(&self) -> (p: (i64, i64))
        ensures
            p.0 == self.left.x,
            p.1 == self.left.y,
    {
        (self.left.x, self.left.y)
    }

    /// The right paddle's center, in milliunits, for the rendering host.
    pub fn right_paddle_position(&self) -> (p: (i64, i64))
        ensures
            p.0 == self.right.x,
            p.1 == self.right.y,
    {
        (self.right.x, self.right.y)
    }
}

} // verus!

