//! The entities of the simulation — the ball and the two paddles — and the
//! per-frame input snapshot the host hands over.

use crate::config::{Config, COORD_LIMIT, POS_LIMIT, VEL_LIMIT};
use vstd::prelude::*;

verus! {

/// The ball: a center position in milliunits and a velocity in units per
/// second. The render-order depth of the host is cosmetic and not part of
/// the simulation state.
#[derive(Clone, Copy, PartialEq, Eq, Structural, Debug)]
pub struct Ball {
    pub x: i64,
    pub y: i64,
    pub vx: i64,
    pub vy: i64,
}

impl Ball {
    /// Position and velocity are small enough that one frame of collision
    /// arithmetic cannot overflow.
    pub open spec fn wf(&self) -> bool {
        &&& -POS_LIMIT <= self.x <= POS_LIMIT
        &&& -POS_LIMIT <= self.y <= POS_LIMIT
        &&& -VEL_LIMIT <= self.vx <= VEL_LIMIT
        &&& -VEL_LIMIT <= self.vy <= VEL_LIMIT
    }
}

/// A paddle: a center position in milliunits. Paddles have no velocity;
/// they move directly in response to held input.
#[derive(Clone, Copy, PartialEq, Eq, Structural, Debug)]
pub struct Paddle {
    pub x: i64,
    pub y: i64,
}

impl Paddle {
    /// The paddle stands at a configured horizontal position and its center
    /// is inside the clamp interval.
    pub open spec fn wf(&self, cfg: Config) -> bool {
        &&& -COORD_LIMIT <= self.x <= COORD_LIMIT
        &&& cfg.min_y <= self.y <= cfg.max_y
    }
}

/// Which of the four paddle keys are held during the current frame.
#[derive(Clone, Copy, PartialEq, Eq, Structural, Debug)]
pub struct InputState {
    pub left_up: bool,
    pub left_down: bool,
    pub right_up: bool,
    pub right_down: bool,
}

impl InputState {
    /// A frame with no key held.
    pub fn none() -> (i: InputState)
        ensures
            !i.left_up && !i.left_down && !i.right_up && !i.right_down,
    {
        InputState { left_up: false, left_down: false, right_up: false, right_down: false }
    }
}

} // verus!
