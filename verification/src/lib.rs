//! Core simulation for a minimal two-paddle ball game.
//!
//! The playfield is modelled on an integer grid: positions are measured in
//! milliunits (one thousandth of a world unit), velocities in world units per
//! second (equivalently, milliunits per millisecond), and elapsed time in
//! milliseconds. On this grid every per-frame formula — paddle displacement,
//! ball integration, clamping and the bounce rules — is exact integer
//! arithmetic, and each public function carries a contract stating it.
//!
//! The host that owns the window, the input devices and the frame clock calls
//! [`world::World::step`] once per frame with the held-key state and the
//! elapsed milliseconds, and reads positions back for rendering.

pub mod collision;
pub mod config;
pub mod model;
pub mod motion;
pub mod world;
