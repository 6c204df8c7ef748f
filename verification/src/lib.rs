//! Simulation core of a 2D scrolling shooter.
//!
//! The crate holds the fixed-timestep scheduler, the entity-component store with
//! its deferred command queue, and the systems that run on the store each tick:
//! movement, weapon firing, bullet culling, sprite animation and position
//! tracking. Rendering, input devices and audio stay with the caller, which
//! hands the core plain values and takes plain values back.
//!
//! All quantities are integers. Lengths are counted in sub-pixel units
//! ([`units::UNITS_PER_PIXEL`] to the pixel), time in nanoseconds, scale factors
//! in percent, and the interpolation factor in parts of [`units::ALPHA_ONE`].

use vstd::prelude::*;

pub mod component;
pub mod entity;
pub mod errors;
pub mod resource;
pub mod scheduler;
pub mod simulation;
pub mod sound;
pub mod sprite;
pub mod store;
pub mod system;
pub mod units;

verus! {

/// Simulation ticks per second.
pub const FRAME_RATE_GAME: u32 = 60;

/// Displayed frames per second that the renderer aims for.
pub const FRAME_RATE_RENDER: u32 = 60;

/// Width of the play area in pixels.
pub const GAME_WIDTH: u32 = 640;

/// Height of the play area in pixels.
pub const GAME_HEIGHT: u32 = 480;

/// Window pixels per pixel of the play area.
pub const WINDOW_SCALE: u32 = 2;

} // verus!
