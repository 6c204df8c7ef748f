//! The motion of a player-controlled unit.

use vstd::prelude::*;

verus! {

/// Acceleration and velocity of a unit, the most of each that it can reach
/// on either axis, and the rectangle that its position is held in.
#[derive(Clone, Copy, Debug, PartialEq, Eq, Structural)]
pub struct PlayerPhysicsComponent {
    // Acceleration / velocity
    pub ax: i32,
    pub ay: i32,
    pub vx: i32,
    pub vy: i32,
    // Max. acceleration / velocity
    pub ax_max: i32,
    pub ay_max: i32,
    pub vx_max: i32,
    pub vy_max: i32,
    // Bounding box
    pub x_min: i32,
    pub x_max: i32,
    pub y_min: i32,
    pub y_max: i32,
}

} // verus!
