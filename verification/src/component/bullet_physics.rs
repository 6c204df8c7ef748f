//! The motion of a projectile.

use vstd::prelude::*;

verus! {

/// A projectile flies at a constant velocity, in units per tick, and lives
/// for as long as it stays inside its alive rectangle.
#[derive(Clone, Copy, Debug, PartialEq, Eq, Structural)]
pub struct BulletPhysicsComponent {
    pub vx: i32,
    pub vy: i32,
    pub x_min: i32,
    pub x_max: i32,
    pub y_min: i32,
    pub y_max: i32,
}

} // verus!
