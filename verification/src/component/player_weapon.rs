//! The weapon of a player-controlled unit.

use crate::sound::SoundId;
use crate::sprite::SpriteId;
use vstd::prelude::*;

verus! {

/// A weapon fires when its cooldown has run out, and then waits
/// `cooldown_reset` ticks before it can fire again.
#[derive(Clone, Copy, Debug, PartialEq, Eq)]
pub struct PlayerWeaponComponent {
    pub cooldown_reset: u32,
    pub cooldown: u32,
    pub bullet_sprite: SpriteId,
    /// Width and height of a projectile in pixels.
    pub bullet_dimensions: (u32, u32),
    pub bullet_sound: SoundId,
}

impl PlayerWeaponComponent {
    /// A weapon that is ready to fire and waits `cooldown` ticks between
    /// shots. Its projectiles have no extent until
    /// [`PlayerWeaponComponent::with_bullet_dimensions`] gives them one.
    pub fn new(cooldown: u32, bullet_sprite: SpriteId, bullet_sound: SoundId) -> (r: Self)
        ensures
            r == (PlayerWeaponComponent {
                cooldown_reset: cooldown,
                cooldown: 0,
                bullet_sprite,
                bullet_dimensions: (0u32, 0u32),
                bullet_sound,
            }),
    {
        Self { cooldown_reset: cooldown, cooldown: 0, bullet_sprite, bullet_dimensions: (0, 0), bullet_sound }
    }

    /// The same weapon with projectiles of the given width and height.
    pub fn with_bullet_dimensions(self, bullet_dimensions: (u32, u32)) -> (r: Self)
        ensures
            r == (PlayerWeaponComponent { bullet_dimensions, ..self }),
    {
        let mut weapon = self;
        weapon.bullet_dimensions = bullet_dimensions;
        weapon
    }
}

} // verus!
