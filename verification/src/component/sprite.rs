//! What an entity looks like.

use crate::sprite::SpriteId;
use crate::system::render::Layer;
use vstd::prelude::*;

verus! {

/// The sprite that an entity is drawn with, the layer it is drawn in, the
/// frame of the sprite that is shown, and the scale of the drawing in
/// percent.
#[derive(Clone, Copy, Debug, PartialEq, Eq, Structural)]
pub struct SpriteComponent {
    pub sprite: SpriteId,
    pub layer: Layer,
    pub current_frame_idx: usize,
    pub scale_factor: u32,
}

impl SpriteComponent {
    /// The first frame of a sprite at its natural size.
    pub fn new(sprite_id: SpriteId, layer: Layer) -> (r: Self)
        ensures
            r == (SpriteComponent { sprite: sprite_id, layer, current_frame_idx: 0, scale_factor: 100 }),
    {
        Self { sprite: sprite_id, layer, current_frame_idx: 0, scale_factor: 100 }
    }

    /// The same sprite drawn at `scale_factor` percent of its natural size.
    pub fn with_scale_factor(self, scale_factor: u32) -> (r: Self)
        ensures
            r == (SpriteComponent { scale_factor, ..self }),
    {
        let mut sprite = self;
        sprite.scale_factor = scale_factor;
        sprite
    }
}

} // verus!
