//! What can go wrong around and inside the simulation.

use crate::store::entity::Entity;
use vstd::prelude::*;

verus! {

/// A failure of the graphics and audio layer, with what the layer said
/// of it.
#[allow(clippy::enum_variant_names, dead_code)]
#[derive(Debug, PartialEq, Eq)]
pub enum SdlError {
    InitError(String),
    SpriteLoadError(String),
    PlaceHolderCreateError(String),
    SoundLoadError(String),
    AudioPlayError(String),
}

impl SdlError {
    /// What the failing layer said.
    pub open spec fn detail(self) -> Seq<char> {
        match self {
            SdlError::InitError(detail) => detail@,
            SdlError::SpriteLoadError(detail) => detail@,
            SdlError::PlaceHolderCreateError(detail) => detail@,
            SdlError::SoundLoadError(detail) => detail@,
            SdlError::AudioPlayError(detail) => detail@,
        }
    }

    /// What went wrong, in words.
    pub open spec fn headline(self) -> Seq<char> {
        match self {
            SdlError::InitError(_) => "Initialization error: "@,
            SdlError::SpriteLoadError(_) => "Failed to load sprite: "@,
            SdlError::PlaceHolderCreateError(_) => "Failed to create placeholder texture: "@,
            SdlError::SoundLoadError(_) => "Failed to load sound sample: "@,
            SdlError::AudioPlayError(_) => "Failed to play audio sample: "@,
        }
    }

    /// The message of the error: what went wrong, then what the failing
    /// layer said.
    pub fn message(&self) -> (r: String)
        ensures
            r@ == self.headline() + self.detail(),
    {
        let (headline, detail) = match self {
            SdlError::InitError(detail) => ("Initialization error: ", detail),
            SdlError::SpriteLoadError(detail) => ("Failed to load sprite: ", detail),
            SdlError::PlaceHolderCreateError(detail) => ("Failed to create placeholder texture: ", detail),
            SdlError::SoundLoadError(detail) => ("Failed to load sound sample: ", detail),
            SdlError::AudioPlayError(detail) => ("Failed to play audio sample: ", detail),
        };
        let mut message = headline.to_owned();
        message.append(detail.as_str());
        message
    }
}

/// A broken assumption about the entities, found before a system runs. Each
/// names the entity at fault. None can be recovered from within the tick:
/// the world was put together wrongly, and the system is not for it.
#[derive(Clone, Copy, Debug, PartialEq, Eq, Structural)]
pub enum SystemError {
    /// An animated unit has no sprite.
    UnitWithoutSprite(Entity),
    /// The glow entity of an animated unit is gone or has no sprite.
    GlowEntityMissing(Entity),
    /// The entity that a follower tracks is gone or has no position.
    TrackedEntityMissing(Entity),
    /// A follower has no position of its own.
    FollowerWithoutPosition(Entity),
}

} // verus!
