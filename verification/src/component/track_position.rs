//! A position that follows another entity.

use crate::store::entity::Entity;
use vstd::prelude::*;

verus! {

/// The entity that is followed, and the constant offset at which it is
/// followed. The follower does not own the entity it follows.
#[derive(Clone, Copy, Debug, PartialEq, Eq)]
pub struct TrackPositionComponent {
    pub tracked_entity: Entity,
    pub offset: (i32, i32),
}

} // verus!
