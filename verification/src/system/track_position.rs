//! Followers: entities whose position is that of another entity plus an
//! offset.

use crate::component::position::{PositionComponent, PositionView};
use crate::component::track_position::TrackPositionComponent;
use crate::errors::SystemError;
use crate::store::entity::{alive_in, entity_in, occupied, Entities, Slot};
use crate::store::storage::Storage;
use crate::units::{lerp_spec, saturate_spec, saturating_sum};
use vstd::prelude::*;

verus! {

/// Whether a follower lives in slot `i`: an entity with a tracking
/// component.
pub open spec fn follows_at(entities: Seq<Slot>, track: Map<int, TrackPositionComponent>, i: int) -> bool {
    occupied(entities, i) && track.contains_key(i)
}

/// What is wrong with the follower in slot `i`, if anything: the entity it
/// tracks must be alive and have a position, and it must have a position
/// itself.
pub open spec fn track_fault_at(
    entities: Seq<Slot>,
    track: Map<int, TrackPositionComponent>,
    position: Map<int, PositionComponent>,
    i: int,
) -> Option<SystemError> {
    if !follows_at(entities, track, i) {
        None
    } else if !alive_in(entities, track[i].tracked_entity) || !position.contains_key(
        track[i].tracked_entity.index as int,
    ) {
        Some(SystemError::TrackedEntityMissing(entity_in(entities, i)))
    } else if !position.contains_key(i) {
        Some(SystemError::FollowerWithoutPosition(entity_in(entities, i)))
    } else {
        None
    }
}

/// The first fault among the followers in the slots below `n`.
pub open spec fn track_fault_upto(
    entities: Seq<Slot>,
    track: Map<int, TrackPositionComponent>,
    position: Map<int, PositionComponent>,
    n: int,
) -> Option<SystemError>
    decreases n,
{
    if n <= 0 {
        None
    } else {
        match track_fault_upto(entities, track, position, n - 1) {
            Some(fault) => Some(fault),
            None => track_fault_at(entities, track, position, n - 1),
        }
    }
}

/// The position of a follower of `target` at `offset`: its current position
/// is the target's current position plus the offset and its previous
/// position the target's previous position plus the offset, so that the
/// follower is drawn in step with its target.
pub open spec fn following(target: PositionView, offset: (i32, i32)) -> PositionView {
    PositionView {
        x: saturate_spec(target.x + offset.0),
        y: saturate_spec(target.y + offset.1),
        previous_x: saturate_spec(target.previous_x + offset.0),
        previous_y: saturate_spec(target.previous_y + offset.1),
    }
}

/// The positions after the followers in the slots below `n` have caught up
/// with their targets, one after the other in the order of the slots. A
/// follower of a follower sees the position that the earlier one was given.
pub open spec fn tracked_upto(
    entities: Seq<Slot>,
    track: Map<int, TrackPositionComponent>,
    position: Map<int, PositionComponent>,
    n: int,
) -> Map<int, PositionComponent>
    decreases n,
{
    if n <= 0 {
        position
    } else {
        let before = tracked_upto(entities, track, position, n - 1);
        if follows_at(entities, track, n - 1) {
            before.insert(
                n - 1,
                PositionComponent::from_view(
                    following(before[track[n - 1].tracked_entity.index as int]@, track[n - 1].offset),
                ),
            )
        } else {
            before
        }
    }
}

/// Where no follower is at fault, catching up neither adds nor removes a
/// position.
pub proof fn lemma_tracked_keeps_slots(
    entities: Seq<Slot>,
    track: Map<int, TrackPositionComponent>,
    position: Map<int, PositionComponent>,
    n: int,
)
    requires
        track_fault_upto(entities, track, position, n).is_none(),
    ensures
        tracked_upto(entities, track, position, n).dom() == position.dom(),
    decreases n,
{
    if n > 0 {
        lemma_tracked_keeps_slots(entities, track, position, n - 1);
        let before = tracked_upto(entities, track, position, n - 1);
        assert(track_fault_at(entities, track, position, n - 1).is_none());
        if follows_at(entities, track, n - 1) {
            assert(position.contains_key(n - 1));
            assert(before.insert(n - 1, before[n - 1]).dom() =~= before.dom());
        }
        assert(tracked_upto(entities, track, position, n).dom() =~= position.dom());
    }
}

/// A follower is drawn in step with its target. Where the offset does not
/// take the follower beyond what a coordinate can hold, the follower's
/// interpolated position is the target's interpolated position plus the
/// offset, at every interpolation factor: the follower does not lag.
pub proof fn lemma_follower_in_step(target: PositionView, offset: (i32, i32), alpha: int)
    requires
        saturate_spec(target.x + offset.0) == target.x + offset.0,
        saturate_spec(target.previous_x + offset.0) == target.previous_x + offset.0,
        saturate_spec(target.y + offset.1) == target.y + offset.1,
        saturate_spec(target.previous_y + offset.1) == target.previous_y + offset.1,
    ensures
        lerp_spec(following(target, offset).previous_x, following(target, offset).x, alpha) == lerp_spec(
            target.previous_x,
            target.x,
            alpha,
        ) + offset.0,
        lerp_spec(following(target, offset).previous_y, following(target, offset).y, alpha) == lerp_spec(
            target.previous_y,
            target.y,
            alpha,
        ) + offset.1,
{
}

/// Carries the position of every tracked entity over to its followers.
pub struct PositionTrackSystem;

impl PositionTrackSystem {
    /// Gives a follower at `offset` from `target` its position: the
    /// follower's position is updated twice, first to where the target was
    /// and then to where it is.
    pub fn step(target: &PositionComponent, offset: (i32, i32), follower: &mut PositionComponent)
        ensures
            final(follower)@ == following(target@, offset),
    {
        // "Double update", so that previous and current position are correct
        follower.update_x(saturating_sum(target.previous_x(), offset.0));
        follower.update_x(saturating_sum(target.x(), offset.0));
        follower.update_y(saturating_sum(target.previous_y(), offset.1));
        follower.update_y(saturating_sum(target.y(), offset.1));
    }

    /// Looks for a follower at fault, in the order of the slots, and returns
    /// the first fault found. A world with such a follower was put together
    /// wrongly, and [`PositionTrackSystem::run`] is not for it.
    pub fn check(
        entities: &Entities,
        track: &Storage<TrackPositionComponent>,
        position: &Storage<PositionComponent>,
    ) -> (r: Result<(), SystemError>)
        ensures
            r == match track_fault_upto(entities@, track@, position@, entities@.len() as int) {
                Some(fault) => Err::<(), SystemError>(fault),
                None => Ok::<(), SystemError>(()),
            },
    {
        let n = entities.slot_count();
        let mut slot: usize = 0;
        while slot < n
            invariant
                slot <= n,
                n == entities@.len(),
                track_fault_upto(entities@, track@, position@, slot as int).is_none(),
            decreases n - slot,
        {
            match (entities.entity_at(slot), track.get(slot)) {
                (Some(e), Some(follower)) => {
                    let target = follower.tracked_entity;
                    if !entities.is_alive(target) || !position.contains(target.index) {
                        proof {
                            lemma_fault_found(entities@, track@, position@, slot as int, n as int);
                        }
                        return Err(SystemError::TrackedEntityMissing(e));
                    }
                    if !position.contains(slot) {
                        proof {
                            lemma_fault_found(entities@, track@, position@, slot as int, n as int);
                        }
                        return Err(SystemError::FollowerWithoutPosition(e));
                    }
                },
                _ => {},
            }
            slot += 1;
        }
        Ok(())
    }

    /// Lets all followers catch up with their targets, in the order of
    /// their slots. No follower may be at fault: every tracked entity is
    /// alive and has a position, and so has every follower. Whether that
    /// holds, [`PositionTrackSystem::check`] tells.
    pub fn run(
        &mut self,
        entities: &Entities,
        track: &Storage<TrackPositionComponent>,
        position: &mut Storage<PositionComponent>,
    )
        requires
            track_fault_upto(entities@, track@, old(position)@, entities@.len() as int).is_none(),
        ensures
            final(position)@ == tracked_upto(entities@, track@, old(position)@, entities@.len() as int),
    {
        let n = entities.slot_count();
        let mut slot: usize = 0;
        while slot < n
            invariant
                slot <= n,
                n == entities@.len(),
                track_fault_upto(entities@, track@, old(position)@, n as int).is_none(),
                position@ == tracked_upto(entities@, track@, old(position)@, slot as int),
            decreases n - slot,
        {
            proof {
                lemma_no_fault_below(entities@, track@, old(position)@, slot as int, n as int);
                lemma_tracked_keeps_slots(entities@, track@, old(position)@, slot as int);
            }
            match (entities.entity_at(slot), track.get(slot)) {
                (Some(_), Some(follower)) => {
                    let target = *position.get(follower.tracked_entity.index).unwrap();
                    match position.get_mut(slot) {
                        Some(own) => {
                            Self::step(&target, follower.offset, own);
                            proof {
                                own.lemma_view();
                            }
                        },
                        None => {},
                    }
                },
                _ => {},
            }
            slot += 1;
        }
    }
}

/// A fault in slot `i`, with none below it, is the first fault below any
/// `n` above `i`.
proof fn lemma_fault_found(
    entities: Seq<Slot>,
    track: Map<int, TrackPositionComponent>,
    position: Map<int, PositionComponent>,
    i: int,
    n: int,
)
    requires
        0 <= i < n,
        track_fault_upto(entities, track, position, i).is_none(),
        track_fault_at(entities, track, position, i).is_some(),
    ensures
        track_fault_upto(entities, track, position, n) == track_fault_at(entities, track, position, i),
    decreases n - i,
{
    if n > i + 1 {
        lemma_fault_found(entities, track, position, i, n - 1);
    }
}

/// Where there is no fault below `n` there is none below any `i` up to `n`,
/// nor in slot `i` itself if that is below `n`.
proof fn lemma_no_fault_below(
    entities: Seq<Slot>,
    track: Map<int, TrackPositionComponent>,
    position: Map<int, PositionComponent>,
    i: int,
    n: int,
)
    requires
        0 <= i <= n,
        track_fault_upto(entities, track, position, n).is_none(),
    ensures
        track_fault_upto(entities, track, position, i).is_none(),
        i < n ==> track_fault_at(entities, track, position, i).is_none(),
    decreases n - i,
{
    if i < n {
        lemma_no_fault_below(entities, track, position, i + 1, n);
    }
}

} // verus!
