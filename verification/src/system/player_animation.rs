//! Animation of player-controlled units and of their weapon glow.

use crate::component::player_animation::PlayerAnimationComponent;
use crate::component::player_physics::PlayerPhysicsComponent;
use crate::component::sprite::SpriteComponent;
use crate::errors::SystemError;
use crate::store::entity::{alive_in, entity_in, occupied, Entities, Slot};
use crate::store::storage::Storage;
use vstd::prelude::*;

verus! {

/// The animation of a unit after a tick: its banking follows its horizontal
/// acceleration and velocity, and the pulse of its glow moves on if the
/// unit has a glow entity.
pub open spec fn animated(animation: PlayerAnimationComponent, physics: PlayerPhysicsComponent)
    -> PlayerAnimationComponent {
    PlayerAnimationComponent {
        animation_state: animation.animation_state.advance_spec(physics.ax as int, physics.vx as int),
        glow_animation_state: if animation.weapon_glow_entity.is_some() {
            animation.glow_animation_state.advance_spec()
        } else {
            animation.glow_animation_state
        },
        ..animation
    }
}

/// Whether an animated unit lives in slot `i`: an entity with an animation
/// and with physics.
pub open spec fn animates_at(
    entities: Seq<Slot>,
    animation: Map<int, PlayerAnimationComponent>,
    physics: Map<int, PlayerPhysicsComponent>,
    i: int,
) -> bool {
    occupied(entities, i) && animation.contains_key(i) && physics.contains_key(i)
}

/// What is wrong with the animated unit in slot `i`, if anything: it must
/// have a sprite, and its glow entity, if it has one, must be alive and
/// have a sprite.
pub open spec fn animation_fault_at(
    entities: Seq<Slot>,
    animation: Map<int, PlayerAnimationComponent>,
    physics: Map<int, PlayerPhysicsComponent>,
    sprite: Map<int, SpriteComponent>,
    i: int,
) -> Option<SystemError> {
    if !animates_at(entities, animation, physics, i) {
        None
    } else if !sprite.contains_key(i) {
        Some(SystemError::UnitWithoutSprite(entity_in(entities, i)))
    } else {
        match animation[i].weapon_glow_entity {
            Some(glow) => if !alive_in(entities, glow) || !sprite.contains_key(glow.index as int) {
                Some(SystemError::GlowEntityMissing(entity_in(entities, i)))
            } else {
                None
            },
            None => None,
        }
    }
}

/// The first fault among the animated units in the slots below `n`.
pub open spec fn animation_fault_upto(
    entities: Seq<Slot>,
    animation: Map<int, PlayerAnimationComponent>,
    physics: Map<int, PlayerPhysicsComponent>,
    sprite: Map<int, SpriteComponent>,
    n: int,
) -> Option<SystemError>
    decreases n,
{
    if n <= 0 {
        None
    } else {
        match animation_fault_upto(entities, animation, physics, sprite, n - 1) {
            Some(fault) => Some(fault),
            None => animation_fault_at(entities, animation, physics, sprite, n - 1),
        }
    }
}

/// The animations of all entities after a tick: that of every animated unit
/// has moved on.
pub open spec fn animated_all(
    entities: Seq<Slot>,
    animation: Map<int, PlayerAnimationComponent>,
    physics: Map<int, PlayerPhysicsComponent>,
) -> Map<int, PlayerAnimationComponent> {
    Map::new(
        |i: int| animation.contains_key(i),
        |i: int|
            if animates_at(entities, animation, physics, i) {
                animated(animation[i], physics[i])
            } else {
                animation[i]
            },
    )
}

/// The sprites after the unit in slot `i`, whose animation after the tick is
/// `after`, has been shown: its own sprite shows the frame of its banking,
/// and the sprite of its glow entity, if it has one, is scaled to the phase
/// of the pulse.
pub open spec fn shown(sprite: Map<int, SpriteComponent>, i: int, after: PlayerAnimationComponent) -> Map<
    int,
    SpriteComponent,
> {
    let framed = sprite.insert(
        i,
        SpriteComponent { current_frame_idx: after.animation_state.frame_index_spec() as usize, ..sprite[i] },
    );
    match after.weapon_glow_entity {
        Some(glow) => framed.insert(
            glow.index as int,
            SpriteComponent {
                scale_factor: after.glow_animation_state.scale_factor_spec() as u32,
                ..framed[glow.index as int]
            },
        ),
        None => framed,
    }
}

/// The sprites after the animated units in the slots below `n` have been
/// shown, one after the other in the order of the slots.
pub open spec fn sprites_upto(
    entities: Seq<Slot>,
    animation: Map<int, PlayerAnimationComponent>,
    physics: Map<int, PlayerPhysicsComponent>,
    sprite: Map<int, SpriteComponent>,
    n: int,
) -> Map<int, SpriteComponent>
    decreases n,
{
    if n <= 0 {
        sprite
    } else {
        let before = sprites_upto(entities, animation, physics, sprite, n - 1);
        if animates_at(entities, animation, physics, n - 1) {
            shown(before, n - 1, animated(animation[n - 1], physics[n - 1]))
        } else {
            before
        }
    }
}

/// Where no animated unit is at fault, showing the animations neither adds
/// nor removes a sprite.
pub proof fn lemma_sprites_keep_slots(
    entities: Seq<Slot>,
    animation: Map<int, PlayerAnimationComponent>,
    physics: Map<int, PlayerPhysicsComponent>,
    sprite: Map<int, SpriteComponent>,
    n: int,
)
    requires
        animation_fault_upto(entities, animation, physics, sprite, n).is_none(),
    ensures
        sprites_upto(entities, animation, physics, sprite, n).dom() == sprite.dom(),
    decreases n,
{
    if n > 0 {
        lemma_sprites_keep_slots(entities, animation, physics, sprite, n - 1);
        assert(animation_fault_at(entities, animation, physics, sprite, n - 1).is_none());
        assert(sprites_upto(entities, animation, physics, sprite, n).dom() =~= sprite.dom());
    }
}

/// A fault in slot `i`, with none below it, is the first fault below any
/// `n` above `i`.
proof fn lemma_fault_found(
    entities: Seq<Slot>,
    animation: Map<int, PlayerAnimationComponent>,
    physics: Map<int, PlayerPhysicsComponent>,
    sprite: Map<int, SpriteComponent>,
    i: int,
    n: int,
)
    requires
        0 <= i < n,
        animation_fault_upto(entities, animation, physics, sprite, i).is_none(),
        animation_fault_at(entities, animation, physics, sprite, i).is_some(),
    ensures
        animation_fault_upto(entities, animation, physics, sprite, n) == animation_fault_at(
            entities,
            animation,
            physics,
            sprite,
            i,
        ),
    decreases n - i,
{
    if n > i + 1 {
        lemma_fault_found(entities, animation, physics, sprite, i, n - 1);
    }
}

/// Where there is no fault below `n` there is none below any `i` up to `n`,
/// nor in slot `i` itself if that is below `n`.
proof fn lemma_no_fault_below(
    entities: Seq<Slot>,
    animation: Map<int, PlayerAnimationComponent>,
    physics: Map<int, PlayerPhysicsComponent>,
    sprite: Map<int, SpriteComponent>,
    i: int,
    n: int,
)
    requires
        0 <= i <= n,
        animation_fault_upto(entities, animation, physics, sprite, n).is_none(),
    ensures
        animation_fault_upto(entities, animation, physics, sprite, i).is_none(),
        i < n ==> animation_fault_at(entities, animation, physics, sprite, i).is_none(),
    decreases n - i,
{
    if i < n {
        lemma_no_fault_below(entities, animation, physics, sprite, i + 1, n);
    }
}

/// Drives the banking of the units and the pulse of their weapon glow, and
/// shows both in the sprites.
pub struct PlayerAnimationSystem;

impl PlayerAnimationSystem {
    /// One tick of the animation of one unit.
    pub fn step(animation: &mut PlayerAnimationComponent, physics: &PlayerPhysicsComponent)
        ensures
            *final(animation) == animated(*old(animation), *physics),
    {
        animation.animation_state = animation.animation_state.advance(physics.ax, physics.vx);
        if animation.weapon_glow_entity.is_some() {
            animation.glow_animation_state = animation.glow_animation_state.advance();
        }
    }

    /// Looks for an animated unit at fault, in the order of the slots, and
    /// returns the first fault found. A world with such a unit was put
    /// together wrongly, and [`PlayerAnimationSystem::run`] is not for it.
    pub fn check(
        entities: &Entities,
        animation: &Storage<PlayerAnimationComponent>,
        physics: &Storage<PlayerPhysicsComponent>,
        sprite: &Storage<SpriteComponent>,
    ) -> (r: Result<(), SystemError>)
        ensures
            r == match animation_fault_upto(entities@, animation@, physics@, sprite@, entities@.len() as int) {
                Some(fault) => Err::<(), SystemError>(fault),
                None => Ok::<(), SystemError>(()),
            },
    {
        let n = entities.slot_count();
        let mut slot: usize = 0;
        while slot < n
            invariant
                slot <= n,
                n == entities@.len(),
                animation_fault_upto(entities@, animation@, physics@, sprite@, slot as int).is_none(),
            decreases n - slot,
        {
            match (entities.entity_at(slot), animation.get(slot), physics.get(slot)) {
                (Some(e), Some(unit), Some(_)) => {
                    if !sprite.contains(slot) {
                        proof {
                            lemma_fault_found(entities@, animation@, physics@, sprite@, slot as int, n as int);
                        }
                        return Err(SystemError::UnitWithoutSprite(e));
                    }
                    match unit.weapon_glow_entity {
                        Some(glow) => {
                            if !entities.is_alive(glow) || !sprite.contains(glow.index) {
                                proof {
                                    lemma_fault_found(
                                        entities@,
                                        animation@,
                                        physics@,
                                        sprite@,
                                        slot as int,
                                        n as int,
                                    );
                                }
                                return Err(SystemError::GlowEntityMissing(e));
                            }
                        },
                        None => {},
                    }
                },
                _ => {},
            }
            slot += 1;
        }
        Ok(())
    }

    /// One tick of the animation of all units, in the order of their slots.
    /// No unit may be at fault: every animated unit has a sprite, and its
    /// glow entity, if it has one, is alive and has a sprite. Whether that
    /// holds, [`PlayerAnimationSystem::check`] tells.
    pub fn run(
        &mut self,
        entities: &Entities,
        animation: &mut Storage<PlayerAnimationComponent>,
        physics: &Storage<PlayerPhysicsComponent>,
        sprite: &mut Storage<SpriteComponent>,
    )
        requires
            animation_fault_upto(
                entities@,
                old(animation)@,
                physics@,
                old(sprite)@,
                entities@.len() as int,
            ).is_none(),
        ensures
            final(animation)@ == animated_all(entities@, old(animation)@, physics@),
            final(sprite)@ == sprites_upto(
                entities@,
                old(animation)@,
                physics@,
                old(sprite)@,
                entities@.len() as int,
            ),
    {
        let n = entities.slot_count();
        let mut slot: usize = 0;
        while slot < n
            invariant
                slot <= n,
                n == entities@.len(),
                animation_fault_upto(entities@, old(animation)@, physics@, old(sprite)@, n as int).is_none(),
                animation@.dom() == old(animation)@.dom(),
                forall|i: int| #[trigger]
                    old(animation)@.contains_key(i) ==> animation@[i] == if i < slot && animates_at(
                        entities@,
                        old(animation)@,
                        physics@,
                        i,
                    ) {
                        animated(old(animation)@[i], physics@[i])
                    } else {
                        old(animation)@[i]
                    },
                sprite@ == sprites_upto(entities@, old(animation)@, physics@, old(sprite)@, slot as int),
            decreases n - slot,
        {
            proof {
                lemma_no_fault_below(entities@, old(animation)@, physics@, old(sprite)@, slot as int, n as int);
                lemma_sprites_keep_slots(entities@, old(animation)@, physics@, old(sprite)@, slot as int);
            }
            let ghost animation_before = animation@;
            match (entities.entity_at(slot), animation.get_mut(slot), physics.get(slot)) {
                (Some(_), Some(unit), Some(unit_physics)) => {
                    Self::step(unit, unit_physics);
                    let frame = unit.animation_state.frame_index();
                    match sprite.get_mut(slot) {
                        Some(player_sprite) => {
                            player_sprite.current_frame_idx = frame;
                        },
                        None => {},
                    }
                    match unit.weapon_glow_entity {
                        Some(glow) => {
                            let scale = unit.glow_animation_state.scale_factor();
                            match sprite.get_mut(glow.index) {
                                Some(glow_sprite) => {
                                    glow_sprite.scale_factor = scale;
                                },
                                None => {},
                            }
                        },
                        None => {},
                    }
                },
                _ => {},
            }
            assert(animation@.dom() =~= animation_before.dom());
            slot += 1;
        }
        assert(animation@ =~= animated_all(entities@, old(animation)@, physics@));
    }
}

} // verus!
