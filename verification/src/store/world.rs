//! The world: all entities, their components, the queue of structural
//! changes, and the values that the systems share.

use crate::component::bullet_physics::BulletPhysicsComponent;
use crate::component::player_animation::PlayerAnimationComponent;
use crate::component::player_physics::PlayerPhysicsComponent;
use crate::component::player_weapon::PlayerWeaponComponent;
use crate::component::position::PositionComponent;
use crate::component::sprite::SpriteComponent;
use crate::component::track_position::TrackPositionComponent;
use crate::resource::player_input::PlayerInput;
use crate::resource::sound::AudioInterface;
use crate::resource::timing::Timing;
use crate::store::commands::{Bundle, Commands, Component, ComponentKind};
use crate::store::entity::{
    alive_in, entity_in, fresh_in, occupied, with_created, with_destroyed, Entities, Entity, Slot,
    StoreError,
};
use crate::store::storage::{lookup, Storage};
use vstd::prelude::*;

verus! {

/// The components of a world: for each kind, the map from slots to the
/// components of that kind.
pub struct Components {
    pub position: Map<int, PositionComponent>,
    pub sprite: Map<int, SpriteComponent>,
    pub player_physics: Map<int, PlayerPhysicsComponent>,
    pub bullet_physics: Map<int, BulletPhysicsComponent>,
    pub player_weapon: Map<int, PlayerWeaponComponent>,
    pub player_animation: Map<int, PlayerAnimationComponent>,
    pub track_position: Map<int, TrackPositionComponent>,
}

/// The map with `value` under `i`, or as it is where there is no value.
pub open spec fn with_some<T>(map: Map<int, T>, i: int, value: Option<T>) -> Map<int, T> {
    match value {
        Some(v) => map.insert(i, v),
        None => map,
    }
}

impl Components {
    /// All that the entity in slot `i` carries.
    pub open spec fn bundle_at(self, i: int) -> Bundle {
        Bundle {
            position: lookup(self.position, i),
            sprite: lookup(self.sprite, i),
            player_physics: lookup(self.player_physics, i),
            bullet_physics: lookup(self.bullet_physics, i),
            player_weapon: lookup(self.player_weapon, i),
            player_animation: lookup(self.player_animation, i),
            track_position: lookup(self.track_position, i),
        }
    }

    /// Whether slot `i` holds a component of the given kind.
    pub open spec fn has(self, i: int, kind: ComponentKind) -> bool {
        match kind {
            ComponentKind::Position => self.position.contains_key(i),
            ComponentKind::Sprite => self.sprite.contains_key(i),
            ComponentKind::PlayerPhysics => self.player_physics.contains_key(i),
            ComponentKind::BulletPhysics => self.bullet_physics.contains_key(i),
            ComponentKind::PlayerWeapon => self.player_weapon.contains_key(i),
            ComponentKind::PlayerAnimation => self.player_animation.contains_key(i),
            ComponentKind::TrackPosition => self.track_position.contains_key(i),
        }
    }

    /// Whether slot `i` holds a component of each of the given kinds.
    pub open spec fn has_all(self, i: int, kinds: Seq<ComponentKind>) -> bool {
        forall|k: int| 0 <= k < kinds.len() ==> self.has(i, #[trigger] kinds[k])
    }

    /// Whether slot `i` holds any component.
    pub open spec fn carries(self, i: int) -> bool {
        self.bundle_at(i) != Bundle::empty()
    }

    /// Whether every component belongs to a living entity.
    pub open spec fn on_living(self, slots: Seq<Slot>) -> bool {
        forall|i: int| #[trigger] self.carries(i) ==> occupied(slots, i)
    }

    /// The components after slot `i` was given the components of `bundle`,
    /// each in place of one of its kind.
    pub open spec fn with_bundle(self, i: int, bundle: Bundle) -> Components {
        Components {
            position: with_some(self.position, i, bundle.position),
            sprite: with_some(self.sprite, i, bundle.sprite),
            player_physics: with_some(self.player_physics, i, bundle.player_physics),
            bullet_physics: with_some(self.bullet_physics, i, bundle.bullet_physics),
            player_weapon: with_some(self.player_weapon, i, bundle.player_weapon),
            player_animation: with_some(self.player_animation, i, bundle.player_animation),
            track_position: with_some(self.track_position, i, bundle.track_position),
        }
    }

    /// The components after slot `i` was given `component`.
    pub open spec fn with_component(self, i: int, component: Component) -> Components {
        self.with_bundle(i, Bundle::empty().with_spec(component))
    }

    /// The components after slot `i` lost its component of the given kind.
    pub open spec fn without_kind(self, i: int, kind: ComponentKind) -> Components {
        match kind {
            ComponentKind::Position => Components { position: self.position.remove(i), ..self },
            ComponentKind::Sprite => Components { sprite: self.sprite.remove(i), ..self },
            ComponentKind::PlayerPhysics => Components { player_physics: self.player_physics.remove(i), ..self },
            ComponentKind::BulletPhysics => Components { bullet_physics: self.bullet_physics.remove(i), ..self },
            ComponentKind::PlayerWeapon => Components { player_weapon: self.player_weapon.remove(i), ..self },
            ComponentKind::PlayerAnimation => Components {
                player_animation: self.player_animation.remove(i),
                ..self
            },
            ComponentKind::TrackPosition => Components { track_position: self.track_position.remove(i), ..self },
        }
    }

    /// The components after slot `i` lost all it held.
    pub open spec fn without(self, i: int) -> Components {
        Components {
            position: self.position.remove(i),
            sprite: self.sprite.remove(i),
            player_physics: self.player_physics.remove(i),
            bullet_physics: self.bullet_physics.remove(i),
            player_weapon: self.player_weapon.remove(i),
            player_animation: self.player_animation.remove(i),
            track_position: self.track_position.remove(i),
        }
    }
}

/// The entities of a world and what they carry.
pub struct Population {
    pub slots: Seq<Slot>,
    pub components: Components,
}

impl Population {
    /// The population after the new entity `e` has come to life with the
    /// components of `bundle`.
    #[verifier::opaque]
    pub open spec fn spawned(self, e: Entity, bundle: Bundle) -> Population {
        Population {
            slots: with_created(self.slots, e),
            components: self.components.with_bundle(e.index as int, bundle),
        }
    }

    /// The population after the end of `e` was asked for: a living entity
    /// ends and loses all it carried, a stale name changes nothing.
    #[verifier::opaque]
    pub open spec fn destroyed(self, e: Entity) -> Population {
        if alive_in(self.slots, e) {
            Population {
                slots: with_destroyed(self.slots, e),
                components: self.components.without(e.index as int),
            }
        } else {
            self
        }
    }

    /// The population after the first `k` of `bundles` have come to life
    /// under the names `created`, in order.
    pub open spec fn spawned_all(self, created: Seq<Entity>, bundles: Seq<Bundle>, k: int) -> Population
        decreases k,
    {
        if k <= 0 {
            self
        } else {
            self.spawned_all(created, bundles, k - 1).spawned(created[k - 1], bundles[k - 1])
        }
    }

    /// Whether each of the first `k` names in `created` was free to name a
    /// new entity when its turn came.
    pub open spec fn spawns_fresh(self, created: Seq<Entity>, bundles: Seq<Bundle>, k: int) -> bool {
        forall|j: int|
            0 <= j < k ==> fresh_in(self.spawned_all(created, bundles, j).slots, #[trigger] created[j])
    }

    /// The population after the end of the first `k` of `deletions` was
    /// asked for, in order.
    pub open spec fn destroyed_all(self, deletions: Seq<Entity>, k: int) -> Population
        decreases k,
    {
        if k <= 0 {
            self
        } else {
            self.destroyed_all(deletions, k - 1).destroyed(deletions[k - 1])
        }
    }

    /// How many of the first `k` of `deletions` named no living entity when
    /// their turn came.
    pub open spec fn stale_upto(self, deletions: Seq<Entity>, k: int) -> int
        decreases k,
    {
        if k <= 0 {
            0
        } else if alive_in(self.destroyed_all(deletions, k - 1).slots, deletions[k - 1]) {
            self.stale_upto(deletions, k - 1)
        } else {
            self.stale_upto(deletions, k - 1) + 1
        }
    }
}

/// What became of the structural changes that were carried out.
pub struct DeferredReport {
    /// The entities that came to life, in the order in which they were
    /// asked for.
    pub created: Vec<Entity>,
    /// The number of entities that ended.
    pub destroyed: usize,
    /// The number of deletions that named no living entity any more and
    /// were passed over.
    pub stale: usize,
}

/// All entities with their components, the structural changes that wait for
/// the end of the tick, and the values that the systems share.
///
/// The fields are open so that a system can be handed exactly the parts it
/// reads and writes.
pub struct World {
    pub entities: Entities,
    pub commands: Commands,
    pub position: Storage<PositionComponent>,
    pub sprite: Storage<SpriteComponent>,
    pub player_physics: Storage<PlayerPhysicsComponent>,
    pub bullet_physics: Storage<BulletPhysicsComponent>,
    pub player_weapon: Storage<PlayerWeaponComponent>,
    pub player_animation: Storage<PlayerAnimationComponent>,
    pub track_position: Storage<TrackPositionComponent>,
    pub player_input: PlayerInput,
    pub timing: Timing,
    pub audio: AudioInterface,
}

impl World {
    /// The components of the world.
    pub open spec fn components(&self) -> Components {
        Components {
            position: self.position@,
            sprite: self.sprite@,
            player_physics: self.player_physics@,
            bullet_physics: self.bullet_physics@,
            player_weapon: self.player_weapon@,
            player_animation: self.player_animation@,
            track_position: self.track_position@,
        }
    }

    /// The entities of the world and what they carry.
    pub open spec fn population(&self) -> Population {
        Population { slots: self.entities@, components: self.components() }
    }

    /// The world is consistent: its allocator is, and every component
    /// belongs to a living entity.
    pub open spec fn wf(&self) -> bool {
        self.entities.wf() && self.components().on_living(self.entities@)
    }

    /// Whether `other` has the same queue of structural changes and the same
    /// shared values as this world.
    pub open spec fn same_context(&self, other: &World) -> bool {
        &&& self.commands.creations@ == other.commands.creations@
        &&& self.commands.deletions@ == other.commands.deletions@
        &&& self.player_input == other.player_input
        &&& self.timing == other.timing
        &&& self.audio@ == other.audio@
    }

    /// A world without entities, with nothing asked for, no key held and
    /// the clock at its start.
    pub fn new() -> (r: Self)
        ensures
            r.wf(),
            r.entities@ == Seq::<Slot>::empty(),
            r.components() == (Components {
                position: Map::empty(),
                sprite: Map::empty(),
                player_physics: Map::empty(),
                bullet_physics: Map::empty(),
                player_weapon: Map::empty(),
                player_animation: Map::empty(),
                track_position: Map::empty(),
            }),
            r.commands.creations@ == Seq::<Bundle>::empty(),
            r.commands.deletions@ == Seq::<Entity>::empty(),
            r.player_input == (PlayerInput { left: false, right: false, up: false, down: false, fire: false }),
            r.timing == (Timing { physics_tick: 0, next_vsync: None, delta_time: 0 }),
            r.audio@ == Seq::<crate::sound::SoundId>::empty(),
    {
        World {
            entities: Entities::new(),
            commands: Commands::new(),
            position: Storage::new(),
            sprite: Storage::new(),
            player_physics: Storage::new(),
            bullet_physics: Storage::new(),
            player_weapon: Storage::new(),
            player_animation: Storage::new(),
            track_position: Storage::new(),
            player_input: PlayerInput::default(),
            timing: Timing::default(),
            audio: AudioInterface::new(),
        }
    }

    /// Whether every component belongs to a living entity. This is the part
    /// of the world's consistency that a caller who writes to the storages
    /// himself can break; the allocator can be changed by its own operations
    /// only, which keep it consistent.
    pub fn is_consistent(&self) -> (r: bool)
        ensures
            r == self.components().on_living(self.entities@),
            self.entities.wf() ==> r == self.wf(),
    {
        let entities = &self.entities;
        let r = on_living(entities, &self.position) && on_living(entities, &self.sprite)
            && on_living(entities, &self.player_physics) && on_living(entities, &self.bullet_physics)
            && on_living(entities, &self.player_weapon) && on_living(entities, &self.player_animation)
            && on_living(entities, &self.track_position);
        proof {
            let c = self.components();
            let slots = self.entities@;
            if r {
                assert forall|i: int| #[trigger] c.carries(i) implies occupied(slots, i) by {
                    assert(c.bundle_at(i) != Bundle::empty());
                }
            } else {
                let i = choose|i: int|
                    !occupied(slots, i) && (c.position.contains_key(i) || c.sprite.contains_key(i)
                        || c.player_physics.contains_key(i) || c.bullet_physics.contains_key(i)
                        || c.player_weapon.contains_key(i) || c.player_animation.contains_key(i)
                        || c.track_position.contains_key(i));
                assert(c.carries(i));
            }
        }
        r
    }

    /// Whether `e` names a living entity.
    pub fn is_alive(&self, e: Entity) -> (r: bool)
        ensures
            r == alive_in(self.entities@, e),
    {
        self.entities.is_alive(e)
    }

    /// Brings a new entity to life. It carries nothing yet.
    pub fn create(&mut self) -> (e: Entity)
        requires
            old(self).wf(),
        ensures
            final(self).wf(),
            fresh_in(old(self).entities@, e),
            alive_in(final(self).entities@, e),
            final(self).entities@ == with_created(old(self).entities@, e),
            e.index < usize::MAX,
            final(self).components() == old(self).components(),
            final(self).components().bundle_at(e.index as int) == Bundle::empty(),
            final(self).same_context(old(self)),
    {
        let e = self.entities.create();
        proof {
            assert(!old(self).components().carries(e.index as int));
            assert forall|i: int| #[trigger] self.components().carries(i) implies occupied(self.entities@, i) by {
                assert(old(self).components().carries(i));
            }
        }
        e
    }

    /// Ends the life of `e` and removes all that it carried. A stale name is
    /// refused and changes nothing.
    pub fn destroy(&mut self, e: Entity) -> (r: Result<(), StoreError>)
        requires
            old(self).wf(),
        ensures
            final(self).wf(),
            r.is_ok() == alive_in(old(self).entities@, e),
            r.is_err() ==> r == Err::<(), StoreError>(StoreError::StaleEntity),
            r.is_err() ==> final(self).entities@ == old(self).entities@ && final(self).components() == old(
                self,
            ).components(),
            r.is_ok() ==> final(self).entities@ == with_destroyed(old(self).entities@, e),
            r.is_ok() ==> final(self).components() == old(self).components().without(e.index as int),
            final(self).same_context(old(self)),
    {
        match self.entities.destroy(e) {
            Err(stale) => Err(stale),
            Ok(()) => {
                self.position.remove(e.index);
                self.sprite.remove(e.index);
                self.player_physics.remove(e.index);
                self.bullet_physics.remove(e.index);
                self.player_weapon.remove(e.index);
                self.player_animation.remove(e.index);
                self.track_position.remove(e.index);
                proof {
                    assert forall|i: int| #[trigger] self.components().carries(i) implies occupied(
                        self.entities@,
                        i,
                    ) by {
                        assert(i != e.index);
                        assert(old(self).components().carries(i));
                    }
                }
                Ok(())
            },
        }
    }

    /// Gives the entity `e` a component, in place of one of the same kind if
    /// it has one. A stale name is refused and changes nothing.
    pub fn attach(&mut self, e: Entity, component: Component) -> (r: Result<(), StoreError>)
        requires
            old(self).wf(),
        ensures
            final(self).wf(),
            r.is_ok() == alive_in(old(self).entities@, e),
            r.is_err() ==> r == Err::<(), StoreError>(StoreError::StaleEntity),
            final(self).entities@ == old(self).entities@,
            final(self).components() == if r.is_ok() {
                old(self).components().with_component(e.index as int, component)
            } else {
                old(self).components()
            },
            final(self).same_context(old(self)),
    {
        if !self.entities.is_alive(e) {
            return Err(StoreError::StaleEntity);
        }
        proof {
            self.entities.lemma_slot_bound();
        }
        match component {
            Component::Position(c) => {
                self.position.insert(e.index, c);
            },
            Component::Sprite(c) => {
                self.sprite.insert(e.index, c);
            },
            Component::PlayerPhysics(c) => {
                self.player_physics.insert(e.index, c);
            },
            Component::BulletPhysics(c) => {
                self.bullet_physics.insert(e.index, c);
            },
            Component::PlayerWeapon(c) => {
                self.player_weapon.insert(e.index, c);
            },
            Component::PlayerAnimation(c) => {
                self.player_animation.insert(e.index, c);
            },
            Component::TrackPosition(c) => {
                self.track_position.insert(e.index, c);
            },
        }
        proof {
            assert forall|i: int| #[trigger] self.components().carries(i) implies occupied(self.entities@, i) by {
                if i != e.index {
                    assert(old(self).components().carries(i));
                }
            }
        }
        Ok(())
    }

    /// Takes the component of the given kind from the entity `e`, if it has
    /// one. A stale name is refused and changes nothing.
    pub fn detach(&mut self, e: Entity, kind: ComponentKind) -> (r: Result<(), StoreError>)
        requires
            old(self).wf(),
        ensures
            final(self).wf(),
            r.is_ok() == alive_in(old(self).entities@, e),
            r.is_err() ==> r == Err::<(), StoreError>(StoreError::StaleEntity),
            final(self).entities@ == old(self).entities@,
            final(self).components() == if r.is_ok() {
                old(self).components().without_kind(e.index as int, kind)
            } else {
                old(self).components()
            },
            final(self).same_context(old(self)),
    {
        if !self.entities.is_alive(e) {
            return Err(StoreError::StaleEntity);
        }
        match kind {
            ComponentKind::Position => {
                self.position.remove(e.index);
            },
            ComponentKind::Sprite => {
                self.sprite.remove(e.index);
            },
            ComponentKind::PlayerPhysics => {
                self.player_physics.remove(e.index);
            },
            ComponentKind::BulletPhysics => {
                self.bullet_physics.remove(e.index);
            },
            ComponentKind::PlayerWeapon => {
                self.player_weapon.remove(e.index);
            },
            ComponentKind::PlayerAnimation => {
                self.player_animation.remove(e.index);
            },
            ComponentKind::TrackPosition => {
                self.track_position.remove(e.index);
            },
        }
        proof {
            assert forall|i: int| #[trigger] self.components().carries(i) implies occupied(self.entities@, i) by {
                if i != e.index {
                    assert(old(self).components().carries(i));
                }
            }
        }
        Ok(())
    }

    /// Whether the entity `e` is alive and carries a component of the given
    /// kind.
    pub fn has(&self, e: Entity, kind: ComponentKind) -> (r: bool)
        ensures
            r == (alive_in(self.entities@, e) && self.components().has(e.index as int, kind)),
    {
        self.entities.is_alive(e) && match kind {
            ComponentKind::Position => self.position.contains(e.index),
            ComponentKind::Sprite => self.sprite.contains(e.index),
            ComponentKind::PlayerPhysics => self.player_physics.contains(e.index),
            ComponentKind::BulletPhysics => self.bullet_physics.contains(e.index),
            ComponentKind::PlayerWeapon => self.player_weapon.contains(e.index),
            ComponentKind::PlayerAnimation => self.player_animation.contains(e.index),
            ComponentKind::TrackPosition => self.track_position.contains(e.index),
        }
    }

    /// The position of the entity `e`, if `e` is alive and has one.
    pub fn get_position(&self, e: Entity) -> (r: Option<&PositionComponent>)
        ensures
            match r {
                Some(c) => alive_in(self.entities@, e) && lookup(self.position@, e.index as int) == Some(*c),
                None => !alive_in(self.entities@, e) || !self.position@.contains_key(e.index as int),
            },
    {
        if self.entities.is_alive(e) {
            self.position.get(e.index)
        } else {
            None
        }
    }

    /// The position of the entity `e`, open to change, if `e` is alive and
    /// has one. Nothing but that component can change.
    pub fn get_position_mut(&mut self, e: Entity) -> (r: Option<&mut PositionComponent>)
        requires
            old(self).wf(),
        ensures
            final(self).wf(),
            final(self).entities@ == old(self).entities@,
            final(self).same_context(old(self)),
            match r {
                Some(c) => {
                    &&& alive_in(old(self).entities@, e)
                    &&& lookup(old(self).position@, e.index as int) == Some(*c)
                    &&& final(self).components() == (Components {
                        position: old(self).position@.insert(e.index as int, *final(c)),
                        ..old(self).components()
                    })
                },
                None => {
                    &&& !alive_in(old(self).entities@, e) || !old(self).position@.contains_key(e.index as int)
                    &&& final(self).components() == old(self).components()
                },
            },
    {
        if self.entities.is_alive(e) {
            match self.position.get_mut(e.index) {
                Some(c) => {
                    proof {
                        let changed = old(self).position@.insert(e.index as int, *final(c));
                        let after = Components { position: changed, ..old(self).components() };
                        assert(changed.dom() =~= old(self).position@.dom());
                        lemma_kept_slots(old(self).components(), after, old(self).entities@);
                    }
                    Some(c)
                },
                None => None,
            }
        } else {
            None
        }
    }

    /// The sprite of the entity `e`, if `e` is alive and has one.
    pub fn get_sprite(&self, e: Entity) -> (r: Option<&SpriteComponent>)
        ensures
            match r {
                Some(c) => alive_in(self.entities@, e) && lookup(self.sprite@, e.index as int) == Some(*c),
                None => !alive_in(self.entities@, e) || !self.sprite@.contains_key(e.index as int),
            },
    {
        if self.entities.is_alive(e) {
            self.sprite.get(e.index)
        } else {
            None
        }
    }

    /// The sprite of the entity `e`, open to change, if `e` is alive and
    /// has one. Nothing but that component can change.
    pub fn get_sprite_mut(&mut self, e: Entity) -> (r: Option<&mut SpriteComponent>)
        requires
            old(self).wf(),
        ensures
            final(self).wf(),
            final(self).entities@ == old(self).entities@,
            final(self).same_context(old(self)),
            match r {
                Some(c) => {
                    &&& alive_in(old(self).entities@, e)
                    &&& lookup(old(self).sprite@, e.index as int) == Some(*c)
                    &&& final(self).components() == (Components {
                        sprite: old(self).sprite@.insert(e.index as int, *final(c)),
                        ..old(self).components()
                    })
                },
                None => {
                    &&& !alive_in(old(self).entities@, e) || !old(self).sprite@.contains_key(e.index as int)
                    &&& final(self).components() == old(self).components()
                },
            },
    {
        if self.entities.is_alive(e) {
            match self.sprite.get_mut(e.index) {
                Some(c) => {
                    proof {
                        let changed = old(self).sprite@.insert(e.index as int, *final(c));
                        let after = Components { sprite: changed, ..old(self).components() };
                        assert(changed.dom() =~= old(self).sprite@.dom());
                        lemma_kept_slots(old(self).components(), after, old(self).entities@);
                    }
                    Some(c)
                },
                None => None,
            }
        } else {
            None
        }
    }

    /// The physics of a unit of the entity `e`, if `e` is alive and has one.
    pub fn get_player_physics(&self, e: Entity) -> (r: Option<&PlayerPhysicsComponent>)
        ensures
            match r {
                Some(c) => alive_in(self.entities@, e) && lookup(self.player_physics@, e.index as int) == Some(*c),
                None => !alive_in(self.entities@, e) || !self.player_physics@.contains_key(e.index as int),
            },
    {
        if self.entities.is_alive(e) {
            self.player_physics.get(e.index)
        } else {
            None
        }
    }

    /// The physics of a unit of the entity `e`, open to change, if `e` is alive and
    /// has one. Nothing but that component can change.
    pub fn get_player_physics_mut(&mut self, e: Entity) -> (r: Option<&mut PlayerPhysicsComponent>)
        requires
            old(self).wf(),
        ensures
            final(self).wf(),
            final(self).entities@ == old(self).entities@,
            final(self).same_context(old(self)),
            match r {
                Some(c) => {
                    &&& alive_in(old(self).entities@, e)
                    &&& lookup(old(self).player_physics@, e.index as int) == Some(*c)
                    &&& final(self).components() == (Components {
                        player_physics: old(self).player_physics@.insert(e.index as int, *final(c)),
                        ..old(self).components()
                    })
                },
                None => {
                    &&& !alive_in(old(self).entities@, e) || !old(self).player_physics@.contains_key(e.index as int)
                    &&& final(self).components() == old(self).components()
                },
            },
    {
        if self.entities.is_alive(e) {
            match self.player_physics.get_mut(e.index) {
                Some(c) => {
                    proof {
                        let changed = old(self).player_physics@.insert(e.index as int, *final(c));
                        let after = Components { player_physics: changed, ..old(self).components() };
                        assert(changed.dom() =~= old(self).player_physics@.dom());
                        lemma_kept_slots(old(self).components(), after, old(self).entities@);
                    }
                    Some(c)
                },
                None => None,
            }
        } else {
            None
        }
    }

    /// The physics of a projectile of the entity `e`, if `e` is alive and has one.
    pub fn get_bullet_physics(&self, e: Entity) -> (r: Option<&BulletPhysicsComponent>)
        ensures
            match r {
                Some(c) => alive_in(self.entities@, e) && lookup(self.bullet_physics@, e.index as int) == Some(*c),
                None => !alive_in(self.entities@, e) || !self.bullet_physics@.contains_key(e.index as int),
            },
    {
        if self.entities.is_alive(e) {
            self.bullet_physics.get(e.index)
        } else {
            None
        }
    }

    /// The physics of a projectile of the entity `e`, open to change, if `e` is alive and
    /// has one. Nothing but that component can change.
    pub fn get_bullet_physics_mut(&mut self, e: Entity) -> (r: Option<&mut BulletPhysicsComponent>)
        requires
            old(self).wf(),
        ensures
            final(self).wf(),
            final(self).entities@ == old(self).entities@,
            final(self).same_context(old(self)),
            match r {
                Some(c) => {
                    &&& alive_in(old(self).entities@, e)
                    &&& lookup(old(self).bullet_physics@, e.index as int) == Some(*c)
                    &&& final(self).components() == (Components {
                        bullet_physics: old(self).bullet_physics@.insert(e.index as int, *final(c)),
                        ..old(self).components()
                    })
                },
                None => {
                    &&& !alive_in(old(self).entities@, e) || !old(self).bullet_physics@.contains_key(e.index as int)
                    &&& final(self).components() == old(self).components()
                },
            },
    {
        if self.entities.is_alive(e) {
            match self.bullet_physics.get_mut(e.index) {
                Some(c) => {
                    proof {
                        let changed = old(self).bullet_physics@.insert(e.index as int, *final(c));
                        let after = Components { bullet_physics: changed, ..old(self).components() };
                        assert(changed.dom() =~= old(self).bullet_physics@.dom());
                        lemma_kept_slots(old(self).components(), after, old(self).entities@);
                    }
                    Some(c)
                },
                None => None,
            }
        } else {
            None
        }
    }

    /// The weapon of the entity `e`, if `e` is alive and has one.
    pub fn get_player_weapon(&self, e: Entity) -> (r: Option<&PlayerWeaponComponent>)
        ensures
            match r {
                Some(c) => alive_in(self.entities@, e) && lookup(self.player_weapon@, e.index as int) == Some(*c),
                None => !alive_in(self.entities@, e) || !self.player_weapon@.contains_key(e.index as int),
            },
    {
        if self.entities.is_alive(e) {
            self.player_weapon.get(e.index)
        } else {
            None
        }
    }

    /// The weapon of the entity `e`, open to change, if `e` is alive and
    /// has one. Nothing but that component can change.
    pub fn get_player_weapon_mut(&mut self, e: Entity) -> (r: Option<&mut PlayerWeaponComponent>)
        requires
            old(self).wf(),
        ensures
            final(self).wf(),
            final(self).entities@ == old(self).entities@,
            final(self).same_context(old(self)),
            match r {
                Some(c) => {
                    &&& alive_in(old(self).entities@, e)
                    &&& lookup(old(self).player_weapon@, e.index as int) == Some(*c)
                    &&& final(self).components() == (Components {
                        player_weapon: old(self).player_weapon@.insert(e.index as int, *final(c)),
                        ..old(self).components()
                    })
                },
                None => {
                    &&& !alive_in(old(self).entities@, e) || !old(self).player_weapon@.contains_key(e.index as int)
                    &&& final(self).components() == old(self).components()
                },
            },
    {
        if self.entities.is_alive(e) {
            match self.player_weapon.get_mut(e.index) {
                Some(c) => {
                    proof {
                        let changed = old(self).player_weapon@.insert(e.index as int, *final(c));
                        let after = Components { player_weapon: changed, ..old(self).components() };
                        assert(changed.dom() =~= old(self).player_weapon@.dom());
                        lemma_kept_slots(old(self).components(), after, old(self).entities@);
                    }
                    Some(c)
                },
                None => None,
            }
        } else {
            None
        }
    }

    /// The animation of the entity `e`, if `e` is alive and has one.
    pub fn get_player_animation(&self, e: Entity) -> (r: Option<&PlayerAnimationComponent>)
        ensures
            match r {
                Some(c) => alive_in(self.entities@, e) && lookup(self.player_animation@, e.index as int) == Some(*c),
                None => !alive_in(self.entities@, e) || !self.player_animation@.contains_key(e.index as int),
            },
    {
        if self.entities.is_alive(e) {
            self.player_animation.get(e.index)
        } else {
            None
        }
    }

    /// The animation of the entity `e`, open to change, if `e` is alive and
    /// has one. Nothing but that component can change.
    pub fn get_player_animation_mut(&mut self, e: Entity) -> (r: Option<&mut PlayerAnimationComponent>)
        requires
            old(self).wf(),
        ensures
            final(self).wf(),
            final(self).entities@ == old(self).entities@,
            final(self).same_context(old(self)),
            match r {
                Some(c) => {
                    &&& alive_in(old(self).entities@, e)
                    &&& lookup(old(self).player_animation@, e.index as int) == Some(*c)
                    &&& final(self).components() == (Components {
                        player_animation: old(self).player_animation@.insert(e.index as int, *final(c)),
                        ..old(self).components()
                    })
                },
                None => {
                    &&& !alive_in(old(self).entities@, e) || !old(self).player_animation@.contains_key(e.index as int)
                    &&& final(self).components() == old(self).components()
                },
            },
    {
        if self.entities.is_alive(e) {
            match self.player_animation.get_mut(e.index) {
                Some(c) => {
                    proof {
                        let changed = old(self).player_animation@.insert(e.index as int, *final(c));
                        let after = Components { player_animation: changed, ..old(self).components() };
                        assert(changed.dom() =~= old(self).player_animation@.dom());
                        lemma_kept_slots(old(self).components(), after, old(self).entities@);
                    }
                    Some(c)
                },
                None => None,
            }
        } else {
            None
        }
    }

    /// The tracking component of the entity `e`, if `e` is alive and has one.
    pub fn get_track_position(&self, e: Entity) -> (r: Option<&TrackPositionComponent>)
        ensures
            match r {
                Some(c) => alive_in(self.entities@, e) && lookup(self.track_position@, e.index as int) == Some(*c),
                None => !alive_in(self.entities@, e) || !self.track_position@.contains_key(e.index as int),
            },
    {
        if self.entities.is_alive(e) {
            self.track_position.get(e.index)
        } else {
            None
        }
    }

    /// The tracking component of the entity `e`, open to change, if `e` is alive and
    /// has one. Nothing but that component can change.
    pub fn get_track_position_mut(&mut self, e: Entity) -> (r: Option<&mut TrackPositionComponent>)
        requires
            old(self).wf(),
        ensures
            final(self).wf(),
            final(self).entities@ == old(self).entities@,
            final(self).same_context(old(self)),
            match r {
                Some(c) => {
                    &&& alive_in(old(self).entities@, e)
                    &&& lookup(old(self).track_position@, e.index as int) == Some(*c)
                    &&& final(self).components() == (Components {
                        track_position: old(self).track_position@.insert(e.index as int, *final(c)),
                        ..old(self).components()
                    })
                },
                None => {
                    &&& !alive_in(old(self).entities@, e) || !old(self).track_position@.contains_key(e.index as int)
                    &&& final(self).components() == old(self).components()
                },
            },
    {
        if self.entities.is_alive(e) {
            match self.track_position.get_mut(e.index) {
                Some(c) => {
                    proof {
                        let changed = old(self).track_position@.insert(e.index as int, *final(c));
                        let after = Components { track_position: changed, ..old(self).components() };
                        assert(changed.dom() =~= old(self).track_position@.dom());
                        lemma_kept_slots(old(self).components(), after, old(self).entities@);
                    }
                    Some(c)
                },
                None => None,
            }
        } else {
            None
        }
    }

    /// Brings a new entity to life that carries the components of `bundle`
    /// and nothing else.
    pub fn spawn(&mut self, bundle: Bundle) -> (e: Entity)
        requires
            old(self).wf(),
        ensures
            final(self).wf(),
            fresh_in(old(self).entities@, e),
            alive_in(final(self).entities@, e),
            final(self).entities@ == with_created(old(self).entities@, e),
            final(self).components() == old(self).components().with_bundle(e.index as int, bundle),
            final(self).components().bundle_at(e.index as int) == bundle,
            final(self).same_context(old(self)),
    {
        let e = self.create();
        let ghost created = self.components();
        match bundle.position {
            Some(c) => {
                self.position.insert(e.index, c);
            },
            None => {},
        }
        match bundle.sprite {
            Some(c) => {
                self.sprite.insert(e.index, c);
            },
            None => {},
        }
        match bundle.player_physics {
            Some(c) => {
                self.player_physics.insert(e.index, c);
            },
            None => {},
        }
        match bundle.bullet_physics {
            Some(c) => {
                self.bullet_physics.insert(e.index, c);
            },
            None => {},
        }
        match bundle.player_weapon {
            Some(c) => {
                self.player_weapon.insert(e.index, c);
            },
            None => {},
        }
        match bundle.player_animation {
            Some(c) => {
                self.player_animation.insert(e.index, c);
            },
            None => {},
        }
        match bundle.track_position {
            Some(c) => {
                self.track_position.insert(e.index, c);
            },
            None => {},
        }
        proof {
            assert(created.bundle_at(e.index as int) == Bundle::empty());
            assert forall|i: int| #[trigger] self.components().carries(i) implies occupied(self.entities@, i) by {
                if i != e.index {
                    assert(created.carries(i));
                }
            }
        }
        e
    }

    /// The living entities in the slots below `n` that carry a component of
    /// each of the given kinds, in the order of their slots.
    pub open spec fn join_upto(&self, kinds: Seq<ComponentKind>, n: int) -> Seq<Entity>
        decreases n,
    {
        if n <= 0 {
            Seq::empty()
        } else if occupied(self.entities@, n - 1) && self.components().has_all(n - 1, kinds) {
            self.join_upto(kinds, n - 1).push(entity_in(self.entities@, n - 1))
        } else {
            self.join_upto(kinds, n - 1)
        }
    }

    /// Whether the entity in slot `slot` carries a component of each of the
    /// given kinds.
    fn carries_all(&self, slot: usize, kinds: &[ComponentKind]) -> (r: bool)
        ensures
            r == self.components().has_all(slot as int, kinds@),
    {
        let mut k: usize = 0;
        while k < kinds.len()
            invariant
                k <= kinds.len(),
                forall|j: int| 0 <= j < k ==> self.components().has(slot as int, #[trigger] kinds@[j]),
            decreases kinds.len() - k,
        {
            let held = match kinds[k] {
                ComponentKind::Position => self.position.contains(slot),
                ComponentKind::Sprite => self.sprite.contains(slot),
                ComponentKind::PlayerPhysics => self.player_physics.contains(slot),
                ComponentKind::BulletPhysics => self.bullet_physics.contains(slot),
                ComponentKind::PlayerWeapon => self.player_weapon.contains(slot),
                ComponentKind::PlayerAnimation => self.player_animation.contains(slot),
                ComponentKind::TrackPosition => self.track_position.contains(slot),
            };
            if !held {
                return false;
            }
            k += 1;
        }
        true
    }

    /// The living entities that carry a component of each of the given
    /// kinds, in the order of their slots. The result is a snapshot: what
    /// happens to the world afterwards does not change it.
    pub fn join(&self, kinds: &[ComponentKind]) -> (r: Vec<Entity>)
        ensures
            r@ == self.join_upto(kinds@, self.entities@.len() as int),
    {
        let n = self.entities.slot_count();
        let mut found: Vec<Entity> = Vec::new();
        let mut slot: usize = 0;
        while slot < n
            invariant
                slot <= n,
                n == self.entities@.len(),
                found@ == self.join_upto(kinds@, slot as int),
            decreases n - slot,
        {
            match self.entities.entity_at(slot) {
                Some(e) => {
                    if self.carries_all(slot, kinds) {
                        found.push(e);
                    }
                },
                None => {},
            }
            slot += 1;
        }
        found
    }

    /// Carries out the structural changes that were asked for and empties
    /// the queue: first every creation, in the order of asking, then every
    /// deletion, in the order of asking. A deletion that names no living
    /// entity any more is counted and passed over.
    pub fn apply_deferred(&mut self) -> (report: DeferredReport)
        requires
            old(self).wf(),
        ensures
            final(self).wf(),
            final(self).commands.creations@ == Seq::<Bundle>::empty(),
            final(self).commands.deletions@ == Seq::<Entity>::empty(),
            final(self).player_input == old(self).player_input,
            final(self).timing == old(self).timing,
            final(self).audio@ == old(self).audio@,
            report.created@.len() == old(self).commands.creations@.len(),
            old(self).population().spawns_fresh(
                report.created@,
                old(self).commands.creations@,
                report.created@.len() as int,
            ),
            final(self).population() == old(self).population().spawned_all(
                report.created@,
                old(self).commands.creations@,
                report.created@.len() as int,
            ).destroyed_all(old(self).commands.deletions@, old(self).commands.deletions@.len() as int),
            report.stale == old(self).population().spawned_all(
                report.created@,
                old(self).commands.creations@,
                report.created@.len() as int,
            ).stale_upto(old(self).commands.deletions@, old(self).commands.deletions@.len() as int),
            report.destroyed + report.stale == old(self).commands.deletions@.len(),
    {
        let mut creations: Vec<Bundle> = Vec::new();
        let mut deletions: Vec<Entity> = Vec::new();
        core::mem::swap(&mut self.commands.creations, &mut creations);
        core::mem::swap(&mut self.commands.deletions, &mut deletions);
        let ghost start = old(self).population();

        let mut created: Vec<Entity> = Vec::new();
        let mut k: usize = 0;
        while k < creations.len()
            invariant
                k <= creations.len(),
                creations@ == old(self).commands.creations@,
                deletions@ == old(self).commands.deletions@,
                self.wf(),
                self.commands.creations@ == Seq::<Bundle>::empty(),
                self.commands.deletions@ == Seq::<Entity>::empty(),
                self.player_input == old(self).player_input,
                self.timing == old(self).timing,
                self.audio@ == old(self).audio@,
                start == old(self).population(),
                created@.len() == k,
                start.spawns_fresh(created@, creations@, k as int),
                self.population() == start.spawned_all(created@, creations@, k as int),
            decreases creations.len() - k,
        {
            let ghost created_before = created@;
            let e = self.spawn(creations[k]);
            created.push(e);
            proof {
                reveal(Population::spawned);
                lemma_spawned_all_prefix(start, created_before, created@, creations@, k as int);
                assert forall|j: int| 0 <= j < k + 1 implies fresh_in(
                    start.spawned_all(created@, creations@, j).slots,
                    #[trigger] created@[j],
                ) by {
                    lemma_spawned_all_prefix(start, created_before, created@, creations@, j);
                    if j < k {
                        assert(created@[j] == created_before[j]);
                        assert(fresh_in(
                            start.spawned_all(created_before, creations@, j).slots,
                            created_before[j],
                        ));
                    }
                }
            }
            k += 1;
        }
        let ghost grown = self.population();

        let mut destroyed: usize = 0;
        let mut stale: usize = 0;
        let mut d: usize = 0;
        while d < deletions.len()
            invariant
                d <= deletions.len(),
                deletions@ == old(self).commands.deletions@,
                self.wf(),
                self.commands.creations@ == Seq::<Bundle>::empty(),
                self.commands.deletions@ == Seq::<Entity>::empty(),
                self.player_input == old(self).player_input,
                self.timing == old(self).timing,
                self.audio@ == old(self).audio@,
                self.population() == grown.destroyed_all(deletions@, d as int),
                stale == grown.stale_upto(deletions@, d as int),
                destroyed + stale == d,
            decreases deletions.len() - d,
        {
            match self.destroy(deletions[d]) {
                Ok(()) => {
                    destroyed += 1;
                },
                Err(_) => {
                    stale += 1;
                },
            }
            proof {
                reveal(Population::destroyed);
            }
            d += 1;
        }
        DeferredReport { created, destroyed, stale }
    }
}

/// Whether every component of `storage` sits in the slot of a living
/// entity.
fn on_living<T>(entities: &Entities, storage: &Storage<T>) -> (r: bool)
    ensures
        r == forall|i: int| #[trigger] storage@.contains_key(i) ==> occupied(entities@, i),
{
    let n = storage.extent();
    let mut slot: usize = 0;
    while slot < n
        invariant
            slot <= n,
            forall|i: int| #[trigger] storage@.contains_key(i) ==> 0 <= i < n,
            forall|i: int| 0 <= i < slot && #[trigger] storage@.contains_key(i) ==> occupied(entities@, i),
        decreases n - slot,
    {
        if storage.contains(slot) && entities.entity_at(slot).is_none() {
            assert(storage@.contains_key(slot as int) && !occupied(entities@, slot as int));
            return false;
        }
        slot += 1;
    }
    true
}

/// Components that sit in the same slots as components on living entities
/// sit on living entities.
pub proof fn lemma_kept_slots(before: Components, after: Components, slots: Seq<Slot>)
    requires
        before.on_living(slots),
        after.position.dom() == before.position.dom(),
        after.sprite.dom() == before.sprite.dom(),
        after.player_physics.dom() == before.player_physics.dom(),
        after.bullet_physics.dom() == before.bullet_physics.dom(),
        after.player_weapon.dom() == before.player_weapon.dom(),
        after.player_animation.dom() == before.player_animation.dom(),
        after.track_position.dom() == before.track_position.dom(),
    ensures
        after.on_living(slots),
{
    assert forall|i: int| #[trigger] after.carries(i) implies occupied(slots, i) by {
        assert(after.position.contains_key(i) == before.position.contains_key(i));
        assert(after.sprite.contains_key(i) == before.sprite.contains_key(i));
        assert(after.player_physics.contains_key(i) == before.player_physics.contains_key(i));
        assert(after.bullet_physics.contains_key(i) == before.bullet_physics.contains_key(i));
        assert(after.player_weapon.contains_key(i) == before.player_weapon.contains_key(i));
        assert(after.player_animation.contains_key(i) == before.player_animation.contains_key(i));
        assert(after.track_position.contains_key(i) == before.track_position.contains_key(i));
        assert(before.carries(i));
    }
}

/// A join names exactly the living entities in the slots below `n` that
/// carry a component of each kind asked for, each once and in the order of
/// the slots. An entity that is not alive is in no join.
pub proof fn lemma_join_members(w: World, kinds: Seq<ComponentKind>, n: int)
    requires
        0 <= n <= w.entities@.len() <= usize::MAX,
    ensures
        forall|e: Entity| #[trigger]
            w.join_upto(kinds, n).contains(e) <==> alive_in(w.entities@, e) && e.index < n
                && w.components().has_all(e.index as int, kinds),
        forall|j: int, k: int|
            0 <= j < k < w.join_upto(kinds, n).len() ==> (#[trigger] w.join_upto(kinds, n)[j]).index < (
            #[trigger] w.join_upto(kinds, n)[k]).index,
        forall|k: int| 0 <= k < w.join_upto(kinds, n).len() ==> (#[trigger] w.join_upto(kinds, n)[k]).index < n,
    decreases n,
{
    if n > 0 {
        lemma_join_members(w, kinds, n - 1);
        let before = w.join_upto(kinds, n - 1);
        let all = w.join_upto(kinds, n);
        let last = entity_in(w.entities@, n - 1);
        let joins = occupied(w.entities@, n - 1) && w.components().has_all(n - 1, kinds);
        assert forall|e: Entity| #[trigger] all.contains(e) <==> alive_in(w.entities@, e) && e.index < n
            && w.components().has_all(e.index as int, kinds) by {
            if all.contains(e) {
                let k = choose|k: int| 0 <= k < all.len() && all[k] == e;
                if k < before.len() {
                    assert(before[k] == e);
                    assert(before.contains(e));
                } else {
                    assert(e == last);
                }
            }
            if alive_in(w.entities@, e) && e.index < n && w.components().has_all(e.index as int, kinds) {
                if e.index < n - 1 {
                    assert(before.contains(e));
                    let k = choose|k: int| 0 <= k < before.len() && before[k] == e;
                    assert(all[k] == e);
                } else {
                    assert(e == last);
                    assert(all[all.len() - 1] == e);
                }
            }
        }
        assert forall|k: int| 0 <= k < all.len() implies (#[trigger] all[k]).index < n by {
            if k < before.len() {
                assert(all[k] == before[k]);
            }
        }
        assert forall|j: int, k: int| 0 <= j < k < all.len() implies (#[trigger] all[j]).index < (
        #[trigger] all[k]).index by {
            assert(all[j] == before[j]);
            if k < before.len() {
                assert(all[k] == before[k]);
            }
        }
    } else {
        assert forall|e: Entity| #[trigger] w.join_upto(kinds, n).contains(e) <==> alive_in(w.entities@, e)
            && e.index < n && w.components().has_all(e.index as int, kinds) by {
            if w.join_upto(kinds, n).contains(e) {
                let k = choose|k: int| 0 <= k < w.join_upto(kinds, n).len() && w.join_upto(kinds, n)[k] == e;
            }
        }
    }
}

/// What has come to life under the first `k` names depends on those names
/// alone.
proof fn lemma_spawned_all_prefix(
    start: Population,
    shorter: Seq<Entity>,
    longer: Seq<Entity>,
    bundles: Seq<Bundle>,
    k: int,
)
    requires
        0 <= k <= shorter.len() <= longer.len(),
        forall|j: int| 0 <= j < shorter.len() ==> shorter[j] == longer[j],
    ensures
        start.spawned_all(shorter, bundles, k) == start.spawned_all(longer, bundles, k),
    decreases k,
{
    if k > 0 {
        lemma_spawned_all_prefix(start, shorter, longer, bundles, k - 1);
    }
}

} // verus!
