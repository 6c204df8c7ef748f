//! Structural changes that wait for the end of the tick.

use crate::component::bullet_physics::BulletPhysicsComponent;
use crate::component::player_animation::PlayerAnimationComponent;
use crate::component::player_physics::PlayerPhysicsComponent;
use crate::component::player_weapon::PlayerWeaponComponent;
use crate::component::position::PositionComponent;
use crate::component::sprite::SpriteComponent;
use crate::component::track_position::TrackPositionComponent;
use crate::store::entity::Entity;
use vstd::prelude::*;

verus! {

/// The kinds of component that the store keeps.
#[derive(Clone, Copy, Debug, PartialEq, Eq, Structural)]
pub enum ComponentKind {
    Position,
    Sprite,
    PlayerPhysics,
    BulletPhysics,
    PlayerWeapon,
    PlayerAnimation,
    TrackPosition,
}

/// A component of any kind.
#[derive(Clone, Copy, Debug, PartialEq, Eq)]
pub enum Component {
    Position(PositionComponent),
    Sprite(SpriteComponent),
    PlayerPhysics(PlayerPhysicsComponent),
    BulletPhysics(BulletPhysicsComponent),
    PlayerWeapon(PlayerWeaponComponent),
    PlayerAnimation(PlayerAnimationComponent),
    TrackPosition(TrackPositionComponent),
}

impl Component {
    /// The kind of the component.
    pub open spec fn kind_spec(self) -> ComponentKind {
        match self {
            Component::Position(_) => ComponentKind::Position,
            Component::Sprite(_) => ComponentKind::Sprite,
            Component::PlayerPhysics(_) => ComponentKind::PlayerPhysics,
            Component::BulletPhysics(_) => ComponentKind::BulletPhysics,
            Component::PlayerWeapon(_) => ComponentKind::PlayerWeapon,
            Component::PlayerAnimation(_) => ComponentKind::PlayerAnimation,
            Component::TrackPosition(_) => ComponentKind::TrackPosition,
        }
    }

    /// The kind of the component.
    pub fn kind(&self) -> (r: ComponentKind)
        ensures
            r == self.kind_spec(),
    {
        match self {
            Component::Position(_) => ComponentKind::Position,
            Component::Sprite(_) => ComponentKind::Sprite,
            Component::PlayerPhysics(_) => ComponentKind::PlayerPhysics,
            Component::BulletPhysics(_) => ComponentKind::BulletPhysics,
            Component::PlayerWeapon(_) => ComponentKind::PlayerWeapon,
            Component::PlayerAnimation(_) => ComponentKind::PlayerAnimation,
            Component::TrackPosition(_) => ComponentKind::TrackPosition,
        }
    }
}

/// The components that a new entity is to carry: at most one of each kind.
#[derive(Clone, Copy, Debug, PartialEq, Eq)]
pub struct Bundle {
    pub position: Option<PositionComponent>,
    pub sprite: Option<SpriteComponent>,
    pub player_physics: Option<PlayerPhysicsComponent>,
    pub bullet_physics: Option<BulletPhysicsComponent>,
    pub player_weapon: Option<PlayerWeaponComponent>,
    pub player_animation: Option<PlayerAnimationComponent>,
    pub track_position: Option<TrackPositionComponent>,
}

impl Bundle {
    /// The bundle without components.
    pub open spec fn empty() -> Bundle {
        Bundle {
            position: None,
            sprite: None,
            player_physics: None,
            bullet_physics: None,
            player_weapon: None,
            player_animation: None,
            track_position: None,
        }
    }

    /// The bundle with `component` in the place of its kind.
    pub open spec fn with_spec(self, component: Component) -> Bundle {
        match component {
            Component::Position(c) => Bundle { position: Some(c), ..self },
            Component::Sprite(c) => Bundle { sprite: Some(c), ..self },
            Component::PlayerPhysics(c) => Bundle { player_physics: Some(c), ..self },
            Component::BulletPhysics(c) => Bundle { bullet_physics: Some(c), ..self },
            Component::PlayerWeapon(c) => Bundle { player_weapon: Some(c), ..self },
            Component::PlayerAnimation(c) => Bundle { player_animation: Some(c), ..self },
            Component::TrackPosition(c) => Bundle { track_position: Some(c), ..self },
        }
    }

    /// A bundle without components.
    pub fn new() -> (r: Self)
        ensures
            r == Bundle::empty(),
    {
        Bundle {
            position: None,
            sprite: None,
            player_physics: None,
            bullet_physics: None,
            player_weapon: None,
            player_animation: None,
            track_position: None,
        }
    }

    /// Adds `component`, in place of one of the same kind if there is one.
    pub fn with(self, component: Component) -> (r: Self)
        ensures
            r == self.with_spec(component),
    {
        let mut bundle = self;
        match component {
            Component::Position(c) => bundle.position = Some(c),
            Component::Sprite(c) => bundle.sprite = Some(c),
            Component::PlayerPhysics(c) => bundle.player_physics = Some(c),
            Component::BulletPhysics(c) => bundle.bullet_physics = Some(c),
            Component::PlayerWeapon(c) => bundle.player_weapon = Some(c),
            Component::PlayerAnimation(c) => bundle.player_animation = Some(c),
            Component::TrackPosition(c) => bundle.track_position = Some(c),
        }
        bundle
    }
}

/// The queue of structural changes. Systems record here the entities that
/// are to be created and destroyed; the store carries the changes out when
/// the systems of the tick have run.
pub struct Commands {
    pub creations: Vec<Bundle>,
    pub deletions: Vec<Entity>,
}

impl Commands {
    /// An empty queue.
    pub fn new() -> (r: Self)
        ensures
            r.creations@ == Seq::<Bundle>::empty(),
            r.deletions@ == Seq::<Entity>::empty(),
    {
        Commands { creations: Vec::new(), deletions: Vec::new() }
    }

    /// Asks for a new entity that carries the components of `bundle`.
    pub fn create(&mut self, bundle: Bundle)
        ensures
            final(self).creations@ == old(self).creations@.push(bundle),
            final(self).deletions@ == old(self).deletions@,
    {
        self.creations.push(bundle);
    }

    /// Asks for the end of `entity`.
    pub fn destroy(&mut self, entity: Entity)
        ensures
            final(self).creations@ == old(self).creations@,
            final(self).deletions@ == old(self).deletions@.push(entity),
    {
        self.deletions.push(entity);
    }

    /// Whether nothing is asked for.
    pub fn is_empty(&self) -> (r: bool)
        ensures
            r == (self.creations@.len() == 0 && self.deletions@.len() == 0),
    {
        self.creations.len() == 0 && self.deletions.len() == 0
    }
}

} // verus!
