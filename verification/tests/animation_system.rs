use deimos::component::player_animation::{GlowAnimationState, PlayerAnimationComponent, PlayerAnimationState};
use deimos::component::player_physics::PlayerPhysicsComponent;
use deimos::component::sprite::SpriteComponent;
use deimos::errors::SystemError;
use deimos::sprite::{Sprite, SpriteDescription, SpriteId, SpriteManager};
use deimos::store::entity::Entities;
use deimos::store::storage::Storage;
use deimos::system::player_animation::PlayerAnimationSystem;
use deimos::system::render::Layer;

fn sprite_id() -> SpriteId {
    let mut manager: SpriteManager<()> = SpriteManager::new();
    let description =
        SpriteDescription { number_of_frames: 1, border_left: 0, border_up: 0, frame_dimensions: (1, 1) };
    manager.insert(Sprite::from_gif(description, (), 1, 1).unwrap())
}

fn physics(ax: i32, vx: i32) -> PlayerPhysicsComponent {
    PlayerPhysicsComponent {
        ax,
        ay: 99,
        vx,
        vy: -99,
        ax_max: 10,
        ay_max: 10,
        vx_max: 10,
        vy_max: 10,
        x_min: 0,
        x_max: 10,
        y_min: 0,
        y_max: 10,
    }
}

#[test]
fn step_follows_the_horizontal_motion_only() {
    let mut animation = PlayerAnimationComponent::default();
    PlayerAnimationSystem::step(&mut animation, &physics(-3, -3));
    assert_eq!(animation.animation_state, PlayerAnimationState::Left1(1));
    assert_eq!(animation.glow_animation_state, GlowAnimationState::Off);
    let mut level = PlayerAnimationComponent::default();
    PlayerAnimationSystem::step(&mut level, &physics(0, 0));
    assert_eq!(level, PlayerAnimationComponent::default());
}

#[test]
fn the_glow_pulses_only_with_a_glow_entity() {
    let mut entities = Entities::new();
    let glow = entities.create();
    let mut with = PlayerAnimationComponent::default();
    with.weapon_glow_entity = Some(glow);
    with.glow_animation_state = GlowAnimationState::Fire;
    let mut without = PlayerAnimationComponent::default();
    without.glow_animation_state = GlowAnimationState::Fire;
    PlayerAnimationSystem::step(&mut with, &physics(0, 0));
    PlayerAnimationSystem::step(&mut without, &physics(0, 0));
    assert_eq!(with.glow_animation_state, GlowAnimationState::Fire1(2));
    assert_eq!(without.glow_animation_state, GlowAnimationState::Fire);
}

#[test]
fn run_shows_banking_and_glow_in_the_sprites() {
    let mut entities = Entities::new();
    let unit = entities.create();
    let glow = entities.create();
    let plain = entities.create();
    let mut animations: Storage<PlayerAnimationComponent> = Storage::new();
    let mut physics_of: Storage<PlayerPhysicsComponent> = Storage::new();
    let mut sprites: Storage<SpriteComponent> = Storage::new();
    let mut animation = PlayerAnimationComponent::default();
    animation.animation_state = PlayerAnimationState::Right1(0);
    animation.weapon_glow_entity = Some(glow);
    animation.glow_animation_state = GlowAnimationState::Fire1(0);
    animations.insert(unit.index, animation);
    physics_of.insert(unit.index, physics(4, 4));
    sprites.insert(unit.index, SpriteComponent::new(sprite_id(), Layer::AirUnits));
    sprites.insert(glow.index, SpriteComponent::new(sprite_id(), Layer::Effects).with_scale_factor(120));
    // an animation without physics is left alone
    animations.insert(plain.index, animation);
    sprites.insert(plain.index, SpriteComponent::new(sprite_id(), Layer::AirUnits));

    assert_eq!(PlayerAnimationSystem::check(&entities, &animations, &physics_of, &sprites), Ok(()));
    PlayerAnimationSystem.run(&entities, &mut animations, &physics_of, &mut sprites);

    let after = animations.get(unit.index).unwrap();
    assert_eq!(after.animation_state, PlayerAnimationState::Right2(1));
    assert_eq!(after.glow_animation_state, GlowAnimationState::Fire2(2));
    assert_eq!(after.weapon_glow_entity, Some(glow));
    assert_eq!(sprites.get(unit.index).unwrap().current_frame_idx, 5);
    assert_eq!(sprites.get(unit.index).unwrap().scale_factor, 100);
    assert_eq!(sprites.get(glow.index).unwrap().scale_factor, 110);
    assert_eq!(sprites.get(glow.index).unwrap().current_frame_idx, 0);
    assert_eq!(*animations.get(plain.index).unwrap(), animation);
    assert_eq!(sprites.get(plain.index).unwrap().current_frame_idx, 0);
}

#[test]
fn the_frame_is_written_on_every_tick() {
    let mut entities = Entities::new();
    let unit = entities.create();
    let mut animations: Storage<PlayerAnimationComponent> = Storage::new();
    let mut physics_of: Storage<PlayerPhysicsComponent> = Storage::new();
    let mut sprites: Storage<SpriteComponent> = Storage::new();
    let mut animation = PlayerAnimationComponent::default();
    animation.animation_state = PlayerAnimationState::Left3(4);
    animations.insert(unit.index, animation);
    physics_of.insert(unit.index, physics(0, 0));
    sprites.insert(unit.index, SpriteComponent::new(sprite_id(), Layer::AirUnits));
    PlayerAnimationSystem::check(&entities, &animations, &physics_of, &sprites).unwrap();
    PlayerAnimationSystem.run(&entities, &mut animations, &physics_of, &mut sprites);
    assert_eq!(animations.get(unit.index).unwrap().animation_state, PlayerAnimationState::Left3(3));
    assert_eq!(sprites.get(unit.index).unwrap().current_frame_idx, 3);
}

#[test]
fn a_unit_without_sprite_is_a_fault() {
    let mut entities = Entities::new();
    let fine = entities.create();
    let bare = entities.create();
    let mut animations: Storage<PlayerAnimationComponent> = Storage::new();
    let mut physics_of: Storage<PlayerPhysicsComponent> = Storage::new();
    let mut sprites: Storage<SpriteComponent> = Storage::new();
    animations.insert(fine.index, PlayerAnimationComponent::default());
    physics_of.insert(fine.index, physics(5, 5));
    sprites.insert(fine.index, SpriteComponent::new(sprite_id(), Layer::AirUnits));
    animations.insert(bare.index, PlayerAnimationComponent::default());
    physics_of.insert(bare.index, physics(5, 5));
    assert_eq!(
        PlayerAnimationSystem::check(&entities, &animations, &physics_of, &sprites),
        Err(SystemError::UnitWithoutSprite(bare))
    );
    assert_eq!(*animations.get(fine.index).unwrap(), PlayerAnimationComponent::default());
    assert_eq!(sprites.get(fine.index).unwrap().current_frame_idx, 0);
}

#[test]
fn a_gone_glow_entity_is_a_fault() {
    let mut entities = Entities::new();
    let unit = entities.create();
    let glow = entities.create();
    let mut animations: Storage<PlayerAnimationComponent> = Storage::new();
    let mut physics_of: Storage<PlayerPhysicsComponent> = Storage::new();
    let mut sprites: Storage<SpriteComponent> = Storage::new();
    let mut animation = PlayerAnimationComponent::default();
    animation.weapon_glow_entity = Some(glow);
    animations.insert(unit.index, animation);
    physics_of.insert(unit.index, physics(5, 5));
    sprites.insert(unit.index, SpriteComponent::new(sprite_id(), Layer::AirUnits));
    // alive, but without a sprite
    assert_eq!(
        PlayerAnimationSystem::check(&entities, &animations, &physics_of, &sprites),
        Err(SystemError::GlowEntityMissing(unit))
    );
    // with a sprite, but gone
    sprites.insert(glow.index, SpriteComponent::new(sprite_id(), Layer::Effects));
    entities.destroy(glow).unwrap();
    assert_eq!(
        PlayerAnimationSystem::check(&entities, &animations, &physics_of, &sprites),
        Err(SystemError::GlowEntityMissing(unit))
    );
    assert_eq!(*animations.get(unit.index).unwrap(), animation);
}
