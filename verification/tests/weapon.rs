use deimos::component::bullet_physics::BulletPhysicsComponent;
use deimos::component::player_weapon::PlayerWeaponComponent;
use deimos::component::position::PositionComponent;
use deimos::component::sprite::SpriteComponent;
use deimos::resource::player_input::PlayerInput;
use deimos::resource::sound::AudioInterface;
use deimos::sound::{SoundId, SoundLibrary};
use deimos::sprite::{Sprite, SpriteDescription, SpriteId, SpriteManager};
use deimos::store::commands::{Bundle, Commands};
use deimos::store::entity::Entities;
use deimos::store::storage::Storage;
use deimos::system::player_weapon::{PlayerWeaponSystem, POS_OFFSET, VY};
use deimos::system::render::Layer;

fn sprite_id(n: usize) -> SpriteId {
    let mut manager: SpriteManager<()> = SpriteManager::new();
    let description =
        SpriteDescription { number_of_frames: 1, border_left: 0, border_up: 0, frame_dimensions: (1, 1) };
    let mut id = manager.insert(Sprite::from_gif(description, (), 1, 1).unwrap());
    for _ in 0..n {
        id = manager.insert(Sprite::from_gif(description, (), 1, 1).unwrap());
    }
    id
}

fn sound_id(n: usize) -> SoundId {
    let mut library: SoundLibrary<()> = SoundLibrary::new();
    let mut id = library.insert(());
    for _ in 0..n {
        id = library.insert(());
    }
    id
}

fn weapon() -> PlayerWeaponComponent {
    PlayerWeaponComponent::new(10, sprite_id(3), sound_id(5)).with_bullet_dimensions((20, 30))
}

fn bullet(at: PositionComponent) -> Bundle {
    Bundle {
        position: Some(at),
        sprite: Some(SpriteComponent::new(sprite_id(3), Layer::Effects)),
        player_physics: None,
        bullet_physics: Some(BulletPhysicsComponent {
            vx: 0,
            vy: -5000,
            x_min: -10_000,
            x_max: 650_000,
            y_min: -15_000,
            y_max: 495_000,
        }),
        player_weapon: None,
        player_animation: None,
        track_position: None,
    }
}

#[test]
fn weapon_constants() {
    assert_eq!(VY, -5000);
    assert_eq!(POS_OFFSET, 4667);
}

#[test]
fn a_new_weapon_is_ready() {
    let w = PlayerWeaponComponent::new(10, sprite_id(3), sound_id(5));
    assert_eq!(w.cooldown_reset, 10);
    assert_eq!(w.cooldown, 0);
    assert_eq!(w.bullet_sprite.index(), 3);
    assert_eq!(w.bullet_sound.index(), 5);
    assert_eq!(w.bullet_dimensions, (0, 0));
    assert_eq!(w.with_bullet_dimensions((20, 30)).bullet_dimensions, (20, 30));
}

#[test]
fn a_shot_asks_for_two_projectiles_beside_the_owner() {
    let mut w = weapon();
    let mut owner = PositionComponent::new(100_000, 200_000);
    owner.update_y(195_000);
    let mut commands = Commands::new();
    let fired = PlayerWeaponSystem::step(true, &mut w, &owner, &mut commands);
    assert!(fired);
    assert_eq!(w.cooldown, 10);
    assert_eq!(commands.creations.len(), 2);
    assert!(commands.deletions.is_empty());

    let mut left = owner;
    left.reset_x(100_000 - 4667);
    left.reset_y(195_000);
    let mut right = owner;
    right.reset_x(100_000 + 4667);
    right.reset_y(195_000);
    assert_eq!(commands.creations[0], bullet(left));
    assert_eq!(commands.creations[1], bullet(right));
    let at = commands.creations[0].position.unwrap();
    assert_eq!((at.x(), at.previous_x(), at.y(), at.previous_y()), (95_333, 95_333, 195_000, 195_000));
    let at = commands.creations[1].position.unwrap();
    assert_eq!((at.x(), at.previous_x(), at.y(), at.previous_y()), (104_667, 104_667, 195_000, 195_000));
}

#[test]
fn no_shot_without_the_fire_intent() {
    let mut w = weapon();
    let owner = PositionComponent::new(0, 0);
    let mut commands = Commands::new();
    assert!(!PlayerWeaponSystem::step(false, &mut w, &owner, &mut commands));
    assert_eq!(w, weapon());
    assert!(commands.is_empty());
}

#[test]
fn no_shot_while_the_cooldown_runs() {
    let mut w = weapon();
    let owner = PositionComponent::new(0, 0);
    let mut commands = Commands::new();
    assert!(PlayerWeaponSystem::step(true, &mut w, &owner, &mut commands));
    for k in 0..10 {
        assert_eq!(w.cooldown, 10 - k);
        assert!(!PlayerWeaponSystem::step(true, &mut w, &owner, &mut commands));
        assert_eq!(commands.creations.len(), 2);
    }
    assert_eq!(w.cooldown, 0);
    assert!(PlayerWeaponSystem::step(true, &mut w, &owner, &mut commands));
    assert_eq!(commands.creations.len(), 4);
    assert_eq!(w.cooldown, 10);
}

#[test]
fn muzzles_at_the_end_of_the_range() {
    let mut w = weapon();
    let owner = PositionComponent::new(i32::MAX - 10, 0);
    let mut commands = Commands::new();
    PlayerWeaponSystem::step(true, &mut w, &owner, &mut commands);
    assert_eq!(commands.creations[1].position.unwrap().x(), i32::MAX);
    assert_eq!(commands.creations[0].position.unwrap().x(), i32::MAX - 10 - 4667);
}

#[test]
fn alive_rectangle_of_a_huge_projectile_is_cut() {
    let mut w = PlayerWeaponComponent::new(1, sprite_id(0), sound_id(0)).with_bullet_dimensions((u32::MAX, 0));
    let owner = PositionComponent::new(0, 0);
    let mut commands = Commands::new();
    PlayerWeaponSystem::step(true, &mut w, &owner, &mut commands);
    let physics = commands.creations[0].bullet_physics.unwrap();
    assert_eq!((physics.x_min, physics.x_max), (i32::MIN, i32::MAX));
    assert_eq!((physics.y_min, physics.y_max), (0, 480_000));
}

#[test]
fn run_fires_every_armed_entity_in_slot_order() {
    let mut entities = Entities::new();
    for _ in 0..4 {
        entities.create();
    }
    let mut weapons: Storage<PlayerWeaponComponent> = Storage::new();
    let mut positions: Storage<PositionComponent> = Storage::new();
    // slot 0: armed and ready, slot 1: cooling down, slot 2: weapon without position, slot 3: armed and ready
    weapons.insert(0, weapon());
    positions.insert(0, PositionComponent::new(10_000, 1));
    let mut cooling = weapon();
    cooling.cooldown = 3;
    weapons.insert(1, cooling);
    positions.insert(1, PositionComponent::new(20_000, 2));
    weapons.insert(2, weapon());
    let other = PlayerWeaponComponent::new(7, sprite_id(1), sound_id(2));
    weapons.insert(3, other);
    positions.insert(3, PositionComponent::new(30_000, 3));

    let mut audio = AudioInterface::new();
    let mut commands = Commands::new();
    let input = PlayerInput { left: false, right: false, up: false, down: false, fire: true };
    PlayerWeaponSystem.run(&input, &mut audio, &entities, &mut commands, &mut weapons, &positions);

    assert_eq!(weapons.get(0).unwrap().cooldown, 10);
    assert_eq!(weapons.get(1).unwrap().cooldown, 2);
    assert_eq!(weapons.get(2).unwrap().cooldown, 0);
    assert_eq!(weapons.get(3).unwrap().cooldown, 7);
    let xs: Vec<i32> = commands.creations.iter().map(|b| b.position.unwrap().x()).collect();
    assert_eq!(xs, vec![10_000 - 4667, 10_000 + 4667, 30_000 - 4667, 30_000 + 4667]);
    assert_eq!(commands.creations[3].sprite.unwrap().sprite.index(), 1);
    assert!(commands.deletions.is_empty());
    let sounds: Vec<usize> = audio.take_pending().iter().map(|s| s.index()).collect();
    assert_eq!(sounds, vec![5, 2]);
    assert!(audio.take_pending().is_empty());
}

#[test]
fn run_without_fire_only_counts_down() {
    let mut entities = Entities::new();
    entities.create();
    let mut weapons: Storage<PlayerWeaponComponent> = Storage::new();
    let mut positions: Storage<PositionComponent> = Storage::new();
    let mut cooling = weapon();
    cooling.cooldown = 1;
    weapons.insert(0, cooling);
    positions.insert(0, PositionComponent::new(0, 0));
    let mut audio = AudioInterface::new();
    let mut commands = Commands::new();
    PlayerWeaponSystem.run(&PlayerInput::default(), &mut audio, &entities, &mut commands, &mut weapons, &positions);
    assert_eq!(weapons.get(0).unwrap().cooldown, 0);
    PlayerWeaponSystem.run(&PlayerInput::default(), &mut audio, &entities, &mut commands, &mut weapons, &positions);
    assert_eq!(weapons.get(0).unwrap().cooldown, 0);
    assert!(commands.is_empty());
    assert!(audio.take_pending().is_empty());
}
