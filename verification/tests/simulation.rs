use deimos::component::position::PositionComponent;
use deimos::component::track_position::TrackPositionComponent;
use deimos::entity::player::Player;
use deimos::errors::SystemError;
use deimos::resource::player_input::{InputEvent, Key};
use deimos::simulation::{run_systems, tick};
use deimos::sound::{SoundId, SoundLibrary};
use deimos::sprite::{Sprite, SpriteDescription, SpriteId, SpriteManager};
use deimos::store::commands::{Bundle, Component, ComponentKind};
use deimos::store::entity::Entity;
use deimos::store::world::World;

fn ids() -> (SpriteId, SpriteId, SpriteId, SoundId) {
    let mut sprites: SpriteManager<()> = SpriteManager::new();
    let small = SpriteDescription { number_of_frames: 1, border_left: 0, border_up: 0, frame_dimensions: (20, 20) };
    let ship = sprites.insert(Sprite::from_gif(small, (), 20, 20).unwrap());
    let shot = sprites.insert(Sprite::from_gif(small, (), 20, 20).unwrap());
    let glow = sprites.insert(Sprite::from_gif(small, (), 20, 20).unwrap());
    let mut sounds: SoundLibrary<()> = SoundLibrary::new();
    (ship, shot, glow, sounds.insert(()))
}

fn game() -> (World, Entity, Entity) {
    let (ship, shot, glow_sprite, bang) = ids();
    let sheet = SpriteDescription { number_of_frames: 7, border_left: 3, border_up: 3, frame_dimensions: (53, 43) };
    let mut world = World::new();
    let (player, glow) =
        Player::create_player(&mut world, ship, &sheet, 320_000, 280_000, shot, (20, 20), bang, glow_sprite);
    (world, player, glow)
}

#[test]
fn a_quiet_tick_changes_little() {
    let (mut world, player, glow) = game();
    let report = tick(&mut world, 1234).unwrap();
    assert!(report.created.is_empty());
    assert_eq!((report.destroyed, report.stale), (0, 0));
    assert_eq!(world.timing.physics_tick, 1234);
    assert_eq!(world.get_position(player), Some(&PositionComponent::new(320_000, 280_000)));
    let follower = world.get_position(glow).unwrap();
    assert_eq!((follower.previous_x(), follower.x()), (320_000, 320_000));
    assert_eq!((follower.previous_y(), follower.y()), (274_000, 274_000));
    assert_eq!(world.get_sprite(player).unwrap().current_frame_idx, 0);
    assert!(world.audio.take_pending().is_empty());
}

#[test]
fn the_systems_run_in_their_order() {
    let (mut world, player, glow) = game();
    world.player_input.update_player_input(InputEvent::KeyDown(Key::Right));
    world.player_input.update_player_input(InputEvent::KeyDown(Key::Fire));
    let report = tick(&mut world, 16_666_666).unwrap();

    // movement first: the unit has moved
    let physics = *world.get_player_physics(player).unwrap();
    assert_eq!((physics.ax, physics.vx), (671, 671));
    let at = *world.get_position(player).unwrap();
    assert_eq!((at.previous_x(), at.x(), at.y()), (320_000, 320_671, 280_000));

    // then the weapon: it fires from where the unit has moved to
    assert_eq!(report.created.len(), 2);
    assert_eq!((report.destroyed, report.stale), (0, 0));
    let left = *world.get_position(report.created[0]).unwrap();
    let right = *world.get_position(report.created[1]).unwrap();
    assert_eq!((left.previous_x(), left.x()), (320_671 - 4667, 320_671 - 4667));
    assert_eq!((right.previous_x(), right.x()), (320_671 + 4667, 320_671 + 4667));
    assert_eq!((left.y(), right.y()), (280_000, 280_000));
    assert_eq!(world.get_player_weapon(player).unwrap().cooldown, 10);
    assert_eq!(world.audio.take_pending().len(), 1);
    assert_eq!(
        world.join(&[ComponentKind::BulletPhysics, ComponentKind::Position, ComponentKind::Sprite]),
        report.created
    );

    // then the animation: the unit starts to bank to the right
    assert_eq!(world.get_sprite(player).unwrap().current_frame_idx, 4);

    // then the followers: the glow is where the unit is and was
    let follower = *world.get_position(glow).unwrap();
    assert_eq!((follower.previous_x(), follower.x()), (320_000, 320_671));
    assert_eq!((follower.previous_y(), follower.y()), (274_000, 274_000));

    // and at last the time of the tick
    assert_eq!(world.timing.physics_tick, 16_666_666);
    assert!(world.commands.is_empty());
    assert!(world.player_input.right && world.player_input.fire);
}

#[test]
fn projectiles_of_a_moving_owner_start_at_rest() {
    let (mut world, player, _) = game();
    world.player_input.down = true;
    world.player_input.left = true;
    tick(&mut world, 1).unwrap();
    world.player_input.fire = true;
    let report = tick(&mut world, 2).unwrap();
    let owner = *world.get_position(player).unwrap();
    assert_ne!(owner.previous_y(), owner.y());
    assert_ne!(owner.previous_x(), owner.x());
    assert_eq!(report.created.len(), 2);
    let left = *world.get_position(report.created[0]).unwrap();
    let right = *world.get_position(report.created[1]).unwrap();
    assert_eq!((left.previous_x(), left.x()), (owner.x() - 4667, owner.x() - 4667));
    assert_eq!((right.previous_x(), right.x()), (owner.x() + 4667, owner.x() + 4667));
    assert_eq!((left.previous_y(), left.y()), (owner.y(), owner.y()));
    assert_eq!((right.previous_y(), right.y()), (owner.y(), owner.y()));
}

#[test]
fn projectiles_fly_from_the_tick_after_their_creation() {
    let (mut world, _, _) = game();
    world.player_input.fire = true;
    let bullets = tick(&mut world, 1).unwrap().created;
    world.player_input.fire = false;
    let start = *world.get_position(bullets[0]).unwrap();
    assert_eq!(start.y(), 280_000);
    let report = tick(&mut world, 2).unwrap();
    assert!(report.created.is_empty());
    let flown = *world.get_position(bullets[0]).unwrap();
    assert_eq!((flown.previous_y(), flown.y()), (280_000, 275_000));
    assert_eq!((flown.previous_x(), flown.x()), (start.x(), start.x()));
}

#[test]
fn sustained_fire_shoots_every_eleventh_tick() {
    let (mut world, player, _) = game();
    world.player_input.fire = true;
    let mut shots = Vec::new();
    for t in 0..34u64 {
        let report = tick(&mut world, t).unwrap();
        if !report.created.is_empty() {
            assert_eq!(report.created.len(), 2);
            shots.push(t);
        }
    }
    assert_eq!(shots, vec![0, 11, 22, 33]);
    assert_eq!(world.audio.take_pending().len(), 4);
    assert_eq!(world.get_player_weapon(player).unwrap().cooldown, 10);
}

#[test]
fn a_projectile_that_leaves_its_area_is_gone_after_the_tick() {
    let (mut world, player, glow) = game();
    world.player_input.fire = true;
    let bullets = tick(&mut world, 1).unwrap().created;
    world.player_input.fire = false;
    // put the left projectile right below the upper bound of its area
    world.get_position_mut(bullets[0]).unwrap().reset_y(-5_001);
    world.get_position_mut(bullets[1]).unwrap().reset_y(-5_000);

    let report = tick(&mut world, 2).unwrap();
    assert_eq!((report.destroyed, report.stale), (1, 0));
    assert!(!world.is_alive(bullets[0]));
    assert!(world.is_alive(bullets[1]));
    assert_eq!(world.get_position(bullets[0]), None);
    assert_eq!(world.get_position(bullets[1]).unwrap().y(), -10_000);
    assert_eq!(world.join(&[ComponentKind::BulletPhysics, ComponentKind::Position]), vec![bullets[1]]);
    assert_eq!(world.join(&[]), vec![player, glow, bullets[1]]);

    let report = tick(&mut world, 3).unwrap();
    assert_eq!((report.destroyed, report.stale), (1, 0));
    assert!(world.join(&[ComponentKind::BulletPhysics]).is_empty());

    // the names stay retired when their slots are taken again
    world.player_input.fire = true;
    let mut later = Vec::new();
    for t in 4..30 {
        later.extend(tick(&mut world, t).unwrap().created);
    }
    assert!(later.iter().any(|e| e.index == bullets[0].index));
    assert!(!later.contains(&bullets[0]) && !later.contains(&bullets[1]));
    assert!(!world.is_alive(bullets[0]) && !world.is_alive(bullets[1]));
    let joined = world.join(&[ComponentKind::BulletPhysics, ComponentKind::Position]);
    assert!(!joined.contains(&bullets[0]) && !joined.contains(&bullets[1]));
}

#[test]
fn the_last_position_of_a_culled_projectile_is_written_before_it_ends() {
    let (mut world, _, _) = game();
    world.player_input.fire = true;
    run_systems(&mut world).unwrap();
    let report = world.apply_deferred();
    world.player_input.fire = false;
    let bullet = report.created[0];
    world.get_position_mut(bullet).unwrap().reset_y(-9_000);
    run_systems(&mut world).unwrap();
    assert!(world.is_alive(bullet));
    assert_eq!(world.get_position(bullet).unwrap().y(), -14_000);
    assert_eq!(world.commands.deletions, vec![bullet]);
    world.apply_deferred();
    assert!(!world.is_alive(bullet));
}

#[test]
fn driving_into_the_corner_stops_on_the_bounds() {
    let (mut world, player, glow) = game();
    world.player_input.right = true;
    world.player_input.down = true;
    for t in 0..400 {
        tick(&mut world, t).unwrap();
    }
    let at = *world.get_position(player).unwrap();
    assert_eq!((at.x(), at.y()), (589_000, 434_000));
    assert_eq!((at.previous_x(), at.previous_y()), (589_000, 434_000));
    let follower = *world.get_position(glow).unwrap();
    assert_eq!((follower.x(), follower.y()), (589_000, 428_000));
    assert_eq!(world.get_sprite(player).unwrap().current_frame_idx, 6);

    world.player_input.right = false;
    world.player_input.down = false;
    for t in 400..420 {
        tick(&mut world, t).unwrap();
    }
    let physics = *world.get_player_physics(player).unwrap();
    assert_eq!((physics.ax, physics.vx, physics.ay, physics.vy), (0, 0, 0, 0));
    assert_eq!(world.get_sprite(player).unwrap().current_frame_idx, 0);
    assert_eq!(world.get_position(player).unwrap().x(), 589_000);
}

#[test]
fn a_follower_of_a_gone_entity_ends_the_tick() {
    let (mut world, player, glow) = game();
    let target = world.create();
    let orphan = world.spawn(
        Bundle::new()
            .with(Component::Position(PositionComponent::new(0, 0)))
            .with(Component::TrackPosition(TrackPositionComponent { tracked_entity: target, offset: (0, 0) })),
    );
    world.destroy(target).unwrap();
    world.player_input.fire = true;
    world.player_input.left = true;

    assert_eq!(tick(&mut world, 77).err(), Some(SystemError::TrackedEntityMissing(orphan)));
    // the time of the tick is not written down and nothing was created
    assert_eq!(world.timing.physics_tick, 0);
    assert_eq!(world.join(&[]), vec![player, glow, orphan]);
    assert_eq!(world.commands.creations.len(), 2);
    // the systems before the fault have done their work, the followers have not moved
    assert_eq!(world.get_position(player).unwrap().x(), 320_000 - 671);
    assert_eq!(world.get_sprite(player).unwrap().current_frame_idx, 1);
    assert_eq!(world.get_position(glow), Some(&PositionComponent::new(0, 0)));
}

#[test]
fn a_unit_without_sprite_ends_the_tick_before_the_animation() {
    let (mut world, player, glow) = game();
    world.detach(player, ComponentKind::Sprite).unwrap();
    world.player_input.left = true;
    assert_eq!(run_systems(&mut world), Err(SystemError::UnitWithoutSprite(player)));
    assert_eq!(world.get_position(player).unwrap().x(), 320_000 - 671);
    assert_eq!(world.get_player_animation(player).unwrap().animation_state.frame_index(), 0);
    assert_eq!(world.get_position(glow), Some(&PositionComponent::new(0, 0)));
}
