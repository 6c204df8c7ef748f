use deimos::component::bullet_physics::BulletPhysicsComponent;
use deimos::component::position::PositionComponent;
use deimos::store::commands::Commands;
use deimos::store::entity::{Entities, Entity};
use deimos::store::storage::Storage;
use deimos::system::bullet_physics::BulletPhysicsSystem;

fn flight(vx: i32, vy: i32) -> BulletPhysicsComponent {
    BulletPhysicsComponent { vx, vy, x_min: -10, x_max: 110, y_min: -20, y_max: 120 }
}

#[test]
fn a_projectile_inside_its_area_flies_on() {
    let mut position = PositionComponent::new(50, 60);
    let left = BulletPhysicsSystem::step(&flight(3, -5), &mut position);
    assert!(!left);
    assert_eq!((position.previous_x(), position.x()), (50, 53));
    assert_eq!((position.previous_y(), position.y()), (60, 55));
}

#[test]
fn a_projectile_on_the_bound_is_still_inside() {
    let mut position = PositionComponent::new(-9, 119);
    assert!(!BulletPhysicsSystem::step(&flight(-1, 1), &mut position));
    assert_eq!((position.x(), position.y()), (-10, 120));
    let mut position = PositionComponent::new(109, -19);
    assert!(!BulletPhysicsSystem::step(&flight(1, -1), &mut position));
    assert_eq!((position.x(), position.y()), (110, -20));
}

#[test]
fn each_of_the_four_bounds_ends_the_projectile() {
    let cases = [
        (PositionComponent::new(-10, 50), flight(-1, 0), (-11, 50)),
        (PositionComponent::new(110, 50), flight(1, 0), (111, 50)),
        (PositionComponent::new(50, -20), flight(0, -1), (50, -21)),
        (PositionComponent::new(50, 120), flight(0, 1), (50, 121)),
    ];
    for k in 0..cases.len() {
        let (mut position, bullet, after) = cases[k];
        assert!(BulletPhysicsSystem::step(&bullet, &mut position));
        assert_eq!((position.x(), position.y()), after);
    }
}

#[test]
fn the_last_position_is_cut_to_what_a_coordinate_holds() {
    let mut position = PositionComponent::new(i32::MAX, i32::MIN);
    assert!(BulletPhysicsSystem::step(&flight(5, -5), &mut position));
    assert_eq!((position.x(), position.y()), (i32::MAX, i32::MIN));
    assert_eq!((position.previous_x(), position.previous_y()), (i32::MAX, i32::MIN));
}

#[test]
fn run_moves_all_projectiles_and_names_those_that_left() {
    let mut entities = Entities::new();
    let mut names: Vec<Entity> = Vec::new();
    for _ in 0..5 {
        names.push(entities.create());
    }
    entities.destroy(names[4]).unwrap();
    let mut bullets: Storage<BulletPhysicsComponent> = Storage::new();
    let mut positions: Storage<PositionComponent> = Storage::new();
    // slot 0 stays, slot 1 leaves at the top, slot 2 has no physics, slot 3 leaves at the right,
    // slot 4 is dead
    bullets.insert(0, flight(0, -5));
    positions.insert(0, PositionComponent::new(50, 50));
    bullets.insert(1, flight(0, -5));
    positions.insert(1, PositionComponent::new(50, -18));
    positions.insert(2, PositionComponent::new(1, 2));
    bullets.insert(3, flight(7, 0));
    positions.insert(3, PositionComponent::new(105, 0));
    bullets.insert(4, flight(7, 0));
    positions.insert(4, PositionComponent::new(105, 0));

    let mut commands = Commands::new();
    BulletPhysicsSystem.run(&entities, &mut commands, &bullets, &mut positions);

    assert_eq!(commands.deletions, vec![names[1], names[3]]);
    assert!(commands.creations.is_empty());
    assert_eq!(positions.get(0).unwrap().y(), 45);
    assert_eq!(positions.get(1).unwrap().y(), -23);
    assert_eq!(positions.get(1).unwrap().previous_y(), -18);
    assert_eq!(*positions.get(2).unwrap(), PositionComponent::new(1, 2));
    assert_eq!(positions.get(3).unwrap().x(), 112);
    assert_eq!(*positions.get(4).unwrap(), PositionComponent::new(105, 0));
}
