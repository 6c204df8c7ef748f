use deimos::component::player_physics::PlayerPhysicsComponent;
use deimos::component::position::PositionComponent;
use deimos::resource::player_input::PlayerInput;
use deimos::store::storage::Storage;
use deimos::system::player_movement::PlayerMovementSystem;

fn unit() -> PlayerPhysicsComponent {
    PlayerPhysicsComponent {
        ax: 0,
        ay: 0,
        vx: 0,
        vy: 0,
        ax_max: 10,
        ay_max: 4,
        vx_max: 25,
        vy_max: 6,
        x_min: 0,
        x_max: 100,
        y_min: -20,
        y_max: 20,
    }
}

fn held(left: bool, right: bool, up: bool, down: bool) -> PlayerInput {
    PlayerInput { left, right, up, down, fire: false }
}

#[test]
fn held_direction_gives_full_acceleration() {
    let mut physics = unit();
    let mut position = PositionComponent::new(50, 0);
    PlayerMovementSystem::step(&held(false, true, false, false), &mut physics, &mut position);
    assert_eq!((physics.ax, physics.vx, position.x(), position.previous_x()), (10, 10, 60, 50));
    assert_eq!((physics.ay, physics.vy, position.y(), position.previous_y()), (0, 0, 0, 0));

    let mut physics = unit();
    let mut position = PositionComponent::new(50, 0);
    PlayerMovementSystem::step(&held(true, false, false, false), &mut physics, &mut position);
    assert_eq!((physics.ax, physics.vx, position.x()), (-10, -10, 40));

    let mut physics = unit();
    let mut position = PositionComponent::new(50, 0);
    PlayerMovementSystem::step(&held(false, false, true, false), &mut physics, &mut position);
    assert_eq!((physics.ay, physics.vy, position.y()), (-4, -4, -4));

    let mut physics = unit();
    let mut position = PositionComponent::new(50, 0);
    PlayerMovementSystem::step(&held(false, false, false, true), &mut physics, &mut position);
    assert_eq!((physics.ay, physics.vy, position.y()), (4, 4, 4));
}

#[test]
fn left_wins_over_right_and_up_over_down() {
    let mut physics = unit();
    let mut position = PositionComponent::new(50, 0);
    PlayerMovementSystem::step(&held(true, true, true, true), &mut physics, &mut position);
    assert_eq!((physics.ax, physics.ay), (-10, -4));
}

#[test]
fn velocity_is_held_to_its_maximum() {
    let mut physics = unit();
    let mut position = PositionComponent::new(0, 0);
    let input = held(false, true, false, false);
    let expected_v = [10, 20, 25, 25];
    let expected_x = [10, 30, 55, 80];
    for k in 0..4 {
        PlayerMovementSystem::step(&input, &mut physics, &mut position);
        assert_eq!(physics.vx, expected_v[k]);
        assert_eq!(position.x(), expected_x[k]);
    }
}

#[test]
fn sustained_input_drives_the_unit_onto_the_bound() {
    let mut physics = unit();
    let mut position = PositionComponent::new(50, 0);
    let input = held(false, true, false, true);
    for _ in 0..200 {
        PlayerMovementSystem::step(&input, &mut physics, &mut position);
        assert!(position.x() <= 100 && position.y() <= 20);
    }
    assert_eq!((position.x(), position.y()), (100, 20));
    assert_eq!((position.previous_x(), position.previous_y()), (100, 20));
    assert_eq!((physics.vx, physics.vy), (25, 6));

    let input = held(true, false, true, false);
    for _ in 0..200 {
        PlayerMovementSystem::step(&input, &mut physics, &mut position);
        assert!(position.x() >= 0 && position.y() >= -20);
    }
    assert_eq!((position.x(), position.y()), (0, -20));
    assert_eq!((physics.vx, physics.vy), (-25, -6));
}

#[test]
fn the_bound_is_reached_within_the_counted_ticks() {
    let mut physics = unit();
    physics.vx = -25;
    let mut position = PositionComponent::new(0, 0);
    let input = held(false, true, false, false);
    let ticks = 2 * 25 + 1 + (100 - 0);
    for _ in 0..ticks {
        PlayerMovementSystem::step(&input, &mut physics, &mut position);
    }
    assert_eq!(position.x(), 100);
    assert_eq!(physics.vx, 25);
}

#[test]
fn braking_brings_the_unit_to_rest_without_overshoot() {
    let mut physics = unit();
    physics.vx = 25;
    physics.vy = -5;
    let mut position = PositionComponent::new(10, 0);
    let input = held(false, false, false, false);
    let expected = [(-10, 15, 4, -1), (-10, 5, 1, 0), (-5, 0, 0, 0), (0, 0, 0, 0)];
    for k in 0..4 {
        PlayerMovementSystem::step(&input, &mut physics, &mut position);
        assert_eq!((physics.ax, physics.vx, physics.ay, physics.vy), expected[k]);
    }
    assert_eq!(position.x(), 10 + 15 + 5);
    assert_eq!(position.y(), -1);
}

#[test]
fn a_unit_that_has_come_to_rest_stays_where_it_is() {
    let mut physics = unit();
    physics.vx = -25;
    physics.vy = 6;
    let mut position = PositionComponent::new(90, 0);
    let input = held(false, false, false, false);
    // three ticks of the greatest acceleration take all the velocity
    for _ in 0..3 {
        PlayerMovementSystem::step(&input, &mut physics, &mut position);
    }
    assert_eq!((physics.vx, physics.vy), (0, 0));
    let reached = (position.x(), position.y());
    assert_eq!(reached, (90 - 15 - 5, 2));
    for _ in 0..5 {
        PlayerMovementSystem::step(&input, &mut physics, &mut position);
        assert_eq!((physics.ax, physics.vx, physics.ay, physics.vy), (0, 0, 0, 0));
        assert_eq!((position.x(), position.y()), reached);
        assert_eq!((position.previous_x(), position.previous_y()), reached);
    }
}

#[test]
fn with_crossed_bounds_a_resting_unit_does_not_rest() {
    let mut physics = unit();
    physics.x_min = 100;
    physics.x_max = 0;
    let mut position = PositionComponent::new(50, 0);
    let input = held(false, false, false, false);
    PlayerMovementSystem::step(&input, &mut physics, &mut position);
    assert_eq!((physics.vx, position.x()), (0, 100));
    PlayerMovementSystem::step(&input, &mut physics, &mut position);
    assert_eq!((physics.vx, position.x()), (0, 0));
    PlayerMovementSystem::step(&input, &mut physics, &mut position);
    assert_eq!((physics.vx, position.x()), (0, 100));
}

#[test]
fn braking_from_negative_velocity() {
    let mut physics = unit();
    physics.vx = -7;
    let mut position = PositionComponent::new(50, 0);
    PlayerMovementSystem::step(&held(false, false, false, false), &mut physics, &mut position);
    assert_eq!((physics.ax, physics.vx, position.x()), (7, 0, 50));
}

#[test]
fn a_unit_at_rest_stays_at_rest() {
    let mut physics = unit();
    let mut position = PositionComponent::new(50, 5);
    PlayerMovementSystem::step(&held(false, false, false, false), &mut physics, &mut position);
    assert_eq!(physics, unit());
    assert_eq!((position.x(), position.previous_x(), position.y(), position.previous_y()), (50, 50, 5, 5));
}

#[test]
fn position_is_cut_at_the_bounds_silently() {
    let mut physics = unit();
    physics.vx = 25;
    let mut position = PositionComponent::new(95, 0);
    PlayerMovementSystem::step(&held(false, true, false, false), &mut physics, &mut position);
    assert_eq!((position.previous_x(), position.x()), (95, 100));
    assert_eq!(physics.vx, 25);

    let mut position = PositionComponent::new(-500, 300);
    let mut physics = unit();
    PlayerMovementSystem::step(&held(false, false, false, false), &mut physics, &mut position);
    assert_eq!((position.x(), position.y()), (0, 20));
}

#[test]
fn extreme_values_do_not_overflow() {
    let mut physics = PlayerPhysicsComponent {
        ax: 0,
        ay: 0,
        vx: i32::MAX,
        vy: i32::MIN,
        ax_max: i32::MAX,
        ay_max: i32::MIN,
        vx_max: i32::MAX,
        vy_max: i32::MIN,
        x_min: i32::MIN,
        x_max: i32::MAX,
        y_min: i32::MAX,
        y_max: i32::MIN,
    };
    let mut position = PositionComponent::new(i32::MAX, i32::MIN);
    PlayerMovementSystem::step(&held(false, true, true, false), &mut physics, &mut position);
    assert_eq!((physics.ax, physics.vx, position.x()), (i32::MAX, i32::MAX, i32::MAX));
    assert_eq!(physics.ay, i32::MAX);
    assert_eq!(position.y(), i32::MAX);
}

#[test]
fn run_moves_units_and_leaves_the_rest() {
    let mut physics: Storage<PlayerPhysicsComponent> = Storage::new();
    let mut position: Storage<PositionComponent> = Storage::new();
    physics.insert(1, unit());
    position.insert(1, PositionComponent::new(50, 0));
    physics.insert(2, unit());
    position.insert(3, PositionComponent::new(7, 8));
    PlayerMovementSystem.run(&held(false, true, false, false), &mut physics, &mut position);
    assert_eq!(physics.get(1).unwrap().vx, 10);
    assert_eq!(position.get(1).unwrap().x(), 60);
    assert_eq!(position.get(1).unwrap().previous_x(), 50);
    assert_eq!(*physics.get(2).unwrap(), unit());
    assert_eq!(*position.get(3).unwrap(), PositionComponent::new(7, 8));
    assert!(physics.get(3).is_none());
    assert!(position.get(2).is_none());
    assert!(position.get(0).is_none());
}
