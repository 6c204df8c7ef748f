use deimos::component::position::PositionComponent;
use deimos::component::sprite::SpriteComponent;
use deimos::resource::timing::Timing;
use deimos::sprite::{Rect, Sprite, SpriteDescription, SpriteManager};
use deimos::store::entity::Entities;
use deimos::store::storage::Storage;
use deimos::system::render::{destination, interpolation, DrawCommand, Layer, RenderSystem};
use deimos::units::ALPHA_ONE;

fn moved(from: (i32, i32), to: (i32, i32)) -> PositionComponent {
    let mut p = PositionComponent::new(from.0, from.1);
    p.update_x(to.0);
    p.update_y(to.1);
    p
}

fn sheet(frames: usize, width: usize, height: usize) -> SpriteDescription {
    SpriteDescription { number_of_frames: frames, border_left: 3, border_up: 3, frame_dimensions: (width, height) }
}

#[test]
fn alpha_is_the_part_of_the_tick_that_has_passed() {
    let timing = Timing { physics_tick: 1000, next_vsync: None, delta_time: 100 };
    assert_eq!(interpolation(&timing, 1000), 0);
    assert_eq!(interpolation(&timing, 1025), ALPHA_ONE / 4);
    assert_eq!(interpolation(&timing, 1050), ALPHA_ONE / 2);
    assert_eq!(interpolation(&timing, 1033), 21626);
    assert_eq!(interpolation(&timing, 1099), 64880);
    assert_eq!(interpolation(&timing, 1100), ALPHA_ONE);
}

#[test]
fn alpha_is_clamped_when_the_clock_overruns() {
    let timing = Timing { physics_tick: 1000, next_vsync: None, delta_time: 100 };
    assert_eq!(interpolation(&timing, 1101), ALPHA_ONE);
    assert_eq!(interpolation(&timing, 1_000_000), ALPHA_ONE);
    assert_eq!(interpolation(&timing, u64::MAX), ALPHA_ONE);
    assert_eq!(interpolation(&timing, 999), 0);
    assert_eq!(interpolation(&timing, 0), 0);
}

#[test]
fn alpha_with_the_longest_tick() {
    let timing = Timing { physics_tick: 0, next_vsync: None, delta_time: u64::MAX };
    assert_eq!(interpolation(&timing, u64::MAX - 1), ALPHA_ONE - 1);
    assert_eq!(interpolation(&timing, u64::MAX), ALPHA_ONE);
    assert_eq!(interpolation(&timing, u64::MAX / 2), ALPHA_ONE / 2 - 1);
}

#[test]
fn alpha_without_a_tick_duration_is_one() {
    let timing = Timing { physics_tick: 1000, next_vsync: None, delta_time: 0 };
    assert_eq!(interpolation(&timing, 0), ALPHA_ONE);
    assert_eq!(interpolation(&timing, 1000), ALPHA_ONE);
    assert_eq!(interpolation(&timing, 2000), ALPHA_ONE);
}

#[test]
fn alpha_after_a_stall_goes_by_the_expected_time() {
    let timing = Timing { physics_tick: 1000, next_vsync: Some(1025), delta_time: 100 };
    assert_eq!(interpolation(&timing, 0), ALPHA_ONE / 4);
    assert_eq!(interpolation(&timing, 5000), ALPHA_ONE / 4);
}

#[test]
fn destination_is_centred_on_the_interpolated_position() {
    let position = moved((100_000, 200_000), (110_000, 200_000));
    assert_eq!(
        destination(&position, (53, 43), 100, ALPHA_ONE / 2),
        Rect { x: 157, y: 357, width: 106, height: 86 }
    );
    assert_eq!(destination(&position, (53, 43), 100, 0), Rect { x: 147, y: 357, width: 106, height: 86 });
    assert_eq!(
        destination(&position, (53, 43), 100, ALPHA_ONE),
        Rect { x: 167, y: 357, width: 106, height: 86 }
    );
    assert_eq!(
        destination(&position, (53, 43), 100, u32::MAX),
        Rect { x: 167, y: 357, width: 106, height: 86 }
    );
}

#[test]
fn destination_scales_with_the_sprite() {
    let position = PositionComponent::new(50_000, 50_000);
    assert_eq!(destination(&position, (10, 20), 120, 0), Rect { x: 88, y: 76, width: 24, height: 48 });
    assert_eq!(destination(&position, (10, 20), 50, 0), Rect { x: 95, y: 90, width: 10, height: 20 });
    assert_eq!(destination(&position, (10, 20), 0, 0), Rect { x: 100, y: 100, width: 0, height: 0 });
}

#[test]
fn destination_rounds_to_the_nearest_pixel() {
    // one pixel at natural size reaches half a pixel to each side
    assert_eq!(destination(&PositionComponent::new(250, 749), (1, 1), 100, 0).x, -1);
    assert_eq!(destination(&PositionComponent::new(249, 749), (1, 1), 100, 0).x, -1);
    assert_eq!(destination(&PositionComponent::new(251, 749), (1, 1), 100, 0).x, 0);
    assert_eq!(destination(&PositionComponent::new(250, 749), (1, 1), 100, 0).y, 0);
    assert_eq!(destination(&PositionComponent::new(250, 750), (1, 1), 100, 0).y, 1);
    assert_eq!(destination(&PositionComponent::new(250, 750), (1, 1), 125, 0).width, 3);
    assert_eq!(destination(&PositionComponent::new(250, 750), (1, 1), 124, 0).width, 2);
}

#[test]
fn destination_at_the_ends_of_the_range() {
    let far = PositionComponent::new(i32::MAX, i32::MIN);
    let r = destination(&far, (usize::MAX, 0), u32::MAX, 0);
    assert_eq!(r.x, i32::MIN);
    assert_eq!(r.width, u32::MAX);
    assert_eq!(r.y, -4_294_967);
    assert_eq!(r.height, 0);
    let r = destination(&far, (0, 0), 100, 0);
    assert_eq!((r.x, r.y), (4_294_967, -4_294_967));
    let r = destination(&far, (0, usize::MAX), u32::MAX, 0);
    assert_eq!((r.y, r.height), (i32::MIN, u32::MAX));
}

#[test]
fn a_frame_is_drawn_layer_by_layer() {
    let mut catalog: SpriteManager<&str> = SpriteManager::new();
    let ship = catalog.insert(Sprite::from_gif(sheet(7, 53, 43), "ship", 392, 46).unwrap());
    let shot = catalog.insert(Sprite::from_gif(sheet(2, 20, 20), "shot", 46, 23).unwrap());
    let mut unknown_catalog: SpriteManager<&str> = SpriteManager::new();
    unknown_catalog.insert(Sprite::from_gif(sheet(1, 1, 1), "a", 10, 10).unwrap());
    unknown_catalog.insert(Sprite::from_gif(sheet(1, 1, 1), "b", 10, 10).unwrap());
    let unknown = unknown_catalog.insert(Sprite::from_gif(sheet(1, 1, 1), "c", 10, 10).unwrap());
    let system = RenderSystem::new(catalog);
    assert_eq!(*system.sprites().get(ship).texture(), "ship");

    let mut entities = Entities::new();
    for _ in 0..7 {
        entities.create();
    }
    let gone = entities.entity_at(6).unwrap();
    entities.destroy(gone).unwrap();
    let mut sprites: Storage<SpriteComponent> = Storage::new();
    let mut positions: Storage<PositionComponent> = Storage::new();
    // slot 0: the ship, slot 1: a shot, slot 2: a sprite without position, slot 3: a shot,
    // slot 4: a sprite that the catalog does not know, slot 5: a position without sprite,
    // slot 6: a shot whose entity is gone
    let mut banking = SpriteComponent::new(ship, Layer::AirUnits);
    banking.current_frame_idx = 5;
    sprites.insert(0, banking);
    positions.insert(0, moved((100_000, 200_000), (110_000, 200_000)));
    sprites.insert(1, SpriteComponent::new(shot, Layer::Effects));
    positions.insert(1, PositionComponent::new(50_000, 50_000));
    sprites.insert(2, SpriteComponent::new(shot, Layer::Effects));
    let mut second = SpriteComponent::new(shot, Layer::Effects).with_scale_factor(50);
    second.current_frame_idx = 2;
    sprites.insert(3, second);
    positions.insert(3, PositionComponent::new(10_000, 10_000));
    sprites.insert(4, SpriteComponent::new(unknown, Layer::Effects));
    positions.insert(4, PositionComponent::new(0, 0));
    positions.insert(5, PositionComponent::new(0, 0));
    sprites.insert(6, SpriteComponent::new(shot, Layer::Effects));
    positions.insert(6, PositionComponent::new(0, 0));

    let timing = Timing { physics_tick: 1000, next_vsync: None, delta_time: 100 };
    let first_shot = DrawCommand {
        sprite: shot,
        source: Some(Rect { x: 3, y: 3, width: 20, height: 20 }),
        destination: Rect { x: 80, y: 80, width: 40, height: 40 },
    };
    let second_shot =
        DrawCommand { sprite: shot, source: None, destination: Rect { x: 10, y: 10, width: 20, height: 20 } };
    let the_ship = DrawCommand {
        sprite: ship,
        source: Some(Rect { x: 283, y: 3, width: 53, height: 43 }),
        destination: Rect { x: 157, y: 357, width: 106, height: 86 },
    };
    assert_eq!(system.run(&entities, &sprites, &positions, &timing, 1050), vec![first_shot, second_shot, the_ship]);
    assert_eq!(
        system.render_layer(&entities, &sprites, &positions, ALPHA_ONE / 2, Layer::Effects),
        vec![first_shot, second_shot]
    );
    assert_eq!(
        system.render_layer(&entities, &sprites, &positions, ALPHA_ONE / 2, Layer::AirUnits),
        vec![the_ship]
    );
    let late = system.run(&entities, &sprites, &positions, &timing, 9999);
    assert_eq!(late[2].destination, Rect { x: 167, y: 357, width: 106, height: 86 });
}

#[test]
fn an_empty_world_draws_nothing() {
    let system: RenderSystem<()> = RenderSystem::new(SpriteManager::new());
    let entities = Entities::new();
    let sprites: Storage<SpriteComponent> = Storage::new();
    let positions: Storage<PositionComponent> = Storage::new();
    assert!(system.run(&entities, &sprites, &positions, &Timing::default(), 5).is_empty());
}
