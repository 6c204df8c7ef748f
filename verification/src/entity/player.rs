//! The player's unit and the glow that follows it.

use crate::component::player_animation::{GlowAnimationState, PlayerAnimationComponent, PlayerAnimationState};
use crate::component::player_physics::PlayerPhysicsComponent;
use crate::component::player_weapon::PlayerWeaponComponent;
use crate::component::position::{PositionComponent, PositionView};
use crate::component::sprite::SpriteComponent;
use crate::component::track_position::TrackPositionComponent;
use crate::sound::SoundId;
use crate::sprite::{SpriteDescription, SpriteId};
use crate::store::commands::{Bundle, Component};
use crate::store::entity::{alive_in, fresh_in, Entity};
use crate::store::world::World;
use crate::system::render::Layer;
use crate::units::{saturate, saturate_spec, UNITS_PER_PIXEL};
use crate::{FRAME_RATE_GAME, GAME_HEIGHT, GAME_WIDTH};
use vstd::prelude::*;

verus! {

/// The greatest horizontal velocity of the unit, in units per tick.
pub const VX_MAX: i32 = 3349;

/// The greatest vertical velocity of the unit, in units per tick.
pub const VY_MAX: i32 = 3896;

/// The greatest horizontal acceleration of the unit, in units per tick and
/// tick.
pub const AX_MAX: i32 = 671;

/// The greatest vertical acceleration of the unit, in units per tick and
/// tick.
pub const AY_MAX: i32 = 779;

/// The distance in pixels that the edge of the unit keeps from the edge of
/// the play area.
pub const MARGIN: u32 = 25;

/// The ticks between two shots of the unit: a sixth of a second.
pub const COOLDOWN: u32 = FRAME_RATE_GAME / 6;

/// The scale of the glow in percent.
pub const GLOW_SCALE: u32 = 120;

/// The offset of the glow from the unit: six pixels above it.
pub const GLOW_OFFSET: (i32, i32) = (0, -6000);

/// The physics of a unit at rest whose sprite has frames of the given
/// size: it can move while the middle of its frame keeps at least
/// [`MARGIN`] and half a frame away from each edge of the play area.
pub open spec fn player_physics(frame_dimensions: (usize, usize)) -> PlayerPhysicsComponent {
    PlayerPhysicsComponent {
        ax: 0,
        ay: 0,
        vx: 0,
        vy: 0,
        ax_max: AX_MAX,
        ay_max: AY_MAX,
        vx_max: VX_MAX,
        vy_max: VY_MAX,
        x_min: saturate_spec((MARGIN + frame_dimensions.0 / 2) * UNITS_PER_PIXEL) as i32,
        x_max: saturate_spec((GAME_WIDTH - MARGIN - frame_dimensions.0 / 2) * UNITS_PER_PIXEL) as i32,
        y_min: saturate_spec((MARGIN + frame_dimensions.1 / 2) * UNITS_PER_PIXEL) as i32,
        y_max: saturate_spec((GAME_HEIGHT - MARGIN - frame_dimensions.1 / 2) * UNITS_PER_PIXEL) as i32,
    }
}

/// What the player's unit carries when it comes to life at `(x, y)`.
pub open spec fn player_bundle(
    sprite_id: SpriteId,
    sprite_desc: SpriteDescription,
    x: i32,
    y: i32,
    bullet_sprite_id: SpriteId,
    bullet_dimensions: (u32, u32),
    bullet_sound_id: SoundId,
) -> Bundle {
    Bundle {
        sprite: Some(
            SpriteComponent { sprite: sprite_id, layer: Layer::AirUnits, current_frame_idx: 0, scale_factor: 100 },
        ),
        position: Some(
            PositionComponent::from_view(
                PositionView { x: x as int, y: y as int, previous_x: x as int, previous_y: y as int },
            ),
        ),
        player_physics: Some(player_physics(sprite_desc.frame_dimensions)),
        player_animation: Some(
            PlayerAnimationComponent {
                animation_state: PlayerAnimationState::Neutral(0),
                weapon_glow_entity: None,
                glow_animation_state: GlowAnimationState::Off,
            },
        ),
        player_weapon: Some(
            PlayerWeaponComponent {
                cooldown_reset: COOLDOWN,
                cooldown: 0,
                bullet_sprite: bullet_sprite_id,
                bullet_dimensions,
                bullet_sound: bullet_sound_id,
            },
        ),
        ..Bundle::empty()
    }
}

/// What the glow of the unit `player` carries when it comes to life: it
/// follows the unit at [`GLOW_OFFSET`].
pub open spec fn glow_bundle(player: Entity, glow_sprite_id: SpriteId) -> Bundle {
    Bundle {
        sprite: Some(
            SpriteComponent {
                sprite: glow_sprite_id,
                layer: Layer::Effects,
                current_frame_idx: 0,
                scale_factor: GLOW_SCALE,
            },
        ),
        position: Some(PositionComponent::from_view(PositionView { x: 0, y: 0, previous_x: 0, previous_y: 0 })),
        track_position: Some(TrackPositionComponent { tracked_entity: player, offset: GLOW_OFFSET }),
        ..Bundle::empty()
    }
}

/// One bound of the unit's rectangle: `pixels` before or behind half a
/// frame of `frame` pixels, in units.
fn bound(pixels: u32, frame: usize, inner: bool) -> (r: i32)
    requires
        pixels <= GAME_WIDTH,
    ensures
        inner ==> r == saturate_spec((pixels + frame / 2) * UNITS_PER_PIXEL),
        !inner ==> r == saturate_spec((pixels - frame / 2) * UNITS_PER_PIXEL),
{
    let half = frame / 2;
    if half > i32::MAX as usize {
        assert((pixels + half) * UNITS_PER_PIXEL > i32::MAX && (pixels - half) * UNITS_PER_PIXEL < i32::MIN)
            by (nonlinear_arith)
            requires
                half > i32::MAX,
                0 <= pixels <= 640,
                UNITS_PER_PIXEL == 1000,
        ;
        if inner {
            i32::MAX
        } else {
            i32::MIN
        }
    } else if inner {
        saturate((pixels as i64 + half as i64) * UNITS_PER_PIXEL as i64)
    } else {
        saturate((pixels as i64 - half as i64) * UNITS_PER_PIXEL as i64)
    }
}

/// The player's unit.
pub struct Player;

impl Player {
    /// Brings the player's unit to life at `(x, y)`, and with it the glow
    /// that follows it. Returns the unit and the glow.
    #[allow(clippy::too_many_arguments)]
    pub fn create_player(
        world: &mut World,
        sprite_id: SpriteId,
        sprite_desc: &SpriteDescription,
        x: i32,
        y: i32,
        bullet_sprite_id: SpriteId,
        bullet_dimensions: (u32, u32),
        bullet_sound_id: SoundId,
        glow_sprite_id: SpriteId,
    ) -> (r: (Entity, Entity))
        requires
            old(world).wf(),
        ensures
            final(world).wf(),
            fresh_in(old(world).entities@, r.0),
            fresh_in(old(world).population().spawned(
                r.0,
                player_bundle(
                    sprite_id,
                    *sprite_desc,
                    x,
                    y,
                    bullet_sprite_id,
                    bullet_dimensions,
                    bullet_sound_id,
                ),
            ).slots, r.1),
            final(world).population() == old(world).population().spawned(
                r.0,
                player_bundle(
                    sprite_id,
                    *sprite_desc,
                    x,
                    y,
                    bullet_sprite_id,
                    bullet_dimensions,
                    bullet_sound_id,
                ),
            ).spawned(r.1, glow_bundle(r.0, glow_sprite_id)),
            alive_in(final(world).entities@, r.0),
            alive_in(final(world).entities@, r.1),
            r.0.index != r.1.index,
            final(world).same_context(old(world)),
    {
        let position = PositionComponent::new(x, y);
        let physics = PlayerPhysicsComponent {
            ax: 0,
            ay: 0,
            vx: 0,
            vy: 0,
            ax_max: AX_MAX,
            ay_max: AY_MAX,
            vx_max: VX_MAX,
            vy_max: VY_MAX,
            x_min: bound(MARGIN, sprite_desc.frame_dimensions.0, true),
            x_max: bound(GAME_WIDTH - MARGIN, sprite_desc.frame_dimensions.0, false),
            y_min: bound(MARGIN, sprite_desc.frame_dimensions.1, true),
            y_max: bound(GAME_HEIGHT - MARGIN, sprite_desc.frame_dimensions.1, false),
        };
        proof {
            position.lemma_view();
        }
        let player_entity = world.spawn(
            Bundle::new().with(Component::Sprite(SpriteComponent::new(sprite_id, Layer::AirUnits))).with(
                Component::Position(position),
            ).with(Component::PlayerPhysics(physics)).with(
                Component::PlayerAnimation(PlayerAnimationComponent::default()),
            ).with(
                Component::PlayerWeapon(
                    PlayerWeaponComponent::new(COOLDOWN, bullet_sprite_id, bullet_sound_id).with_bullet_dimensions(
                        bullet_dimensions,
                    ),
                ),
            ),
        );
        let glow_position = PositionComponent::new(0, 0);
        proof {
            glow_position.lemma_view();
        }
        let glow_entity = world.spawn(
            Bundle::new().with(
                Component::Sprite(SpriteComponent::new(glow_sprite_id, Layer::Effects).with_scale_factor(GLOW_SCALE)),
            ).with(Component::Position(glow_position)).with(
                Component::TrackPosition(
                    TrackPositionComponent { tracked_entity: player_entity, offset: GLOW_OFFSET },
                ),
            ),
        );
        proof {
            reveal(crate::store::world::Population::spawned);
        }
        (player_entity, glow_entity)
    }
}

} // verus!
