//! What the renderer is told to draw.
//!
//! The system reads the world and the clock and writes the list of sprites
//! to draw, in the order of drawing. Drawing itself is left to the caller.

use crate::component::position::{PositionComponent, PositionView};
use crate::component::sprite::SpriteComponent;
use crate::resource::timing::Timing;
use crate::sprite::{frame_rect, pixel_length_spec, Rect, Sprite, SpriteDescription, SpriteId, SpriteManager};
use crate::store::entity::{occupied, Entities, Slot};
use crate::store::storage::Storage;
use crate::units::{clamp, lerp, lerp_spec, ALPHA_ONE, UNITS_PER_PIXEL};
use crate::WINDOW_SCALE;
use vstd::prelude::*;

verus! {

/// Render layer.
///
/// Sprites are drawn layer by layer, the layer named first at the back.
#[derive(Clone, Copy, Debug, PartialEq, Eq, Structural)]
pub enum Layer {
    /// Explosions, bullets, etc.
    Effects,
    /// Player unit, air enemies
    AirUnits,
}

/// One sprite to draw: the part of the sprite's texture to take, or nothing
/// for the whole texture, and the rectangle of the window to draw it into.
#[derive(Clone, Copy, Debug, PartialEq, Eq)]
pub struct DrawCommand {
    pub sprite: SpriteId,
    pub source: Option<Rect>,
    pub destination: Rect,
}

/// How far the time of drawing lies between the last tick and the next, in
/// parts of [`ALPHA_ONE`]: nothing at the time of the last tick or before,
/// [`ALPHA_ONE`] one tick duration later or after, and in proportion in
/// between. Without a tick duration it is [`ALPHA_ONE`].
pub open spec fn interpolation_spec(timing: Timing, now: u64) -> int {
    let elapsed = clamp(timing.interp_time_spec(now) - timing.physics_tick, 0, u64::MAX as int);
    if timing.delta_time == 0 || elapsed >= timing.delta_time {
        ALPHA_ONE as int
    } else {
        (elapsed * ALPHA_ONE) / (timing.delta_time as int)
    }
}

/// The interpolation factor for a frame drawn at `now`.
pub fn interpolation(timing: &Timing, now: u64) -> (alpha: u32)
    ensures
        alpha as int == interpolation_spec(*timing, now),
        alpha <= ALPHA_ONE,
{
    let interp_time = timing.interp_time(now);
    let elapsed: u64 = if interp_time > timing.physics_tick {
        interp_time - timing.physics_tick
    } else {
        0
    };
    if timing.delta_time == 0 || elapsed >= timing.delta_time {
        ALPHA_ONE
    } else {
        let one: u128 = ALPHA_ONE as u128;
        let delta: u128 = timing.delta_time as u128;
        assert(0 <= elapsed * one < delta * one && delta * one <= 0xffff_ffff_ffff_ffff * 65536)
            by (nonlinear_arith)
            requires
                0 <= elapsed < delta <= 0xffff_ffff_ffff_ffff,
                one == 65536,
        ;
        let scaled: u128 = elapsed as u128 * one / delta;
        assert(scaled < one) by (nonlinear_arith)
            requires
                scaled == (elapsed * one) / (delta as int),
                0 <= elapsed * one < delta * one,
                delta > 0,
        ;
        scaled as u32
    }
}

/// `n` divided by `d`, rounded to the nearest whole number, halves away
/// from zero.
pub open spec fn round_div_spec(n: int, d: int) -> int {
    if n >= 0 {
        (2 * n + d) / (2 * d)
    } else {
        -((2 * (-n) + d) / (2 * d))
    }
}

/// `n` divided by `d`, rounded to the nearest whole number.
fn round_div(n: i128, d: i128) -> (r: i128)
    requires
        0 < d <= 0x1_0000_0000,
        -0x1_0000_0000_0000_0000_0000 <= n <= 0x1_0000_0000_0000_0000_0000,
    ensures
        r == round_div_spec(n as int, d as int),
{
    if n >= 0 {
        let r = (2 * n + d) / (2 * d);
        assert(0 <= r <= n + 1) by (nonlinear_arith)
            requires
                r == (2 * n + d) / ((2 * d) as int),
                n >= 0,
                d > 0,
        ;
        r
    } else {
        let m = -n;
        let r = (2 * m + d) / (2 * d);
        assert(0 <= r <= m + 1) by (nonlinear_arith)
            requires
                r == (2 * m + d) / ((2 * d) as int),
                m >= 0,
                d > 0,
        ;
        -r
    }
}

/// The extent in units of `length` pixels of a sprite drawn at `scale`
/// percent.
pub open spec fn scaled_extent(length: usize, scale: u32) -> int {
    pixel_length_spec(length) * scale * (UNITS_PER_PIXEL / 100)
}

/// The rectangle of the window that a sprite is drawn into: the sprite is
/// centred on its position, which lies `alpha` parts of [`ALPHA_ONE`] of the
/// way from the previous position to the current one, and it has the size
/// of a frame at its scale. Units become window pixels by rounding to the
/// nearest, and what the rectangle cannot hold is cut off at the ends of
/// its range.
pub open spec fn destination_spec(
    position: PositionView,
    frame_dimensions: (usize, usize),
    scale_factor: u32,
    alpha: int,
) -> Rect {
    let x = lerp_spec(position.previous_x, position.x, alpha);
    let y = lerp_spec(position.previous_y, position.y, alpha);
    let width = scaled_extent(frame_dimensions.0, scale_factor);
    let height = scaled_extent(frame_dimensions.1, scale_factor);
    Rect {
        x: clamp(
            round_div_spec((x - width / 2) * WINDOW_SCALE, UNITS_PER_PIXEL as int),
            i32::MIN as int,
            i32::MAX as int,
        ) as i32,
        y: clamp(
            round_div_spec((y - height / 2) * WINDOW_SCALE, UNITS_PER_PIXEL as int),
            i32::MIN as int,
            i32::MAX as int,
        ) as i32,
        width: clamp(round_div_spec(width * WINDOW_SCALE, UNITS_PER_PIXEL as int), 0, u32::MAX as int) as u32,
        height: clamp(round_div_spec(height * WINDOW_SCALE, UNITS_PER_PIXEL as int), 0, u32::MAX as int) as u32,
    }
}

/// The extent in units of `length` pixels at `scale` percent.
fn extent(length: usize, scale: u32) -> (r: i128)
    ensures
        r == scaled_extent(length, scale),
        0 <= r <= 0xffff_ffff * 0xffff_ffff * 10,
        r % 2 == 0,
{
    let pixels: i128 = if length > u32::MAX as usize {
        u32::MAX as i128
    } else {
        length as i128
    };
    assert(0 <= pixels * scale <= 0xffff_ffff * 0xffff_ffff) by (nonlinear_arith)
        requires
            0 <= pixels <= 0xffff_ffff,
            0 <= scale <= 0xffff_ffff,
    ;
    let r = pixels * scale as i128 * (UNITS_PER_PIXEL / 100) as i128;
    assert(r == (pixels * scale * 5) * 2) by (nonlinear_arith)
        requires
            r == pixels * scale * 10,
    ;
    r
}

/// One edge of the destination: the window pixel of the coordinate `at`
/// moved back by half of `extent`.
fn window_edge(at: i32, extent: i128) -> (r: i32)
    requires
        0 <= extent <= 0xffff_ffff * 0xffff_ffff * 10,
    ensures
        r as int == clamp(
            round_div_spec((at - extent / 2) * WINDOW_SCALE, UNITS_PER_PIXEL as int),
            i32::MIN as int,
            i32::MAX as int,
        ),
{
    assert(WINDOW_SCALE == 2);
    let edge: i128 = (at as i128 - extent / 2) * WINDOW_SCALE as i128;
    let pixel = round_div(edge, UNITS_PER_PIXEL as i128);
    if pixel < i32::MIN as i128 {
        i32::MIN
    } else if pixel > i32::MAX as i128 {
        i32::MAX
    } else {
        pixel as i32
    }
}

/// One side of the destination: `extent` in window pixels.
fn window_side(extent: i128) -> (r: u32)
    requires
        0 <= extent <= 0xffff_ffff * 0xffff_ffff * 10,
    ensures
        r as int == clamp(round_div_spec(extent * WINDOW_SCALE, UNITS_PER_PIXEL as int), 0, u32::MAX as int),
{
    assert(WINDOW_SCALE == 2);
    let pixel = round_div(extent * WINDOW_SCALE as i128, UNITS_PER_PIXEL as i128);
    if pixel > u32::MAX as i128 {
        u32::MAX
    } else {
        pixel as u32
    }
}

/// The rectangle of the window that a sprite is drawn into.
pub fn destination(
    position: &PositionComponent,
    frame_dimensions: (usize, usize),
    scale_factor: u32,
    alpha: u32,
) -> (r: Rect)
    ensures
        r == destination_spec(position@, frame_dimensions, scale_factor, alpha as int),
{
    let x = lerp(position.previous_x(), position.x(), alpha);
    let y = lerp(position.previous_y(), position.y(), alpha);
    let width = extent(frame_dimensions.0, scale_factor);
    let height = extent(frame_dimensions.1, scale_factor);
    Rect {
        x: window_edge(x, width),
        y: window_edge(y, height),
        width: window_side(width),
        height: window_side(height),
    }
}

/// The command that draws an entity with the given sprite component and
/// position, whose sprite has the given description.
pub open spec fn command_for(
    sprite: SpriteComponent,
    position: PositionView,
    sheet: SpriteDescription,
    alpha: int,
) -> DrawCommand {
    DrawCommand {
        sprite: sprite.sprite,
        source: sheet.rect_of_frame(sprite.current_frame_idx as int),
        destination: destination_spec(position, sheet.frame_dimensions, sprite.scale_factor, alpha),
    }
}

/// Whether the entity in slot `i` is drawn in `layer`: a living entity with
/// a position and with a sprite that belongs to the layer and is known to
/// the catalog.
pub open spec fn drawn_at<T>(
    layer: Layer,
    entities: Seq<Slot>,
    sprite: Map<int, SpriteComponent>,
    position: Map<int, PositionComponent>,
    catalog: Seq<Sprite<T>>,
    i: int,
) -> bool {
    &&& occupied(entities, i)
    &&& sprite.contains_key(i)
    &&& position.contains_key(i)
    &&& sprite[i].layer == layer
    &&& sprite[i].sprite@ < catalog.len()
}

/// The commands that draw the entities of `layer` in the slots below `n`,
/// in the order of the slots.
pub open spec fn layer_upto<T>(
    layer: Layer,
    alpha: int,
    entities: Seq<Slot>,
    sprite: Map<int, SpriteComponent>,
    position: Map<int, PositionComponent>,
    catalog: Seq<Sprite<T>>,
    n: int,
) -> Seq<DrawCommand>
    decreases n,
{
    if n <= 0 {
        Seq::empty()
    } else if drawn_at(layer, entities, sprite, position, catalog, n - 1) {
        layer_upto(layer, alpha, entities, sprite, position, catalog, n - 1).push(
            command_for(
                sprite[n - 1],
                position[n - 1]@,
                catalog[sprite[n - 1].sprite@].spec_description(),
                alpha,
            ),
        )
    } else {
        layer_upto(layer, alpha, entities, sprite, position, catalog, n - 1)
    }
}

/// Tells what to draw for a frame. It owns the catalog of sprites.
pub struct RenderSystem<T> {
    sprites: SpriteManager<T>,
}

impl<T> RenderSystem<T> {
    /// The catalog of sprites.
    pub closed spec fn catalog(&self) -> Seq<Sprite<T>> {
        self.sprites@
    }

    /// A render system that draws with the sprites of `sprite_manager`.
    pub fn new(sprite_manager: SpriteManager<T>) -> (r: Self)
        ensures
            r.catalog() == sprite_manager@,
    {
        Self { sprites: sprite_manager }
    }

    /// The catalog of sprites, to find the texture of each command.
    pub fn sprites(&self) -> (r: &SpriteManager<T>)
        ensures
            r@ == self.catalog(),
    {
        &self.sprites
    }

    /// The commands that draw the entities of one layer at the
    /// interpolation factor `alpha`, in the order of their slots.
    pub fn render_layer(
        &self,
        entities: &Entities,
        sprite: &Storage<SpriteComponent>,
        position: &Storage<PositionComponent>,
        alpha: u32,
        layer: Layer,
    ) -> (r: Vec<DrawCommand>)
        ensures
            r@ == layer_upto(
                layer,
                alpha as int,
                entities@,
                sprite@,
                position@,
                self.catalog(),
                entities@.len() as int,
            ),
    {
        let mut commands: Vec<DrawCommand> = Vec::new();
        self.append_layer(&mut commands, entities, sprite, position, alpha, layer);
        commands
    }

    /// Adds the commands of one layer to `commands`.
    fn append_layer(
        &self,
        commands: &mut Vec<DrawCommand>,
        entities: &Entities,
        sprite: &Storage<SpriteComponent>,
        position: &Storage<PositionComponent>,
        alpha: u32,
        layer: Layer,
    )
        ensures
            final(commands)@ == old(commands)@ + layer_upto(
                layer,
                alpha as int,
                entities@,
                sprite@,
                position@,
                self.catalog(),
                entities@.len() as int,
            ),
    {
        let n = entities.slot_count();
        let mut slot: usize = 0;
        assert(old(commands)@ + Seq::<DrawCommand>::empty() =~= old(commands)@);
        while slot < n
            invariant
                slot <= n,
                n == entities@.len(),
                commands@ == old(commands)@ + layer_upto(
                    layer,
                    alpha as int,
                    entities@,
                    sprite@,
                    position@,
                    self.catalog(),
                    slot as int,
                ),
            decreases n - slot,
        {
            let ghost before = layer_upto(
                layer,
                alpha as int,
                entities@,
                sprite@,
                position@,
                self.catalog(),
                slot as int,
            );
            match (entities.entity_at(slot), sprite.get(slot), position.get(slot)) {
                (Some(_), Some(shown), Some(place)) => {
                    if shown.layer == layer {
                        match self.sprites.lookup(shown.sprite) {
                            Some(sprite_ref) => {
                                let sheet = sprite_ref.description();
                                let command = DrawCommand {
                                    sprite: shown.sprite,
                                    source: frame_rect(sheet, shown.current_frame_idx),
                                    destination: destination(
                                        place,
                                        sheet.frame_dimensions,
                                        shown.scale_factor,
                                        alpha,
                                    ),
                                };
                                commands.push(command);
                                assert(commands@ =~= old(commands)@ + before.push(command));
                            },
                            None => {},
                        }
                    }
                },
                _ => {},
            }
            slot += 1;
        }
    }

    /// The commands that draw a frame at the time `now`: first the effects,
    /// then the air units in front of them, each layer in the order of the
    /// slots, all at the interpolation factor of `now`.
    pub fn run(
        &self,
        entities: &Entities,
        sprite: &Storage<SpriteComponent>,
        position: &Storage<PositionComponent>,
        timing: &Timing,
        now: u64,
    ) -> (r: Vec<DrawCommand>)
        ensures
            r@ == layer_upto(
                Layer::Effects,
                interpolation_spec(*timing, now),
                entities@,
                sprite@,
                position@,
                self.catalog(),
                entities@.len() as int,
            ) + layer_upto(
                Layer::AirUnits,
                interpolation_spec(*timing, now),
                entities@,
                sprite@,
                position@,
                self.catalog(),
                entities@.len() as int,
            ),
    {
        let alpha = interpolation(timing, now);

        // Render effects
        let mut commands = self.render_layer(entities, sprite, position, alpha, Layer::Effects);

        // Render player, air enemies
        self.append_layer(&mut commands, entities, sprite, position, alpha, Layer::AirUnits);
        commands
    }
}

/// An interpolation factor never leaves the range from nothing to
/// [`ALPHA_ONE`], however late the frame is drawn: it is nothing up to the
/// time of the last tick and [`ALPHA_ONE`] from one tick duration after it.
pub proof fn lemma_interpolation_bounds(timing: Timing, now: u64)
    ensures
        0 <= interpolation_spec(timing, now) <= ALPHA_ONE,
        timing.delta_time > 0 && timing.interp_time_spec(now) <= timing.physics_tick ==> interpolation_spec(
            timing,
            now,
        ) == 0,
        timing.interp_time_spec(now) >= timing.physics_tick + timing.delta_time ==> interpolation_spec(
            timing,
            now,
        ) == ALPHA_ONE,
{
    let elapsed = clamp(timing.interp_time_spec(now) - timing.physics_tick, 0, u64::MAX as int);
    let delta = timing.delta_time as int;
    let one = ALPHA_ONE as int;
    if delta > 0 && elapsed < delta {
        assert(0 <= (elapsed * one) / delta < one) by (nonlinear_arith)
            requires
                0 <= elapsed < delta,
                one == 65536,
        ;
        assert(elapsed == 0 ==> (elapsed * one) / delta == 0) by (nonlinear_arith)
            requires
                delta > 0,
        ;
    }
}

} // verus!
