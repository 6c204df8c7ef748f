//! Firing of the player's weapons.

use crate::component::bullet_physics::BulletPhysicsComponent;
use crate::component::player_weapon::PlayerWeaponComponent;
use crate::component::position::{PositionComponent, PositionView};
use crate::component::sprite::SpriteComponent;
use crate::resource::player_input::PlayerInput;
use crate::resource::sound::AudioInterface;
use crate::sound::SoundId;
use crate::store::commands::{Bundle, Commands, Component};
use crate::store::entity::{occupied, Entities, Slot};
use crate::store::storage::Storage;
use crate::system::render::Layer;
use crate::units::{saturate, saturate_spec, UNITS_PER_PIXEL};
use crate::{GAME_HEIGHT, GAME_WIDTH};
use vstd::prelude::*;

verus! {

/// Vertical velocity of a projectile in units per tick: five pixels upwards.
pub const VY: i32 = -5000;

/// Horizontal distance of the two muzzles from the middle of the unit.
pub const POS_OFFSET: i32 = 4667;

/// Whether a weapon fires in a tick in which the fire intent is `fire`: it
/// does when its cooldown has run out and the intent is set.
pub open spec fn fires(fire: bool, weapon: PlayerWeaponComponent) -> bool {
    weapon.cooldown == 0 && fire
}

/// The weapon after a tick: a cooldown that is running counts down by one,
/// and a weapon that fires starts its cooldown anew.
pub open spec fn weapon_after(fire: bool, weapon: PlayerWeaponComponent) -> PlayerWeaponComponent {
    if weapon.cooldown > 0 {
        PlayerWeaponComponent { cooldown: (weapon.cooldown - 1) as u32, ..weapon }
    } else if fire {
        PlayerWeaponComponent { cooldown: weapon.cooldown_reset, ..weapon }
    } else {
        weapon
    }
}

/// The motion of a projectile of the given width and height in pixels: it
/// flies straight up, and it lives while its middle is no further outside
/// the play area than half its own size, so that it ends just after it has
/// left the screen.
pub open spec fn bullet_physics_of(dimensions: (u32, u32)) -> BulletPhysicsComponent {
    let half = UNITS_PER_PIXEL / 2;
    BulletPhysicsComponent {
        vx: 0,
        vy: VY,
        x_min: saturate_spec(-(dimensions.0 * half)) as i32,
        x_max: saturate_spec(GAME_WIDTH * UNITS_PER_PIXEL + dimensions.0 * half) as i32,
        y_min: saturate_spec(-(dimensions.1 * half)) as i32,
        y_max: saturate_spec(GAME_HEIGHT * UNITS_PER_PIXEL + dimensions.1 * half) as i32,
    }
}

/// The position of a projectile that leaves the muzzle `offset` units to the
/// side of an owner at `owner`: a reset position, at rest on the muzzle. The
/// muzzle lies at the owner's current height, `offset` units beside the
/// owner's current horizontal coordinate, and the previous position of the
/// projectile is the muzzle too, whatever the owner's was.
pub open spec fn muzzle_position(owner: PositionView, offset: int) -> PositionView {
    owner.reset_x(saturate_spec(owner.x + offset)).reset_y(owner.y)
}

/// A projectile does not slide in: on its muzzle the previous position is
/// the current one, in both coordinates, wherever the owner came from.
pub proof fn lemma_muzzle_at_rest(owner: PositionView, offset: int)
    ensures
        muzzle_position(owner, offset).x == saturate_spec(owner.x + offset),
        muzzle_position(owner, offset).y == owner.y,
        muzzle_position(owner, offset).previous_x == muzzle_position(owner, offset).x,
        muzzle_position(owner, offset).previous_y == muzzle_position(owner, offset).y,
{
}

/// The components of a projectile fired by `weapon` from the muzzle
/// `offset` units to the side of an owner at `owner`.
pub open spec fn bullet_bundle(weapon: PlayerWeaponComponent, owner: PositionView, offset: int) -> Bundle {
    Bundle {
        sprite: Some(
            SpriteComponent {
                sprite: weapon.bullet_sprite,
                layer: Layer::Effects,
                current_frame_idx: 0,
                scale_factor: 100,
            },
        ),
        position: Some(PositionComponent::from_view(muzzle_position(owner, offset))),
        bullet_physics: Some(bullet_physics_of(weapon.bullet_dimensions)),
        ..Bundle::empty()
    }
}

/// Whether an armed entity lives in slot `i`: an entity with a weapon and a
/// position.
pub open spec fn armed_at(
    entities: Seq<Slot>,
    weapon: Map<int, PlayerWeaponComponent>,
    position: Map<int, PositionComponent>,
    i: int,
) -> bool {
    occupied(entities, i) && weapon.contains_key(i) && position.contains_key(i)
}

/// Whether an armed entity lives in slot `i` and fires.
pub open spec fn fires_at(
    fire: bool,
    entities: Seq<Slot>,
    weapon: Map<int, PlayerWeaponComponent>,
    position: Map<int, PositionComponent>,
    i: int,
) -> bool {
    armed_at(entities, weapon, position, i) && fires(fire, weapon[i])
}

/// The projectiles that the armed entities in the slots below `n` fire, in
/// the order of the slots: for each that fires, the one from the left
/// muzzle and then the one from the right.
pub open spec fn shots_upto(
    fire: bool,
    entities: Seq<Slot>,
    weapon: Map<int, PlayerWeaponComponent>,
    position: Map<int, PositionComponent>,
    n: int,
) -> Seq<Bundle>
    decreases n,
{
    if n <= 0 {
        Seq::empty()
    } else if fires_at(fire, entities, weapon, position, n - 1) {
        shots_upto(fire, entities, weapon, position, n - 1).push(
            bullet_bundle(weapon[n - 1], position[n - 1]@, -POS_OFFSET),
        ).push(bullet_bundle(weapon[n - 1], position[n - 1]@, POS_OFFSET as int))
    } else {
        shots_upto(fire, entities, weapon, position, n - 1)
    }
}

/// The sounds of the shots that the armed entities in the slots below `n`
/// fire, in the order of the slots: one for each that fires.
pub open spec fn sounds_upto(
    fire: bool,
    entities: Seq<Slot>,
    weapon: Map<int, PlayerWeaponComponent>,
    position: Map<int, PositionComponent>,
    n: int,
) -> Seq<SoundId>
    decreases n,
{
    if n <= 0 {
        Seq::empty()
    } else if fires_at(fire, entities, weapon, position, n - 1) {
        sounds_upto(fire, entities, weapon, position, n - 1).push(weapon[n - 1].bullet_sound)
    } else {
        sounds_upto(fire, entities, weapon, position, n - 1)
    }
}

/// The weapons of all entities after a tick: that of every armed entity has
/// moved on.
pub open spec fn weapons_after_all(
    fire: bool,
    entities: Seq<Slot>,
    weapon: Map<int, PlayerWeaponComponent>,
    position: Map<int, PositionComponent>,
) -> Map<int, PlayerWeaponComponent> {
    Map::new(
        |i: int| weapon.contains_key(i),
        |i: int|
            if armed_at(entities, weapon, position, i) {
                weapon_after(fire, weapon[i])
            } else {
                weapon[i]
            },
    )
}

/// Every shot is two projectiles and one sound.
pub proof fn lemma_two_projectiles_a_shot(
    fire: bool,
    entities: Seq<Slot>,
    weapon: Map<int, PlayerWeaponComponent>,
    position: Map<int, PositionComponent>,
    n: int,
)
    ensures
        shots_upto(fire, entities, weapon, position, n).len() == 2 * sounds_upto(
            fire,
            entities,
            weapon,
            position,
            n,
        ).len(),
        !fire ==> shots_upto(fire, entities, weapon, position, n).len() == 0,
    decreases n,
{
    if n > 0 {
        lemma_two_projectiles_a_shot(fire, entities, weapon, position, n - 1);
    }
}

/// The shots of the slots below `m` come first among the shots of the
/// slots below any `n` from `m` on.
pub proof fn lemma_shots_in_order(
    fire: bool,
    entities: Seq<Slot>,
    weapon: Map<int, PlayerWeaponComponent>,
    position: Map<int, PositionComponent>,
    m: int,
    n: int,
)
    requires
        m <= n,
    ensures
        shots_upto(fire, entities, weapon, position, m).len() <= shots_upto(fire, entities, weapon, position, n).len(),
        forall|k: int|
            0 <= k < shots_upto(fire, entities, weapon, position, m).len() ==> #[trigger] shots_upto(
                fire,
                entities,
                weapon,
                position,
                n,
            )[k] == shots_upto(fire, entities, weapon, position, m)[k],
    decreases n - m,
{
    if m < n {
        lemma_shots_in_order(fire, entities, weapon, position, m, n - 1);
    }
}

/// Weapon firing. An armed entity that fires is answered with exactly two
/// projectiles, which stand side by side among the creations asked for:
/// first the one from the muzzle to the left of where the owner is, then
/// the one from the muzzle to the right, each at rest on its muzzle. An
/// entity that does not fire adds nothing.
pub proof fn lemma_shot_is_two_projectiles(
    fire: bool,
    entities: Seq<Slot>,
    weapon: Map<int, PlayerWeaponComponent>,
    position: Map<int, PositionComponent>,
    n: int,
    i: int,
)
    requires
        0 <= i < n,
    ensures
        ({
            let before = shots_upto(fire, entities, weapon, position, i);
            let all = shots_upto(fire, entities, weapon, position, n);
            let until = shots_upto(fire, entities, weapon, position, i + 1);
            if fires_at(fire, entities, weapon, position, i) {
                &&& until.len() == before.len() + 2
                &&& until.len() <= all.len()
                &&& all[before.len() as int] == bullet_bundle(weapon[i], position[i]@, -POS_OFFSET)
                &&& all[before.len() as int + 1] == bullet_bundle(weapon[i], position[i]@, POS_OFFSET as int)
            } else {
                until == before
            }
        }),
{
    lemma_shots_in_order(fire, entities, weapon, position, i + 1, n);
    let before = shots_upto(fire, entities, weapon, position, i);
    let until = shots_upto(fire, entities, weapon, position, i + 1);
    if fires_at(fire, entities, weapon, position, i) {
        assert(until[before.len() as int] == bullet_bundle(weapon[i], position[i]@, -POS_OFFSET));
        assert(until[before.len() as int + 1] == bullet_bundle(weapon[i], position[i]@, POS_OFFSET as int));
    }
}

/// The weapon after the ticks whose fire intents are `fire`, in order.
pub open spec fn weapon_after_ticks(fire: Seq<bool>, weapon: PlayerWeaponComponent) -> PlayerWeaponComponent
    decreases fire.len(),
{
    if fire.len() == 0 {
        weapon
    } else {
        weapon_after(fire.last(), weapon_after_ticks(fire.drop_last(), weapon))
    }
}

/// A weapon whose cooldown stands at `c` cannot fire in the next `c` ticks,
/// whatever the fire intent is: in the `k`-th of them its cooldown still
/// stands at `c - k`. In the tick after those its cooldown has run out, and
/// it fires if the intent is set.
pub proof fn lemma_cooldown_blocks_fire(fire: Seq<bool>, weapon: PlayerWeaponComponent, k: int)
    requires
        0 <= k <= weapon.cooldown,
        k <= fire.len(),
    ensures
        weapon_after_ticks(fire.take(k), weapon) == (PlayerWeaponComponent {
            cooldown: (weapon.cooldown - k) as u32,
            ..weapon
        }),
        k < weapon.cooldown ==> forall|intent: bool| !fires(intent, weapon_after_ticks(fire.take(k), weapon)),
        k == weapon.cooldown ==> fires(true, weapon_after_ticks(fire.take(k), weapon)),
    decreases k,
{
    if k > 0 {
        lemma_cooldown_blocks_fire(fire, weapon, k - 1);
        assert(fire.take(k).drop_last() == fire.take(k - 1));
    } else {
        assert(fire.take(0).len() == 0);
    }
}

/// Lets the armed entities fire: counts their cooldowns down, and for each
/// that fires asks for two projectiles and for the sound of the shot.
pub struct PlayerWeaponSystem;

impl PlayerWeaponSystem {
    /// The motion of a projectile of the given width and height in pixels.
    fn bullet_physics(dimensions: (u32, u32)) -> (r: BulletPhysicsComponent)
        ensures
            r == bullet_physics_of(dimensions),
    {
        let half: i64 = (UNITS_PER_PIXEL / 2) as i64;
        let unit: i64 = UNITS_PER_PIXEL as i64;
        let half_width: i64 = dimensions.0 as i64 * half;
        let half_height: i64 = dimensions.1 as i64 * half;
        BulletPhysicsComponent {
            vx: 0,
            vy: VY,
            x_min: saturate(-half_width),
            x_max: saturate(GAME_WIDTH as i64 * unit + half_width),
            y_min: saturate(-half_height),
            y_max: saturate(GAME_HEIGHT as i64 * unit + half_height),
        }
    }

    /// Asks for a projectile of `weapon` at `position`.
    fn spawn_bullet(commands: &mut Commands, position: PositionComponent, weapon: &PlayerWeaponComponent)
        ensures
            final(commands).creations@ == old(commands).creations@.push(
                Bundle {
                    sprite: Some(
                        SpriteComponent {
                            sprite: weapon.bullet_sprite,
                            layer: Layer::Effects,
                            current_frame_idx: 0,
                            scale_factor: 100,
                        },
                    ),
                    position: Some(position),
                    bullet_physics: Some(bullet_physics_of(weapon.bullet_dimensions)),
                    ..Bundle::empty()
                },
            ),
            final(commands).deletions@ == old(commands).deletions@,
    {
        commands.create(
            Bundle::new().with(Component::Sprite(SpriteComponent::new(weapon.bullet_sprite, Layer::Effects))).with(
                Component::Position(position),
            ).with(Component::BulletPhysics(Self::bullet_physics(weapon.bullet_dimensions))),
        );
    }

    /// One tick of one armed entity at `position`. Tells whether it fired;
    /// if it did, two projectiles are asked for, one from the muzzle to the
    /// left of the owner and then one from the muzzle to the right.
    pub fn step(
        fire: bool,
        weapon: &mut PlayerWeaponComponent,
        position: &PositionComponent,
        commands: &mut Commands,
    ) -> (fired: bool)
        ensures
            fired == fires(fire, *old(weapon)),
            *final(weapon) == weapon_after(fire, *old(weapon)),
            final(commands).deletions@ == old(commands).deletions@,
            final(commands).creations@ == if fired {
                old(commands).creations@.push(bullet_bundle(*old(weapon), position@, -POS_OFFSET)).push(
                    bullet_bundle(*old(weapon), position@, POS_OFFSET as int),
                )
            } else {
                old(commands).creations@
            },
    {
        if weapon.cooldown > 0 {
            weapon.cooldown -= 1;
            false
        } else if fire {
            weapon.cooldown = weapon.cooldown_reset;

            let mut position_bullet_left = *position;
            let left_x = saturate(position_bullet_left.x() as i64 - POS_OFFSET as i64);
            position_bullet_left.reset_x(left_x);
            position_bullet_left.reset_y(position.y());

            let mut position_bullet_right = *position;
            let right_x = saturate(position_bullet_right.x() as i64 + POS_OFFSET as i64);
            position_bullet_right.reset_x(right_x);
            position_bullet_right.reset_y(position.y());

            proof {
                position_bullet_left.lemma_view();
                position_bullet_right.lemma_view();
            }
            Self::spawn_bullet(commands, position_bullet_left, weapon);
            Self::spawn_bullet(commands, position_bullet_right, weapon);
            true
        } else {
            false
        }
    }

    /// One tick of all armed entities, in the order of their slots. Each
    /// shot adds its two projectiles to the creations asked for and its
    /// sound to the sounds asked for. Nothing else changes.
    pub fn run(
        &mut self,
        input: &PlayerInput,
        audio: &mut AudioInterface,
        entities: &Entities,
        commands: &mut Commands,
        weapon: &mut Storage<PlayerWeaponComponent>,
        position: &Storage<PositionComponent>,
    )
        ensures
            final(weapon)@ == weapons_after_all(input.fire, entities@, old(weapon)@, position@),
            final(commands).creations@ == old(commands).creations@ + shots_upto(
                input.fire,
                entities@,
                old(weapon)@,
                position@,
                entities@.len() as int,
            ),
            final(commands).deletions@ == old(commands).deletions@,
            final(audio)@ == old(audio)@ + sounds_upto(
                input.fire,
                entities@,
                old(weapon)@,
                position@,
                entities@.len() as int,
            ),
    {
        let n = entities.slot_count();
        let mut slot: usize = 0;
        assert(old(commands).creations@ + Seq::<Bundle>::empty() =~= old(commands).creations@);
        assert(old(audio)@ + Seq::<SoundId>::empty() =~= old(audio)@);
        while slot < n
            invariant
                slot <= n,
                n == entities@.len(),
                weapon@.dom() == old(weapon)@.dom(),
                forall|i: int| #[trigger]
                    old(weapon)@.contains_key(i) ==> weapon@[i] == if i < slot && armed_at(
                        entities@,
                        old(weapon)@,
                        position@,
                        i,
                    ) {
                        weapon_after(input.fire, old(weapon)@[i])
                    } else {
                        old(weapon)@[i]
                    },
                commands.creations@ == old(commands).creations@ + shots_upto(
                    input.fire,
                    entities@,
                    old(weapon)@,
                    position@,
                    slot as int,
                ),
                commands.deletions@ == old(commands).deletions@,
                audio@ == old(audio)@ + sounds_upto(input.fire, entities@, old(weapon)@, position@, slot as int),
            decreases n - slot,
        {
            let ghost weapon_before = weapon@;
            match (entities.entity_at(slot), weapon.get_mut(slot), position.get(slot)) {
                (Some(_), Some(unit_weapon), Some(unit_position)) => {
                    if Self::step(input.fire, unit_weapon, unit_position, commands) {
                        audio.play_sound(unit_weapon.bullet_sound);
                    }
                },
                _ => {},
            }
            proof {
                let shots = shots_upto(input.fire, entities@, old(weapon)@, position@, slot as int);
                let sounds = sounds_upto(input.fire, entities@, old(weapon)@, position@, slot as int);
                assert(weapon@.dom() =~= weapon_before.dom());
                if fires_at(input.fire, entities@, old(weapon)@, position@, slot as int) {
                    let w = old(weapon)@[slot as int];
                    let p = position@[slot as int]@;
                    assert(commands.creations@ =~= old(commands).creations@ + shots.push(
                        bullet_bundle(w, p, -POS_OFFSET),
                    ).push(bullet_bundle(w, p, POS_OFFSET as int)));
                    assert(audio@ =~= old(audio)@ + sounds.push(w.bullet_sound));
                }
            }
            slot += 1;
        }
        assert(weapon@ =~= weapons_after_all(input.fire, entities@, old(weapon)@, position@));
    }
}

} // verus!
