//! One tick of the simulation: the systems in their order, then the
//! structural changes that they asked for.

use crate::component::position::PositionComponent;
use crate::errors::SystemError;
use crate::resource::timing::Timing;
use crate::sound::SoundId;
use crate::store::commands::{Bundle, ComponentKind};
use crate::store::entity::{alive_in, entity_in, lemma_retired_stays, retired_in, succeeds, Entity};
use crate::store::lifecycle::{lemma_applied, lemma_spawned_all, population_wf};
use crate::store::world::{
    lemma_join_members, lemma_kept_slots, Components, DeferredReport, Population, World,
};
use crate::system::bullet_physics::{
    culled_upto, flies_at, flown_all, leaves_area, lemma_culled_are_leaving, lemma_culled_exactly,
    BulletPhysicsSystem,
};
use crate::system::player_animation::{
    animated_all, animation_fault_upto, lemma_sprites_keep_slots, sprites_upto, PlayerAnimationSystem,
};
use crate::system::player_movement::{moved_physics_all, moved_position_all, PlayerMovementSystem};
use crate::system::player_weapon::{
    bullet_bundle, fires_at, lemma_shot_is_two_projectiles, muzzle_position, shots_upto, sounds_upto,
    weapons_after_all, PlayerWeaponSystem, POS_OFFSET,
};
use crate::system::track_position::{
    lemma_tracked_keeps_slots, track_fault_upto, tracked_upto, PositionTrackSystem,
};
use crate::units::saturate_spec;
use vstd::prelude::*;

verus! {

/// The state of a world between the systems of a tick: what the entities
/// carry, the structural changes asked for, and the sounds asked for.
pub struct Stage {
    pub components: Components,
    pub creations: Seq<Bundle>,
    pub deletions: Seq<Entity>,
    pub audio: Seq<SoundId>,
}

/// The world as the systems find it.
pub open spec fn stage_of(w: World) -> Stage {
    Stage {
        components: w.components(),
        creations: w.commands.creations@,
        deletions: w.commands.deletions@,
        audio: w.audio@,
    }
}

/// The stage after movement, weapons and projectiles had their tick, in
/// this order: the units have moved, the armed entities have fired from
/// where they moved to, and the projectiles have flown on.
pub open spec fn after_motion(w: World) -> Stage {
    let slots = w.entities@;
    let c = w.components();
    let n = slots.len() as int;
    let physics = moved_physics_all(w.player_input, c.player_physics, c.position);
    let moved = moved_position_all(w.player_input, c.player_physics, c.position);
    Stage {
        components: Components {
            player_physics: physics,
            player_weapon: weapons_after_all(w.player_input.fire, slots, c.player_weapon, moved),
            position: flown_all(slots, c.bullet_physics, moved),
            ..c
        },
        creations: w.commands.creations@ + shots_upto(w.player_input.fire, slots, c.player_weapon, moved, n),
        deletions: w.commands.deletions@ + culled_upto(slots, c.bullet_physics, moved, n),
        audio: w.audio@ + sounds_upto(w.player_input.fire, slots, c.player_weapon, moved, n),
    }
}

/// What is wrong with an animated unit, if anything, once the units have
/// moved.
pub open spec fn animation_fault(w: World) -> Option<SystemError> {
    let c = after_motion(w).components;
    animation_fault_upto(w.entities@, c.player_animation, c.player_physics, c.sprite, w.entities@.len() as int)
}

/// The stage after the animations had their tick as well.
pub open spec fn after_animation(w: World) -> Stage {
    let before = after_motion(w);
    let c = before.components;
    let n = w.entities@.len() as int;
    Stage {
        components: Components {
            player_animation: animated_all(w.entities@, c.player_animation, c.player_physics),
            sprite: sprites_upto(w.entities@, c.player_animation, c.player_physics, c.sprite, n),
            ..c
        },
        ..before
    }
}

/// What is wrong with a follower, if anything, once all else has moved.
pub open spec fn track_fault(w: World) -> Option<SystemError> {
    let c = after_animation(w).components;
    track_fault_upto(w.entities@, c.track_position, c.position, w.entities@.len() as int)
}

/// The stage after the followers have caught up as well: the end of the
/// systems of the tick.
pub open spec fn after_tracking(w: World) -> Stage {
    let before = after_animation(w);
    let c = before.components;
    Stage {
        components: Components {
            position: tracked_upto(w.entities@, c.track_position, c.position, w.entities@.len() as int),
            ..c
        },
        ..before
    }
}

/// The first fault that the systems of a tick meet, if any.
pub open spec fn tick_fault(w: World) -> Option<SystemError> {
    match animation_fault(w) {
        Some(fault) => Some(fault),
        None => track_fault(w),
    }
}

/// Where the entities are once the units have moved: what the weapons and
/// the projectiles of the tick see.
pub open spec fn moved_positions(w: World) -> Map<int, PositionComponent> {
    moved_position_all(w.player_input, w.components().player_physics, w.components().position)
}

/// The entities and what they carry at the end of the systems of a tick.
pub open spec fn staged_population(w: World) -> Population {
    Population { slots: w.entities@, components: after_tracking(w).components }
}

/// The entities and what they carry at the end of a tick in which the
/// entities asked for came to life under the names `created`.
pub open spec fn applied(w: World, created: Seq<Entity>) -> Population {
    staged_population(w).spawned_all(
        created,
        after_tracking(w).creations,
        after_tracking(w).creations.len() as int,
    ).destroyed_all(after_tracking(w).deletions, after_tracking(w).deletions.len() as int)
}

/// Whether the names `created` can be those of the entities that come to
/// life at the end of the tick: one for each creation asked for, each free
/// to name a new entity when its turn comes.
pub open spec fn can_name(w: World, created: Seq<Entity>) -> bool {
    &&& created.len() == after_tracking(w).creations.len()
    &&& staged_population(w).spawns_fresh(created, after_tracking(w).creations, created.len() as int)
}

/// Runs the systems of one tick on the world, in their order: movement,
/// weapons, projectiles, animation, position tracking. No entity comes to
/// life or ends yet. Before the animations run, and again before the
/// followers catch up, the world is looked through for a fault of that
/// system. A fault ends the tick: what the systems before did stands, and
/// the system at fault and those after it do not run.
pub fn run_systems(world: &mut World) -> (r: Result<(), SystemError>)
    requires
        old(world).wf(),
    ensures
        final(world).wf(),
        final(world).entities@ == old(world).entities@,
        final(world).player_input == old(world).player_input,
        final(world).timing == old(world).timing,
        r == match tick_fault(*old(world)) {
            Some(fault) => Err::<(), SystemError>(fault),
            None => Ok::<(), SystemError>(()),
        },
        stage_of(*final(world)) == if animation_fault(*old(world)).is_some() {
            after_motion(*old(world))
        } else if track_fault(*old(world)).is_some() {
            after_animation(*old(world))
        } else {
            after_tracking(*old(world))
        },
{
    let ghost before = old(world).components();
    let ghost slots = old(world).entities@;
    PlayerMovementSystem.run(&world.player_input, &mut world.player_physics, &mut world.position);
    PlayerWeaponSystem.run(
        &world.player_input,
        &mut world.audio,
        &world.entities,
        &mut world.commands,
        &mut world.player_weapon,
        &world.position,
    );
    BulletPhysicsSystem.run(&world.entities, &mut world.commands, &world.bullet_physics, &mut world.position);
    proof {
        let now = world.components();
        assert(now.position.dom() =~= before.position.dom());
        assert(now.player_physics.dom() =~= before.player_physics.dom());
        assert(now.player_weapon.dom() =~= before.player_weapon.dom());
        lemma_kept_slots(before, now, slots);
        assert(stage_of(*world) == after_motion(*old(world)));
    }
    let ghost moved = world.components();
    match PlayerAnimationSystem::check(
        &world.entities,
        &world.player_animation,
        &world.player_physics,
        &world.sprite,
    ) {
        Err(fault) => {
            return Err(fault);
        },
        Ok(()) => {},
    }
    PlayerAnimationSystem.run(
        &world.entities,
        &mut world.player_animation,
        &world.player_physics,
        &mut world.sprite,
    );
    proof {
        let now = world.components();
        lemma_sprites_keep_slots(
            slots,
            moved.player_animation,
            moved.player_physics,
            moved.sprite,
            slots.len() as int,
        );
        assert(now.player_animation.dom() =~= moved.player_animation.dom());
        lemma_kept_slots(moved, now, slots);
        assert(stage_of(*world) == after_animation(*old(world)));
    }
    let ghost animated = world.components();
    match PositionTrackSystem::check(&world.entities, &world.track_position, &world.position) {
        Err(fault) => {
            return Err(fault);
        },
        Ok(()) => {},
    }
    PositionTrackSystem.run(&world.entities, &world.track_position, &mut world.position);
    proof {
        let now = world.components();
        lemma_tracked_keeps_slots(slots, animated.track_position, animated.position, slots.len() as int);
        lemma_kept_slots(animated, now, slots);
        assert(stage_of(*world) == after_tracking(*old(world)));
    }
    Ok(())
}

/// One tick of the simulation, recorded under the time `tick_time`: the
/// systems run in their order, then the structural changes that were asked
/// for are carried out, creations before deletions, and then the time of
/// the tick is written down.
///
/// If a fault is found the tick ends with it, as [`run_systems`] says: no
/// structural change is carried out and the time is not written down.
pub fn tick(world: &mut World, tick_time: u64) -> (r: Result<DeferredReport, SystemError>)
    requires
        old(world).wf(),
    ensures
        final(world).wf(),
        final(world).player_input == old(world).player_input,
        match r {
            Err(fault) => {
                &&& tick_fault(*old(world)) == Some(fault)
                &&& final(world).entities@ == old(world).entities@
                &&& final(world).timing == old(world).timing
                &&& stage_of(*final(world)) == if animation_fault(*old(world)).is_some() {
                    after_motion(*old(world))
                } else {
                    after_animation(*old(world))
                }
            },
            Ok(report) => {
                let staged = after_tracking(*old(world));
                &&& tick_fault(*old(world)).is_none()
                &&& can_name(*old(world), report.created@)
                &&& final(world).population() == applied(*old(world), report.created@)
                &&& report.stale == staged_population(*old(world)).spawned_all(
                    report.created@,
                    staged.creations,
                    report.created@.len() as int,
                ).stale_upto(staged.deletions, staged.deletions.len() as int)
                &&& report.destroyed + report.stale == staged.deletions.len()
                &&& final(world).commands.creations@ == Seq::<Bundle>::empty()
                &&& final(world).commands.deletions@ == Seq::<Entity>::empty()
                &&& final(world).audio@ == staged.audio
                &&& final(world).timing == (Timing { physics_tick: tick_time, ..old(world).timing })
            },
        },
{
    match run_systems(world) {
        Err(fault) => Err(fault),
        Ok(()) => {
            let report = world.apply_deferred();
            world.timing.physics_tick = tick_time;
            Ok(report)
        },
    }
}

/// The systems of a tick leave every component with a living entity: the
/// population that the structural changes start from is consistent.
pub proof fn lemma_staged_population_wf(w: World)
    requires
        w.wf(),
        tick_fault(w).is_none(),
    ensures
        population_wf(staged_population(w)),
{
    let slots = w.entities@;
    let n = slots.len() as int;
    let c = w.components();
    let moved = after_motion(w).components;
    let animated = after_animation(w).components;
    let settled = after_tracking(w).components;
    w.entities.lemma_living_generations();
    assert(moved.position.dom() =~= c.position.dom());
    assert(moved.player_physics.dom() =~= c.player_physics.dom());
    assert(moved.player_weapon.dom() =~= c.player_weapon.dom());
    lemma_kept_slots(c, moved, slots);
    lemma_sprites_keep_slots(slots, moved.player_animation, moved.player_physics, moved.sprite, n);
    assert(animated.player_animation.dom() =~= moved.player_animation.dom());
    lemma_kept_slots(moved, animated, slots);
    lemma_tracked_keeps_slots(slots, animated.track_position, animated.position, n);
    lemma_kept_slots(animated, settled, slots);
}

/// Bullet culling. A projectile whose flight takes it beyond any one of the
/// four bounds of its alive rectangle is destroyed at the end of that very
/// tick, and its name is retired: whatever happens to the store afterwards,
/// the projectile is never alive again and appears in no join.
pub proof fn lemma_culled_bullet_is_gone(
    w: World,
    created: Seq<Entity>,
    i: int,
    later: World,
    kinds: Seq<ComponentKind>,
)
    requires
        w.wf(),
        tick_fault(w).is_none(),
        can_name(w, created),
        flies_at(w.entities@, w.components().bullet_physics, moved_positions(w), i),
        leaves_area(w.components().bullet_physics[i], moved_positions(w)[i]@),
        succeeds(applied(w, created).slots, later.entities@),
        later.entities@.len() <= usize::MAX,
    ensures
        alive_in(w.entities@, entity_in(w.entities@, i)),
        after_tracking(w).deletions.contains(entity_in(w.entities@, i)),
        !alive_in(applied(w, created).slots, entity_in(w.entities@, i)),
        retired_in(applied(w, created).slots, entity_in(w.entities@, i)),
        !alive_in(later.entities@, entity_in(w.entities@, i)),
        !later.join_upto(kinds, later.entities@.len() as int).contains(entity_in(w.entities@, i)),
{
    let slots = w.entities@;
    let n = slots.len() as int;
    let e = entity_in(slots, i);
    let staged = after_tracking(w);
    let culled = culled_upto(slots, w.components().bullet_physics, moved_positions(w), n);
    w.entities.lemma_slot_bound();
    lemma_culled_exactly(slots, w.components().bullet_physics, moved_positions(w), n, i);
    let j = choose|j: int| 0 <= j < culled.len() && culled[j] == e;
    let k: int = w.commands.deletions@.len() + j;
    assert(staged.deletions[k] == e);
    lemma_staged_population_wf(w);
    lemma_applied(staged_population(w), created, staged.creations, staged.deletions);
    assert(!alive_in(applied(w, created).slots, staged.deletions[k]));
    lemma_retired_stays(applied(w, created).slots, later.entities@, e);
    lemma_join_members(later, kinds, later.entities@.len() as int);
}

/// The place among the creations of a tick of the first of the two
/// projectiles that the armed entity in slot `i` fires: behind the
/// creations that waited in the queue and the projectiles of the slots
/// below `i`.
pub open spec fn place_of_shot(w: World, i: int) -> int {
    (w.commands.creations@.len() + shots_upto(
        w.player_input.fire,
        w.entities@,
        w.components().player_weapon,
        moved_positions(w),
        i,
    ).len()) as int
}

/// Weapon firing. When an armed entity fires, exactly two projectiles come
/// to life for it at the end of the tick, each an entity of its own that
/// was not alive before: one that carries what a projectile from the left
/// muzzle carries, at rest on that muzzle in both coordinates, and one
/// for the right muzzle; and the cooldown of the weapon stands at its reset
/// value. This holds unless a deletion that waited in the queue names the
/// very entity that a projectile becomes.
pub proof fn lemma_shot_comes_to_life(w: World, created: Seq<Entity>, i: int)
    requires
        w.wf(),
        tick_fault(w).is_none(),
        can_name(w, created),
        0 <= i < w.entities@.len(),
        fires_at(w.player_input.fire, w.entities@, w.components().player_weapon, moved_positions(w), i),
        !w.commands.deletions@.contains(created[place_of_shot(w, i)]),
        !w.commands.deletions@.contains(created[place_of_shot(w, i) + 1]),
    ensures
        ({
            let weapon = w.components().player_weapon[i];
            let owner = moved_positions(w)[i]@;
            let k = place_of_shot(w, i);
            let after = applied(w, created);
            &&& k + 1 < created.len()
            &&& created[k].index != created[k + 1].index
            &&& !alive_in(w.entities@, created[k]) && !alive_in(w.entities@, created[k + 1])
            &&& alive_in(after.slots, created[k]) && alive_in(after.slots, created[k + 1])
            &&& after.components.bundle_at(created[k].index as int) == bullet_bundle(weapon, owner, -POS_OFFSET)
            &&& after.components.bundle_at(created[k + 1].index as int) == bullet_bundle(
                weapon,
                owner,
                POS_OFFSET as int,
            )
            &&& ({
                let left = after.components.position[created[k].index as int]@;
                let right = after.components.position[created[k + 1].index as int]@;
                &&& left.x == saturate_spec(owner.x - POS_OFFSET) && left.previous_x == left.x
                &&& right.x == saturate_spec(owner.x + POS_OFFSET) && right.previous_x == right.x
                &&& left.y == owner.y && left.previous_y == owner.y
                &&& right.y == owner.y && right.previous_y == owner.y
            })
            &&& after_tracking(w).components.player_weapon[i].cooldown == weapon.cooldown_reset
        }),
{
    let slots = w.entities@;
    let n = slots.len() as int;
    let fire = w.player_input.fire;
    moved_positions(w)[i].lemma_view();
    PositionComponent::lemma_from_view(muzzle_position(moved_positions(w)[i]@, -POS_OFFSET));
    PositionComponent::lemma_from_view(muzzle_position(moved_positions(w)[i]@, POS_OFFSET as int));
    let weapons = w.components().player_weapon;
    let moved = moved_positions(w);
    let staged = after_tracking(w);
    let shots = shots_upto(fire, slots, weapons, moved, n);
    let before = shots_upto(fire, slots, weapons, moved, i);
    let k = place_of_shot(w, i);
    lemma_shot_is_two_projectiles(fire, slots, weapons, moved, n, i);
    assert(staged.creations[k] == shots[before.len() as int]);
    assert(staged.creations[k + 1] == shots[before.len() as int + 1]);
    w.entities.lemma_slot_bound();
    lemma_staged_population_wf(w);
    let culled = culled_upto(slots, w.components().bullet_physics, moved, n);
    lemma_culled_are_leaving(slots, w.components().bullet_physics, moved, n);
    lemma_spawned_all(staged_population(w), created, staged.creations, created.len() as int);
    assert(!alive_in(slots, created[k]) && !alive_in(slots, created[k + 1]));
    assert forall|x: Entity|
        (x == created[k] || x == created[k + 1]) implies !(#[trigger] staged.deletions.contains(x)) by {
        if staged.deletions.contains(x) {
            let d = choose|d: int| 0 <= d < staged.deletions.len() && staged.deletions[d] == x;
            if d >= w.commands.deletions@.len() {
                let c = culled[d - w.commands.deletions@.len()];
                assert(staged.deletions[d] == c);
                assert(alive_in(slots, c));
            } else {
                assert(w.commands.deletions@[d] == x);
                assert(w.commands.deletions@.contains(x));
            }
        }
    }
    lemma_applied(staged_population(w), created, staged.creations, staged.deletions);
}

} // verus!
