//! Flight and end of projectiles.

use crate::component::bullet_physics::BulletPhysicsComponent;
use crate::component::position::{PositionComponent, PositionView};
use crate::store::commands::Commands;
use crate::store::entity::{entity_in, occupied, Entities, Entity, Slot};
use crate::store::storage::Storage;
use crate::units::{saturate, saturate_spec};
use vstd::prelude::*;

verus! {

/// The position of a projectile after a tick of flight: both coordinates
/// move on by the velocity, as far as a coordinate can hold the result, and
/// the old ones become the previous ones.
pub open spec fn flown(bullet: BulletPhysicsComponent, position: PositionView) -> PositionView {
    position.update_x(saturate_spec(position.x + bullet.vx)).update_y(saturate_spec(position.y + bullet.vy))
}

/// Whether a tick of flight takes the projectile out of its alive
/// rectangle, beyond any one of the four bounds.
pub open spec fn leaves_area(bullet: BulletPhysicsComponent, position: PositionView) -> bool {
    ||| position.x + bullet.vx < bullet.x_min
    ||| position.x + bullet.vx > bullet.x_max
    ||| position.y + bullet.vy < bullet.y_min
    ||| position.y + bullet.vy > bullet.y_max
}

/// Whether a projectile lives in slot `i`: an entity with projectile
/// physics and a position.
pub open spec fn flies_at(
    entities: Seq<Slot>,
    bullet: Map<int, BulletPhysicsComponent>,
    position: Map<int, PositionComponent>,
    i: int,
) -> bool {
    occupied(entities, i) && bullet.contains_key(i) && position.contains_key(i)
}

/// The positions of all entities after a tick: that of every projectile has
/// flown on, whether the projectile has left its area or not.
pub open spec fn flown_all(
    entities: Seq<Slot>,
    bullet: Map<int, BulletPhysicsComponent>,
    position: Map<int, PositionComponent>,
) -> Map<int, PositionComponent> {
    Map::new(
        |i: int| position.contains_key(i),
        |i: int|
            if flies_at(entities, bullet, position, i) {
                PositionComponent::from_view(flown(bullet[i], position[i]@))
            } else {
                position[i]
            },
    )
}

/// The projectiles in the slots below `n` that leave their area in this
/// tick, in the order of the slots.
pub open spec fn culled_upto(
    entities: Seq<Slot>,
    bullet: Map<int, BulletPhysicsComponent>,
    position: Map<int, PositionComponent>,
    n: int,
) -> Seq<Entity>
    decreases n,
{
    if n <= 0 {
        Seq::empty()
    } else if flies_at(entities, bullet, position, n - 1) && leaves_area(bullet[n - 1], position[n - 1]@) {
        culled_upto(entities, bullet, position, n - 1).push(entity_in(entities, n - 1))
    } else {
        culled_upto(entities, bullet, position, n - 1)
    }
}

/// Everything named among the culled is a living projectile that leaves its
/// area, and is named in the order of the slots.
pub proof fn lemma_culled_are_leaving(
    entities: Seq<Slot>,
    bullet: Map<int, BulletPhysicsComponent>,
    position: Map<int, PositionComponent>,
    n: int,
)
    requires
        entities.len() <= usize::MAX,
    ensures
        forall|k: int|
            0 <= k < culled_upto(entities, bullet, position, n).len() ==> {
                let e = #[trigger] culled_upto(entities, bullet, position, n)[k];
                &&& e.index < n
                &&& flies_at(entities, bullet, position, e.index as int)
                &&& leaves_area(bullet[e.index as int], position[e.index as int]@)
                &&& e == entity_in(entities, e.index as int)
            },
    decreases n,
{
    let all = culled_upto(entities, bullet, position, n);
    if n > 0 {
        lemma_culled_are_leaving(entities, bullet, position, n - 1);
        let before = culled_upto(entities, bullet, position, n - 1);
        assert forall|k: int| 0 <= k < all.len() implies {
            let e = #[trigger] all[k];
            &&& e.index < n
            &&& flies_at(entities, bullet, position, e.index as int)
            &&& leaves_area(bullet[e.index as int], position[e.index as int]@)
            &&& e == entity_in(entities, e.index as int)
        } by {
            if k < before.len() {
                assert(all[k] == before[k]);
            } else {
                assert(all[k] == entity_in(entities, n - 1));
            }
        }
    }
}

/// Bullet culling, as far as this system goes: a living projectile in a
/// slot below `n` is named among the culled if and only if it leaves its
/// area.
pub proof fn lemma_culled_exactly(
    entities: Seq<Slot>,
    bullet: Map<int, BulletPhysicsComponent>,
    position: Map<int, PositionComponent>,
    n: int,
    i: int,
)
    requires
        entities.len() <= usize::MAX,
        0 <= i < n,
        flies_at(entities, bullet, position, i),
    ensures
        culled_upto(entities, bullet, position, n).contains(entity_in(entities, i)) <==> leaves_area(
            bullet[i],
            position[i]@,
        ),
    decreases n,
{
    let e = entity_in(entities, i);
    let before = culled_upto(entities, bullet, position, n - 1);
    let all = culled_upto(entities, bullet, position, n);
    lemma_culled_are_leaving(entities, bullet, position, n);
    if i == n - 1 {
        if leaves_area(bullet[i], position[i]@) {
            assert(all == before.push(e));
            assert(all[all.len() - 1] == e);
        } else if all.contains(e) {
            let k = choose|k: int| 0 <= k < all.len() && all[k] == e;
            assert(leaves_area(bullet[all[k].index as int], position[all[k].index as int]@));
        }
    } else {
        lemma_culled_exactly(entities, bullet, position, n - 1, i);
        if before.contains(e) {
            let k = choose|k: int| 0 <= k < before.len() && before[k] == e;
            assert(all[k] == e);
        }
        if all.contains(e) {
            let k = choose|k: int| 0 <= k < all.len() && all[k] == e;
            if k < before.len() {
                assert(before[k] == e);
            } else {
                assert(all[k].index == n - 1);
            }
        }
    }
}

/// A projectile that stays in its area is exactly where its velocity took
/// it: nothing was cut off.
pub proof fn lemma_flight_exact(bullet: BulletPhysicsComponent, position: PositionView)
    requires
        !leaves_area(bullet, position),
    ensures
        flown(bullet, position).x == position.x + bullet.vx,
        flown(bullet, position).y == position.y + bullet.vy,
        bullet.x_min <= flown(bullet, position).x <= bullet.x_max,
        bullet.y_min <= flown(bullet, position).y <= bullet.y_max,
{
}

/// Moves the projectiles and asks for the end of those that have left
/// their area.
pub struct BulletPhysicsSystem;

impl BulletPhysicsSystem {
    /// One tick of flight of one projectile. Tells whether the projectile
    /// has left its area; its position moves on either way.
    pub fn step(bullet: &BulletPhysicsComponent, position: &mut PositionComponent) -> (left: bool)
        ensures
            left == leaves_area(*bullet, old(position)@),
            final(position)@ == flown(*bullet, old(position)@),
    {
        let x: i64 = position.x() as i64 + bullet.vx as i64;
        let y: i64 = position.y() as i64 + bullet.vy as i64;
        let left = x < bullet.x_min as i64 || x > bullet.x_max as i64 || y < bullet.y_min as i64 || y
            > bullet.y_max as i64;
        position.update_x(saturate(x));
        position.update_y(saturate(y));
        left
    }

    /// One tick of flight of all projectiles, in the order of their slots.
    /// Each one that leaves its area is added to the deletions asked for.
    /// Nothing else changes.
    pub fn run(
        &mut self,
        entities: &Entities,
        commands: &mut Commands,
        bullet_physics: &Storage<BulletPhysicsComponent>,
        position: &mut Storage<PositionComponent>,
    )
        ensures
            final(position)@ == flown_all(entities@, bullet_physics@, old(position)@),
            final(commands).creations@ == old(commands).creations@,
            final(commands).deletions@ == old(commands).deletions@ + culled_upto(
                entities@,
                bullet_physics@,
                old(position)@,
                entities@.len() as int,
            ),
    {
        let n = entities.slot_count();
        let mut slot: usize = 0;
        assert(old(commands).deletions@ + Seq::<Entity>::empty() =~= old(commands).deletions@);
        while slot < n
            invariant
                slot <= n,
                n == entities@.len(),
                position@.dom() == old(position)@.dom(),
                forall|i: int| #[trigger]
                    old(position)@.contains_key(i) ==> if i < slot && flies_at(
                        entities@,
                        bullet_physics@,
                        old(position)@,
                        i,
                    ) {
                        position@[i]@ == flown(bullet_physics@[i], old(position)@[i]@)
                    } else {
                        position@[i] == old(position)@[i]
                    },
                commands.creations@ == old(commands).creations@,
                commands.deletions@ == old(commands).deletions@ + culled_upto(
                    entities@,
                    bullet_physics@,
                    old(position)@,
                    slot as int,
                ),
            decreases n - slot,
        {
            let ghost position_before = position@;
            let ghost culled = culled_upto(entities@, bullet_physics@, old(position)@, slot as int);
            match (entities.entity_at(slot), bullet_physics.get(slot), position.get_mut(slot)) {
                (Some(e), Some(bullet), Some(bullet_position)) => {
                    if Self::step(bullet, bullet_position) {
                        commands.destroy(e);
                        assert(commands.deletions@ =~= old(commands).deletions@ + culled.push(e));
                    }
                },
                _ => {},
            }
            assert(position@.dom() =~= position_before.dom());
            slot += 1;
        }
        proof {
            assert forall|i: int| #[trigger] position@.contains_key(i) implies position@[i] == flown_all(
                entities@,
                bullet_physics@,
                old(position)@,
            )[i] by {
                position@[i].lemma_view();
            }
            assert(position@ =~= flown_all(entities@, bullet_physics@, old(position)@));
        }
    }
}

} // verus!
