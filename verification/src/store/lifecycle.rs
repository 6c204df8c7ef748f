//! What creation and deletion do to a population: the laws that the store
//! keeps when it carries out the structural changes of a tick.

use crate::store::commands::Bundle;
use crate::store::entity::{
    alive_in, fresh_in, generations_open, lemma_retired_stays, occupied, retired_in, succeeds, Entity,
};
use crate::store::world::Population;
use vstd::prelude::*;

verus! {

/// Whether a population is consistent: every living entity can end, and
/// every component belongs to a living entity.
pub open spec fn population_wf(p: Population) -> bool {
    generations_open(p.slots) && p.components.on_living(p.slots)
}

/// A new entity comes to life with exactly its bundle and disturbs nobody:
/// all who lived before live on and carry what they carried.
pub proof fn lemma_spawned(p: Population, e: Entity, bundle: Bundle)
    requires
        population_wf(p),
        fresh_in(p.slots, e),
    ensures
        population_wf(p.spawned(e, bundle)),
        succeeds(p.slots, p.spawned(e, bundle).slots),
        !alive_in(p.slots, e),
        alive_in(p.spawned(e, bundle).slots, e),
        p.spawned(e, bundle).components.bundle_at(e.index as int) == bundle,
        forall|i: int|
            i != e.index ==> #[trigger] p.spawned(e, bundle).components.bundle_at(i)
                == p.components.bundle_at(i),
        forall|x: Entity| #[trigger]
            alive_in(p.slots, x) ==> x.index != e.index && alive_in(p.spawned(e, bundle).slots, x),
        forall|x: Entity| #[trigger]
            alive_in(p.spawned(e, bundle).slots, x) ==> x == e || alive_in(p.slots, x),
{
    reveal(Population::spawned);
    let q = p.spawned(e, bundle);
    assert(!p.components.carries(e.index as int));
    assert forall|i: int| #[trigger] q.components.carries(i) implies occupied(q.slots, i) by {
        if i != e.index {
            assert(q.components.bundle_at(i) == p.components.bundle_at(i));
            assert(p.components.carries(i));
        }
    }
}

/// A deletion ends the entity it names, if that is alive, and nothing else:
/// all others live on and carry what they carried, and nobody comes to life.
pub proof fn lemma_destroyed(p: Population, e: Entity)
    requires
        population_wf(p),
    ensures
        population_wf(p.destroyed(e)),
        succeeds(p.slots, p.destroyed(e).slots),
        p.destroyed(e).slots.len() == p.slots.len(),
        !alive_in(p.destroyed(e).slots, e),
        alive_in(p.slots, e) ==> retired_in(p.destroyed(e).slots, e),
        alive_in(p.slots, e) ==> p.destroyed(e).components.bundle_at(e.index as int) == Bundle::empty(),
        forall|i: int|
            !(alive_in(p.slots, e) && i == e.index) ==> #[trigger] p.destroyed(e).components.bundle_at(i)
                == p.components.bundle_at(i),
        forall|x: Entity| #[trigger] alive_in(p.destroyed(e).slots, x) ==> alive_in(p.slots, x) && x != e,
        forall|x: Entity| #[trigger] alive_in(p.slots, x) && x != e ==> alive_in(p.destroyed(e).slots, x),
{
    reveal(Population::destroyed);
    let q = p.destroyed(e);
    if alive_in(p.slots, e) {
        assert forall|i: int| #[trigger] q.components.carries(i) implies occupied(q.slots, i) by {
            assert(i != e.index);
            assert(q.components.bundle_at(i) == p.components.bundle_at(i));
            assert(p.components.carries(i));
        }
    }
}

/// Creation, one entity after the other. Every bundle comes to life as an
/// entity of its own, under a name that named nobody alive before, and
/// carries exactly its components; all who lived before live on unchanged;
/// and nobody else comes to life.
pub proof fn lemma_spawned_all(p: Population, created: Seq<Entity>, bundles: Seq<Bundle>, n: int)
    requires
        population_wf(p),
        0 <= n <= created.len(),
        n <= bundles.len(),
        p.spawns_fresh(created, bundles, n),
    ensures
        population_wf(p.spawned_all(created, bundles, n)),
        succeeds(p.slots, p.spawned_all(created, bundles, n).slots),
        forall|k: int|
            0 <= k < n ==> {
                &&& !alive_in(p.slots, #[trigger] created[k])
                &&& alive_in(p.spawned_all(created, bundles, n).slots, created[k])
                &&& p.spawned_all(created, bundles, n).components.bundle_at(created[k].index as int)
                    == bundles[k]
            },
        forall|j: int, k: int| 0 <= j < k < n ==> (#[trigger] created[j]).index != (#[trigger] created[k]).index,
        forall|x: Entity| #[trigger]
            alive_in(p.slots, x) ==> alive_in(p.spawned_all(created, bundles, n).slots, x) && p.spawned_all(
                created,
                bundles,
                n,
            ).components.bundle_at(x.index as int) == p.components.bundle_at(x.index as int),
        forall|x: Entity| #[trigger]
            alive_in(p.spawned_all(created, bundles, n).slots, x) ==> alive_in(p.slots, x) || exists|k: int|
                0 <= k < n && created[k] == x,
    decreases n,
{
    if n > 0 {
        assert(p.spawns_fresh(created, bundles, n - 1));
        lemma_spawned_all(p, created, bundles, n - 1);
        let before = p.spawned_all(created, bundles, n - 1);
        let after = p.spawned_all(created, bundles, n);
        let e = created[n - 1];
        assert(fresh_in(before.slots, e));
        lemma_spawned(before, e, bundles[n - 1]);
        assert forall|k: int| 0 <= k < n implies {
            &&& !alive_in(p.slots, #[trigger] created[k])
            &&& alive_in(after.slots, created[k])
            &&& after.components.bundle_at(created[k].index as int) == bundles[k]
        } by {
            if k < n - 1 {
                assert(alive_in(before.slots, created[k]));
            } else {
                if alive_in(p.slots, e) {
                    assert(alive_in(before.slots, e));
                }
            }
        }
        assert forall|j: int, k: int| 0 <= j < k < n implies (#[trigger] created[j]).index != (
        #[trigger] created[k]).index by {
            if k == n - 1 {
                assert(alive_in(before.slots, created[j]));
            }
        }
        assert forall|x: Entity| #[trigger] alive_in(after.slots, x) implies alive_in(p.slots, x) || exists|
            k: int,
        | 0 <= k < n && created[k] == x by {
            if x == e {
                assert(created[n - 1] == x);
            } else {
                assert(alive_in(before.slots, x));
                if !alive_in(p.slots, x) {
                    let k = choose|k: int| 0 <= k < n - 1 && created[k] == x;
                    assert(0 <= k < n && created[k] == x);
                }
            }
        }
        assert forall|x: Entity| #[trigger] alive_in(p.slots, x) implies alive_in(after.slots, x)
            && after.components.bundle_at(x.index as int) == p.components.bundle_at(x.index as int) by {
            assert(alive_in(before.slots, x));
        }
    }
}

/// Deletion, one name after the other. Nobody named is alive afterwards,
/// and who was alive at the start and was named is retired for good;
/// all who were alive and were not named live on unchanged; and nobody
/// comes to life.
pub proof fn lemma_destroyed_all(p: Population, deletions: Seq<Entity>, n: int)
    requires
        population_wf(p),
        0 <= n <= deletions.len(),
    ensures
        population_wf(p.destroyed_all(deletions, n)),
        succeeds(p.slots, p.destroyed_all(deletions, n).slots),
        forall|k: int|
            0 <= k < n ==> {
                &&& !alive_in(p.destroyed_all(deletions, n).slots, #[trigger] deletions[k])
                &&& alive_in(p.slots, deletions[k]) ==> retired_in(
                    p.destroyed_all(deletions, n).slots,
                    deletions[k],
                )
            },
        forall|x: Entity| #[trigger]
            alive_in(p.destroyed_all(deletions, n).slots, x) ==> alive_in(p.slots, x) && p.destroyed_all(
                deletions,
                n,
            ).components.bundle_at(x.index as int) == p.components.bundle_at(x.index as int),
        forall|x: Entity| #[trigger]
            alive_in(p.slots, x) ==> alive_in(p.destroyed_all(deletions, n).slots, x) || exists|k: int|
                0 <= k < n && deletions[k] == x,
    decreases n,
{
    if n > 0 {
        lemma_destroyed_all(p, deletions, n - 1);
        let before = p.destroyed_all(deletions, n - 1);
        let after = p.destroyed_all(deletions, n);
        let e = deletions[n - 1];
        lemma_destroyed(before, e);
        assert forall|k: int| 0 <= k < n implies {
            &&& !alive_in(after.slots, #[trigger] deletions[k])
            &&& alive_in(p.slots, deletions[k]) ==> retired_in(after.slots, deletions[k])
        } by {
            let d = deletions[k];
            if k < n - 1 {
                if alive_in(after.slots, d) {
                    assert(alive_in(before.slots, d));
                }
                if alive_in(p.slots, d) {
                    lemma_retired_stays(before.slots, after.slots, d);
                }
            } else {
                if alive_in(p.slots, d) && !alive_in(before.slots, d) {
                    let j = choose|j: int| 0 <= j < n - 1 && deletions[j] == d;
                    assert(retired_in(before.slots, deletions[j]));
                    lemma_retired_stays(before.slots, after.slots, d);
                }
            }
        }
        assert forall|x: Entity| #[trigger] alive_in(after.slots, x) implies alive_in(p.slots, x)
            && after.components.bundle_at(x.index as int) == p.components.bundle_at(x.index as int) by {
            assert(alive_in(before.slots, x));
        }
        assert forall|x: Entity| #[trigger] alive_in(p.slots, x) implies alive_in(after.slots, x) || exists|
            k: int,
        | 0 <= k < n && deletions[k] == x by {
            if !alive_in(after.slots, x) {
                if alive_in(before.slots, x) {
                    assert(x == e);
                    assert(deletions[n - 1] == x);
                } else {
                    let k = choose|k: int| 0 <= k < n - 1 && deletions[k] == x;
                    assert(0 <= k < n && deletions[k] == x);
                }
            }
        }
    }
}

/// The structural changes of a tick, creations first and deletions after.
///
/// Every entity whose end was asked for is gone, and if it was alive when
/// the changes began it is retired: its name will never be alive again.
/// Every bundle whose creation was asked for has become an entity of its
/// own that carries exactly the bundle, unless a deletion names that very
/// entity. All who lived before and were not named live on unchanged, and
/// nobody else is alive.
pub proof fn lemma_applied(
    p: Population,
    created: Seq<Entity>,
    bundles: Seq<Bundle>,
    deletions: Seq<Entity>,
)
    requires
        population_wf(p),
        created.len() == bundles.len(),
        p.spawns_fresh(created, bundles, created.len() as int),
    ensures
        ({
            let after = p.spawned_all(created, bundles, created.len() as int).destroyed_all(
                deletions,
                deletions.len() as int,
            );
            &&& population_wf(after)
            &&& succeeds(p.slots, after.slots)
            &&& forall|k: int|
                0 <= k < deletions.len() ==> {
                    &&& !alive_in(after.slots, #[trigger] deletions[k])
                    &&& alive_in(p.slots, deletions[k]) ==> retired_in(after.slots, deletions[k])
                }
            &&& forall|k: int|
                0 <= k < created.len() && !deletions.contains(#[trigger] created[k]) ==> {
                    &&& !alive_in(p.slots, created[k])
                    &&& alive_in(after.slots, created[k])
                    &&& after.components.bundle_at(created[k].index as int) == bundles[k]
                }
            &&& forall|j: int, k: int|
                0 <= j < k < created.len() ==> (#[trigger] created[j]).index != (#[trigger] created[k]).index
            &&& forall|x: Entity| #[trigger]
                alive_in(p.slots, x) && !deletions.contains(x) ==> alive_in(after.slots, x)
                    && after.components.bundle_at(x.index as int) == p.components.bundle_at(x.index as int)
            &&& forall|x: Entity| #[trigger]
                alive_in(after.slots, x) ==> !deletions.contains(x) && (alive_in(p.slots, x)
                    || created.contains(x))
        }),
{
    let n = created.len() as int;
    let m = deletions.len() as int;
    let grown = p.spawned_all(created, bundles, n);
    let after = grown.destroyed_all(deletions, m);
    lemma_spawned_all(p, created, bundles, n);
    lemma_destroyed_all(grown, deletions, m);
    assert forall|k: int| 0 <= k < m implies {
        &&& !alive_in(after.slots, #[trigger] deletions[k])
        &&& alive_in(p.slots, deletions[k]) ==> retired_in(after.slots, deletions[k])
    } by {
        if alive_in(p.slots, deletions[k]) {
            assert(alive_in(grown.slots, deletions[k]));
        }
    }
    assert forall|k: int| 0 <= k < n && !deletions.contains(#[trigger] created[k]) implies {
        &&& !alive_in(p.slots, created[k])
        &&& alive_in(after.slots, created[k])
        &&& after.components.bundle_at(created[k].index as int) == bundles[k]
    } by {
        let x = created[k];
        assert(alive_in(grown.slots, x));
        if !alive_in(after.slots, x) {
            let j = choose|j: int| 0 <= j < m && deletions[j] == x;
            assert(deletions.contains(x));
        }
    }
    assert forall|x: Entity| #[trigger] alive_in(p.slots, x) && !deletions.contains(x) implies alive_in(
        after.slots,
        x,
    ) && after.components.bundle_at(x.index as int) == p.components.bundle_at(x.index as int) by {
        assert(alive_in(grown.slots, x));
        if !alive_in(after.slots, x) {
            let j = choose|j: int| 0 <= j < m && deletions[j] == x;
            assert(deletions.contains(x));
        }
    }
    assert forall|x: Entity| #[trigger] alive_in(after.slots, x) implies !deletions.contains(x) && (alive_in(
        p.slots,
        x,
    ) || created.contains(x)) by {
        assert(alive_in(grown.slots, x));
        if deletions.contains(x) {
            let j = choose|j: int| 0 <= j < m && deletions[j] == x;
            assert(!alive_in(after.slots, deletions[j]));
        }
        if !alive_in(p.slots, x) {
            let k = choose|k: int| 0 <= k < n && created[k] == x;
            assert(created.contains(x));
        }
    }
    assert(succeeds(p.slots, after.slots)) by {
        assert forall|i: int| 0 <= i < p.slots.len() implies p.slots[i].generation <= (
        #[trigger] after.slots[i]).generation by {
            assert(p.slots[i].generation <= grown.slots[i].generation);
        }
    }
}

} // verus!
