//! Entity identifiers and their lifetimes.

use vstd::prelude::*;

verus! {

/// The name of an entity: the slot it lives in, and the generation of that
/// slot at the time the entity was created.
///
/// A slot's generation rises each time its entity is destroyed, so a name
/// kept beyond the entity's life is recognised as stale.
#[derive(Clone, Copy, Debug, PartialEq, Eq, Structural, Hash)]
pub struct Entity {
    pub index: usize,
    pub generation: u32,
}

/// The state of one slot: its generation, and whether an entity lives there.
#[derive(Clone, Copy, Debug, PartialEq, Eq, Structural)]
pub struct Slot {
    pub generation: u32,
    pub alive: bool,
}

/// What the store refuses.
#[derive(Clone, Copy, Debug, PartialEq, Eq, Structural)]
pub enum StoreError {
    /// The entity named was destroyed before, or never existed.
    StaleEntity,
}

/// Whether `e` names the entity that lives in its slot.
pub open spec fn alive_in(slots: Seq<Slot>, e: Entity) -> bool {
    &&& e.index < slots.len()
    &&& slots[e.index as int].alive
    &&& slots[e.index as int].generation == e.generation
}

/// Whether an entity lives in `slot`.
pub open spec fn occupied(slots: Seq<Slot>, slot: int) -> bool {
    0 <= slot < slots.len() && slots[slot].alive
}

/// The name of the entity in `slot`.
pub open spec fn entity_in(slots: Seq<Slot>, slot: int) -> Entity {
    Entity { index: slot as usize, generation: slots[slot].generation }
}

/// Whether the slot of `e` has moved on to a later generation, so that `e`
/// names an entity of the past.
pub open spec fn retired_in(slots: Seq<Slot>, e: Entity) -> bool {
    e.index < slots.len() && slots[e.index as int].generation > e.generation
}

/// Whether `after` can follow `before` in the life of a store: no slot is
/// lost and no generation falls.
pub open spec fn succeeds(before: Seq<Slot>, after: Seq<Slot>) -> bool {
    &&& before.len() <= after.len()
    &&& forall|i: int|
        0 <= i < before.len() ==> before[i].generation <= (#[trigger] after[i]).generation
}

/// Whether every living entity is of a generation that has a successor.
pub open spec fn generations_open(slots: Seq<Slot>) -> bool {
    forall|i: int| 0 <= i < slots.len() && (#[trigger] slots[i]).alive ==> slots[i].generation < u32::MAX
}

/// Whether `e` can name a new entity: its slot is empty and of `e`'s
/// generation, or it is the slot after the last and `e` is of generation
/// zero.
pub open spec fn fresh_in(slots: Seq<Slot>, e: Entity) -> bool {
    &&& e.generation < u32::MAX
    &&& e.index <= slots.len()
    &&& e.index < slots.len() ==> !slots[e.index as int].alive && slots[e.index as int].generation
        == e.generation
    &&& e.index == slots.len() ==> e.generation == 0
}

/// The slots after a new entity has taken `e`'s slot.
pub open spec fn with_created(slots: Seq<Slot>, e: Entity) -> Seq<Slot> {
    let fresh = Slot { generation: e.generation, alive: true };
    if e.index < slots.len() {
        slots.update(e.index as int, fresh)
    } else {
        slots.push(fresh)
    }
}

/// The slots after the entity `e` was destroyed: its slot is empty and has
/// moved on by one generation.
pub open spec fn with_destroyed(slots: Seq<Slot>, e: Entity) -> Seq<Slot> {
    slots.update(e.index as int, Slot { generation: (e.generation + 1) as u32, alive: false })
}

/// The allocator of entity names.
///
/// Its view is the sequence of its slots.
pub struct Entities {
    slots: Vec<Slot>,
    free: Vec<usize>,
}

impl View for Entities {
    type V = Seq<Slot>;

    closed spec fn view(&self) -> Seq<Slot> {
        self.slots@
    }
}

impl Entities {
    /// The allocator is consistent: it can name a new entity and can tell a
    /// living one from a stale one. Every allocator built by
    /// [`Entities::new`] and changed by its own operations only is.
    pub closed spec fn wf(&self) -> bool {
        &&& forall|i: int|
            0 <= i < self.slots@.len() && (#[trigger] self.slots@[i]).alive
                ==> self.slots@[i].generation < u32::MAX
        &&& forall|k: int|
            0 <= k < self.free@.len() ==> {
                &&& (#[trigger] self.free@[k]) < self.slots@.len()
                &&& !self.slots@[self.free@[k] as int].alive
                &&& self.slots@[self.free@[k] as int].generation < u32::MAX
            }
        &&& forall|j: int, k: int|
            0 <= j < k < self.free@.len() ==> self.free@[j] != self.free@[k]
    }

    /// The slots can be counted by the machine.
    pub proof fn lemma_slot_bound(&self)
        ensures
            self@.len() <= usize::MAX,
    {
        assert(self.slots.len() == self.slots@.len());
    }

    /// A living entity is never of the last generation, so its slot can move
    /// on when the entity ends.
    pub proof fn lemma_living_generations(&self)
        requires
            self.wf(),
        ensures
            generations_open(self@),
    {
    }

    /// No slot, no entity.
    pub fn new() -> (r: Self)
        ensures
            r.wf(),
            r@ == Seq::<Slot>::empty(),
    {
        Entities { slots: Vec::new(), free: Vec::new() }
    }

    /// The number of slots.
    pub fn slot_count(&self) -> (r: usize)
        ensures
            r == self@.len(),
    {
        self.slots.len()
    }

    /// Whether `e` names a living entity.
    pub fn is_alive(&self, e: Entity) -> (r: bool)
        ensures
            r == alive_in(self@, e),
    {
        if e.index < self.slots.len() {
            let slot = self.slots[e.index];
            slot.alive && slot.generation == e.generation
        } else {
            false
        }
    }

    /// The entity that lives in `slot`, if one does.
    pub fn entity_at(&self, slot: usize) -> (r: Option<Entity>)
        ensures
            r == if occupied(self@, slot as int) {
                Some(entity_in(self@, slot as int))
            } else {
                None
            },
    {
        if slot < self.slots.len() {
            let s = self.slots[slot];
            if s.alive {
                Some(Entity { index: slot, generation: s.generation })
            } else {
                None
            }
        } else {
            None
        }
    }

    /// Brings a new entity to life, in an empty slot or in a new one.
    pub fn create(&mut self) -> (e: Entity)
        requires
            old(self).wf(),
        ensures
            final(self).wf(),
            e.index <= old(self)@.len(),
            e.index < old(self)@.len() ==> !old(self)@[e.index as int].alive && old(self)@[e.index as int].generation
                == e.generation,
            e.index == old(self)@.len() ==> e.generation == 0,
            e.generation < u32::MAX,
            e.index < usize::MAX,
            final(self)@ == with_created(old(self)@, e),
    {
        match self.free.pop() {
            Some(index) => {
                assert(index < self.slots.len());
                let generation = self.slots[index].generation;
                self.slots.set(index, Slot { generation, alive: true });
                Entity { index, generation }
            },
            None => {
                let index = self.slots.len();
                self.slots.push(Slot { generation: 0, alive: true });
                assert(self.slots.len() == index + 1);
                Entity { index, generation: 0 }
            },
        }
    }

    /// Ends the life of `e`. A stale name is refused and changes nothing.
    pub fn destroy(&mut self, e: Entity) -> (r: Result<(), StoreError>)
        requires
            old(self).wf(),
        ensures
            final(self).wf(),
            r.is_ok() == alive_in(old(self)@, e),
            r.is_err() ==> r == Err::<(), StoreError>(StoreError::StaleEntity) && final(self)@ == old(self)@,
            r.is_ok() ==> final(self)@ == with_destroyed(old(self)@, e),
    {
        if !self.is_alive(e) {
            return Err(StoreError::StaleEntity);
        }
        let generation = e.generation + 1;
        self.slots.set(e.index, Slot { generation, alive: false });
        if generation < u32::MAX {
            self.free.push(e.index);
        }
        Ok(())
    }
}

/// A name is alive or retired, never both, and a store that has moved on
/// keeps every retired name retired: a destroyed entity does not come back.
pub proof fn lemma_retired_stays(before: Seq<Slot>, after: Seq<Slot>, e: Entity)
    requires
        retired_in(before, e),
        succeeds(before, after),
    ensures
        retired_in(after, e),
        !alive_in(after, e),
{
    assert(before[e.index as int].generation <= after[e.index as int].generation);
}

/// Creating and destroying entities moves a store on: a name that is free
/// becomes the name of a living entity, and the name of a living entity
/// that ends is retired.
pub proof fn lemma_lifecycle_succeeds(slots: Seq<Slot>, e: Entity)
    ensures
        succeeds(slots, slots),
        fresh_in(slots, e) ==> succeeds(slots, with_created(slots, e)) && alive_in(with_created(slots, e), e),
        alive_in(slots, e) && generations_open(slots) ==> succeeds(slots, with_destroyed(slots, e))
            && retired_in(with_destroyed(slots, e), e) && !alive_in(with_destroyed(slots, e), e),
{
}

} // verus!
