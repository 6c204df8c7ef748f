//! A sparse array of components of one kind, indexed by entity slot.

use vstd::prelude::*;

verus! {

/// The components of one kind, each found under the slot of the entity that
/// carries it.
///
/// Its view is the map from occupied slots to their components.
pub struct Storage<T> {
    slots: Vec<Option<T>>,
}

impl<T> View for Storage<T> {
    type V = Map<int, T>;

    closed spec fn view(&self) -> Map<int, T> {
        Map::new(
            |i: int| 0 <= i < self.slots@.len() && self.slots@[i].is_some(),
            |i: int| self.slots@[i].unwrap(),
        )
    }
}

/// The component under `i`, if there is one.
pub open spec fn lookup<T>(map: Map<int, T>, i: int) -> Option<T> {
    if map.contains_key(i) {
        Some(map[i])
    } else {
        None
    }
}

impl<T> Storage<T> {
    /// The component under `slot`, if there is one.
    pub open spec fn at(&self, slot: int) -> Option<T> {
        lookup(self@, slot)
    }

    /// An empty storage.
    pub fn new() -> (r: Self)
        ensures
            r@ == Map::<int, T>::empty(),
    {
        let r = Storage { slots: Vec::new() };
        assert(r@ =~= Map::<int, T>::empty());
        r
    }

    /// A bound above every occupied slot.
    pub(crate) fn extent(&self) -> (r: usize)
        ensures
            forall|i: int| #[trigger] self@.contains_key(i) ==> 0 <= i < r,
    {
        self.slots.len()
    }

    /// Whether `slot` holds a component.
    pub fn contains(&self, slot: usize) -> (r: bool)
        ensures
            r == self@.contains_key(slot as int),
    {
        slot < self.slots.len() && self.slots[slot].is_some()
    }

    /// The component under `slot`.
    pub fn get(&self, slot: usize) -> (r: Option<&T>)
        ensures
            match r {
                Some(c) => self.at(slot as int) == Some(*c),
                None => self.at(slot as int).is_none(),
            },
    {
        if slot < self.slots.len() {
            self.slots[slot].as_ref()
        } else {
            None
        }
    }

    /// The component under `slot`, open to change.
    pub fn get_mut(&mut self, slot: usize) -> (r: Option<&mut T>)
        ensures
            match r {
                Some(c) => old(self).at(slot as int) == Some(*c) && final(self)@ == old(self)@.insert(
                    slot as int,
                    *final(c),
                ),
                None => old(self).at(slot as int).is_none() && final(self)@ == old(self)@,
            },
    {
        if slot < self.slots.len() {
            match &mut self.slots[slot] {
                Some(c) => Some(c),
                None => None,
            }
        } else {
            None
        }
    }

    /// Puts `value` under `slot` and returns what the slot held before.
    pub fn insert(&mut self, slot: usize, value: T) -> (r: Option<T>)
        requires
            slot < usize::MAX,
        ensures
            final(self)@ == old(self)@.insert(slot as int, value),
            r == old(self).at(slot as int),
    {
        while self.slots.len() <= slot
            invariant
                self@ == old(self)@,
                slot < usize::MAX,
            decreases slot + 1 - self.slots.len(),
        {
            let ghost before = self@;
            self.slots.push(None);
            assert(self@ =~= before);
        }
        let mut held = Some(value);
        core::mem::swap(&mut self.slots[slot], &mut held);
        assert(self@ =~= old(self)@.insert(slot as int, value));
        held
    }

    /// Empties `slot` and returns what it held.
    pub fn remove(&mut self, slot: usize) -> (r: Option<T>)
        ensures
            final(self)@ == old(self)@.remove(slot as int),
            r == old(self).at(slot as int),
    {
        if slot < self.slots.len() {
            let held = self.slots[slot].take();
            assert(self@ =~= old(self)@.remove(slot as int));
            held
        } else {
            assert(self@ =~= old(self)@.remove(slot as int));
            None
        }
    }
}

} // verus!
