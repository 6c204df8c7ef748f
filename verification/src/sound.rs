//! The sounds that the game can play.

use vstd::prelude::*;

verus! {

/// The name of a sound in a [`SoundLibrary`].
#[derive(Clone, Copy, Debug, PartialEq, Eq, Structural)]
pub struct SoundId(usize);

impl View for SoundId {
    type V = int;

    closed spec fn view(&self) -> int {
        self.0 as int
    }
}

/// The sounds that were loaded, in the order of their loading. The library
/// keeps each sound as the audio device wants it and never looks inside.
///
/// Its view is the sequence of the sounds.
pub struct SoundLibrary<S> {
    sounds: Vec<S>,
}

impl<S> View for SoundLibrary<S> {
    type V = Seq<S>;

    closed spec fn view(&self) -> Seq<S> {
        self.sounds@
    }
}

impl<S> SoundLibrary<S> {
    /// A library without sounds.
    pub fn new() -> (r: Self)
        ensures
            r@ == Seq::<S>::empty(),
    {
        Self { sounds: Vec::new() }
    }

    /// Adds a sound and returns its name.
    pub fn insert(&mut self, sound: S) -> (id: SoundId)
        ensures
            final(self)@ == old(self)@.push(sound),
            id@ == old(self)@.len(),
    {
        self.sounds.push(sound);
        SoundId(self.sounds.len() - 1)
    }

    /// Whether `id` names a sound of this library.
    pub fn contains(&self, id: SoundId) -> (r: bool)
        ensures
            r == (id@ < self@.len()),
    {
        id.0 < self.sounds.len()
    }

    /// The sound that `id` names.
    pub fn get(&self, id: SoundId) -> (r: &S)
        requires
            id@ < self@.len(),
        ensures
            *r == self@[id@],
    {
        &self.sounds[id.0]
    }
}

impl SoundId {
    /// The place of the sound in its library.
    pub fn index(&self) -> (r: usize)
        ensures
            r as int == self@,
    {
        self.0
    }

    /// Two names with the same place are the same name.
    pub proof fn lemma_view(self, other: Self)
        ensures
            0 <= self@ <= usize::MAX,
            self@ == other@ ==> self == other,
    {
    }
}

} // verus!
