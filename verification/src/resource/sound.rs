//! The way from the systems to the audio device.

use crate::sound::SoundId;
use vstd::prelude::*;

verus! {

/// The sounds that the systems have asked for and that the audio device has
/// not taken yet, oldest first. Asking never waits for the device.
///
/// Its view is the sequence of those sounds.
pub struct AudioInterface {
    pending: Vec<SoundId>,
}

impl View for AudioInterface {
    type V = Seq<SoundId>;

    closed spec fn view(&self) -> Seq<SoundId> {
        self.pending@
    }
}

impl AudioInterface {
    /// An interface on which nothing was asked for.
    pub fn new() -> (r: Self)
        ensures
            r@ == Seq::<SoundId>::empty(),
    {
        Self { pending: Vec::new() }
    }

    /// Asks for `sound` to be played.
    pub fn play_sound(&mut self, sound: SoundId)
        ensures
            final(self)@ == old(self)@.push(sound),
    {
        self.pending.push(sound);
    }

    /// Hands the sounds asked for to the audio device, oldest first, and
    /// forgets them.
    pub fn take_pending(&mut self) -> (r: Vec<SoundId>)
        ensures
            r@ == old(self)@,
            final(self)@ == Seq::<SoundId>::empty(),
    {
        let mut taken: Vec<SoundId> = Vec::new();
        core::mem::swap(&mut self.pending, &mut taken);
        taken
    }
}

} // verus!
