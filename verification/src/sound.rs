//! Audio cues. A behaviour asks for an effect or a track by its number and
//! never learns what became of the request: the requests queue up in the
//! order in which they were made, for the audio device to take.

use vstd::prelude::*;

verus! {

pub struct SoundManager {
    pub effects: Vec<u8>,
    pub songs: Vec<usize>,
}

impl SoundManager {
    pub fn new() -> (r: SoundManager)
        ensures
            r.effects@ == Seq::<u8>::empty(),
            r.songs@ == Seq::<usize>::empty(),
    {
        SoundManager { effects: Vec::new(), songs: Vec::new() }
    }

    /// Asks for the effect `id`.
    pub fn play_sfx(&mut self, id: u8)
        ensures
            final(self).effects@ == old(self).effects@.push(id),
            final(self).songs@ == old(self).songs@,
    {
        self.effects.push(id);
    }

    /// Hands the queued effects out, oldest first, and empties their queue.
    pub fn take_effects(&mut self) -> (r: Vec<u8>)
        ensures
            r@ == old(self).effects@,
            final(self).effects@ == Seq::<u8>::empty(),
            final(self).songs@ == old(self).songs@,
    {
        let mut out: Vec<u8> = Vec::new();
        std::mem::swap(&mut self.effects, &mut out);
        out
    }

    /// Hands the queued tracks out, oldest first, and empties their queue.
    pub fn take_songs(&mut self) -> (r: Vec<usize>)
        ensures
            r@ == old(self).songs@,
            final(self).songs@ == Seq::<usize>::empty(),
            final(self).effects@ == old(self).effects@,
    {
        let mut out: Vec<usize> = Vec::new();
        std::mem::swap(&mut self.songs, &mut out);
        out
    }

    /// Asks for the track `id`.
    pub fn play_song(&mut self, id: usize)
        ensures
            final(self).songs@ == old(self).songs@.push(id),
            final(self).effects@ == old(self).effects@,
    {
        self.songs.push(id);
    }
}

} // verus!
