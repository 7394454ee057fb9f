use vstd::prelude::*;

verus! {

/// Number of sound clips on the board: one-shot sounds 0 to 7 come from the
/// two sound latches, the rest are only ever looped.
pub const SOUND_COUNT: usize = 10;

/// Which sounds are currently playing as loops. Starting a loop that is
/// already playing and stopping one that is not are both no-ops.
pub struct LoopingSounds {
    pub active: Vec<bool>,
}

impl LoopingSounds {
    pub open spec fn wf(&self) -> bool {
        self.active@.len() == SOUND_COUNT
    }

    /// No loop playing.
    pub fn new() -> (r: LoopingSounds)
        ensures
            r.wf(),
            forall|i: int| 0 <= i < SOUND_COUNT ==> !#[trigger] r.active@[i],
    {
        let mut active: Vec<bool> = Vec::new();
        let mut i: usize = 0;
        while i < SOUND_COUNT
            invariant
                i <= SOUND_COUNT,
                active@.len() == i,
                forall|j: int| 0 <= j < i ==> !#[trigger] active@[j],
            decreases SOUND_COUNT - i,
        {
            active.push(false);
            i = i + 1;
        }
        LoopingSounds { active }
    }

    /// Whether sound `i` is looping.
    pub fn is_looping(&self, i: usize) -> (r: bool)
        requires
            self.wf(),
            i < SOUND_COUNT,
        ensures
            r == self.active@[i as int],
    {
        self.active[i]
    }

    /// Marks sound `i` as looping; returns whether playback must be started,
    /// that is whether it was not looping already.
    pub fn start(&mut self, i: usize) -> (r: bool)
        requires
            old(self).wf(),
            i < SOUND_COUNT,
        ensures
            final(self).wf(),
            r == !old(self).active@[i as int],
            final(self).active@ == old(self).active@.update(i as int, true),
    {
        let was = self.active[i];
        self.active.set(i, true);
        !was
    }

    /// Marks sound `i` as stopped; returns whether a playing loop must be
    /// stopped, that is whether it was looping.
    pub fn stop(&mut self, i: usize) -> (r: bool)
        requires
            old(self).wf(),
            i < SOUND_COUNT,
        ensures
            final(self).wf(),
            r == old(self).active@[i as int],
            final(self).active@ == old(self).active@.update(i as int, false),
    {
        let was = self.active[i];
        self.active.set(i, false);
        was
    }
}

} // verus!
