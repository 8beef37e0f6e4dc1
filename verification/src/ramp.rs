//! Scripted equalizer fade-in: a fixed 36-step staircase run once per
//! playback start. Band 5 is lowered on every step and bands 4 and 3 on
//! every second step, each starting from level 11 and stopping once it has
//! written 0; no write for a band is emitted after that.

use vstd::prelude::*;
use crate::eq::BandWrite;

verus! {

/// Number of steps in the fade-in script.
pub const RAMP_STEPS: u8 = 36;
/// Level each ramped band starts from.
pub const RAMP_START_LEVEL: i8 = 11;
/// Milliseconds between consecutive steps.
pub const RAMP_STEP_INTERVAL_MS: u64 = 138;

/// The pending level of the band lowered every step, after `done` completed
/// steps: it counts down from 11 and rests at -1 once the band has written 0.
pub open spec fn spec_fast_level(done: int) -> int {
    if done <= 12 {
        11 - done
    } else {
        -1
    }
}

/// The pending level of a band lowered every second step, after `done`
/// completed steps.
pub open spec fn spec_slow_level(done: int) -> int {
    if done <= 23 {
        11 - done / 2
    } else {
        -1
    }
}

/// The writes emitted by the step taken after `done` completed steps, in
/// emission order: band 5 while its pending level has not run out, then, on
/// every second step, bands 4 and 3 while theirs have not.
pub open spec fn spec_step_writes(done: int) -> Seq<BandWrite> {
    let fast = if spec_fast_level(done) >= 0 {
        seq![(BandWrite { band: 5, level: spec_fast_level(done) as u8 })]
    } else {
        Seq::<BandWrite>::empty()
    };
    let slow = if (done + 1) % 2 == 0 && spec_slow_level(done) >= 0 {
        seq![
            (BandWrite { band: 4, level: spec_slow_level(done) as u8 }),
            (BandWrite { band: 3, level: spec_slow_level(done) as u8 }),
        ]
    } else {
        Seq::<BandWrite>::empty()
    };
    fast + slow
}

/// The fade-in sequencer: the number of completed steps and the pending
/// level of each ramped band.
pub struct RampSequencer {
    pub step: u8,
    pub lev5: i8,
    pub lev4: i8,
    pub lev3: i8,
}

impl RampSequencer {
    /// The pending levels always agree with the step count.
    pub open spec fn wf(self) -> bool {
        &&& self.step <= RAMP_STEPS
        &&& self.lev5 == spec_fast_level(self.step as int)
        &&& self.lev4 == spec_slow_level(self.step as int)
        &&& self.lev3 == spec_slow_level(self.step as int)
    }

    /// A sequencer about to take its first step, every band pending at 11.
    pub fn new() -> (r: Self)
        ensures
            r.wf(),
            r.step == 0,
    {
        RampSequencer { step: 0, lev5: RAMP_START_LEVEL, lev4: RAMP_START_LEVEL, lev3: RAMP_START_LEVEL }
    }

    /// Whether the script still has steps to take.
    pub fn is_done(&self) -> (r: bool)
        ensures
            r <==> self.step == RAMP_STEPS,
    {
        self.step == RAMP_STEPS
    }

    /// Takes one step of the script and returns the writes it emits.
    pub fn tick(&mut self) -> (writes: Vec<BandWrite>)
        requires
            old(self).wf(),
            old(self).step < RAMP_STEPS,
        ensures
            final(self).wf(),
            final(self).step == old(self).step + 1,
            writes@ == spec_step_writes(old(self).step as int),
            forall|i: int| 0 <= i < writes@.len() ==> writes@[i].wf(),
    {
        let mut writes: Vec<BandWrite> = Vec::new();
        self.step = self.step + 1;
        if self.lev5 >= 0 {
            writes.push(BandWrite { band: 5, level: self.lev5 as u8 });
            self.lev5 = self.lev5 - 1;
        }
        if self.step % 2 == 0 && self.lev4 >= 0 {
            writes.push(BandWrite { band: 4, level: self.lev4 as u8 });
            self.lev4 = self.lev4 - 1;
        }
        if self.step % 2 == 0 && self.lev3 >= 0 {
            writes.push(BandWrite { band: 3, level: self.lev3 as u8 });
            self.lev3 = self.lev3 - 1;
        }
        writes
    }
}

/// Law: once the every-step band has written level 0 (after its twelfth
/// step), no later step writes band 5 again.
pub proof fn lemma_band5_silent(done: int)
    requires
        12 <= done,
    ensures
        forall|i: int| 0 <= i < spec_step_writes(done).len() ==> spec_step_writes(done)[i].band != 5,
{
}

/// Law: once the every-other-step bands have written level 0 (after their
/// twenty-fourth step), no later step writes band 4 or band 3 again.
pub proof fn lemma_slow_bands_silent(done: int)
    requires
        24 <= done,
    ensures
        forall|i: int| 0 <= i < spec_step_writes(done).len() ==> spec_step_writes(done)[i].band != 4,
        forall|i: int| 0 <= i < spec_step_writes(done).len() ==> spec_step_writes(done)[i].band != 3,
{
}

} // verus!
