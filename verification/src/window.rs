//! Sample acquisition: extracts the fixed-size analysis window from the
//! stream of decoded playback events of a completed recording. Pure data
//! extraction; events that carry no sample contribute silence.

use vstd::prelude::*;

verus! {

/// Number of samples the pitch analysis window holds.
pub const WINDOW_SIZE: usize = 1024;
/// Padding the detector is configured with: half the window.
pub const WINDOW_PADDING: usize = WINDOW_SIZE / 2;
/// Sample rate of the recording, in hertz.
pub const SAMPLE_RATE_HZ: u32 = 48000;

/// The sample an event contributes to the window: its own value when it
/// carries one, and silence otherwise.
pub open spec fn spec_event_sample(event: Option<i16>) -> i16 {
    match event {
        Some(s) => s,
        None => 0,
    }
}

/// Builds the analysis window from the first `WINDOW_SIZE` decoded events,
/// each event being either a sample or something else (which contributes
/// silence). Fails when the stream holds fewer events than the window
/// needs.
pub fn acquire_window(events: &Vec<Option<i16>>) -> (r: Option<Vec<i16>>)
    ensures
        r is Some <==> events@.len() >= WINDOW_SIZE,
        r matches Some(w) ==> {
            &&& w@.len() == WINDOW_SIZE
            &&& forall|i: int| 0 <= i < WINDOW_SIZE ==> w@[i] == spec_event_sample(events@[i])
        },
{
    if events.len() < WINDOW_SIZE {
        return None;
    }
    let mut w: Vec<i16> = Vec::new();
    let mut i: usize = 0;
    while i < WINDOW_SIZE
        invariant
            i <= WINDOW_SIZE,
            events@.len() >= WINDOW_SIZE,
            w@.len() == i,
            forall|j: int| 0 <= j < i ==> w@[j] == spec_event_sample(events@[j]),
        decreases WINDOW_SIZE - i,
    {
        let s = match events[i] {
            Some(s) => s,
            None => 0,
        };
        w.push(s);
        i = i + 1;
    }
    Some(w)
}

} // verus!
