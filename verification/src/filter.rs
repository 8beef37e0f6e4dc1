//! Adaptive filter controller: classifies each ranging event into a filter
//! type and strength, derives the equalizer writes for it, and maintains the
//! shared region flag and the monotone crossover floor.
//!
//! The controller is a pure state machine: the caller reads one distance
//! sample per ranging interrupt, hands it in, and performs the returned
//! equalizer writes and region-of-interest reprogramming.

use vstd::prelude::*;
use crate::eq::{BandWrite, DEFAULT_EQ_LEVEL, MAX_LEVEL};

verus! {

/// Distance at or beyond which the filter is fully open, in millimeters.
pub const RANGE_BOUNDARY_MM: u16 = 300;
/// Millimeters per strength step below the range boundary.
pub const MM_PER_STEP: u16 = 25;
/// The equalizer band whose level is floor-limited over the session.
pub const CROSSOVER_BAND: u8 = 3;

/// Outcome reported by the ranging sensor for one sample.
#[derive(Clone, Copy, Debug, PartialEq, Eq, Structural)]
pub enum RangeStatus {
    Valid,
    Invalid,
}

/// One distance reading taken on a ranging interrupt.
#[derive(Clone, Copy, Debug, PartialEq, Eq, Structural)]
pub struct DistanceSample {
    pub distance_mm: u16,
    pub status: RangeStatus,
}

/// The two filter colorations the controller can apply.
#[derive(Clone, Copy, Debug, PartialEq, Eq, Structural)]
pub enum FilterType {
    Hpf,
    Lpf,
}

/// A rectangular region-of-interest window of the ranging sensor, given as
/// two corner coordinates in the sensor's 16x16 grid.
#[derive(Clone, Copy, Debug, PartialEq, Eq, Structural)]
pub struct RoiWindow {
    pub tl_x: u8,
    pub tl_y: u8,
    pub br_x: u8,
    pub br_y: u8,
}

/// The region-of-interest window programmed at sensor setup: the right half
/// of the field of view.
pub fn initial_roi() -> (r: RoiWindow)
    ensures
        r == (RoiWindow { tl_x: 8, tl_y: 15, br_x: 15, br_y: 0 }),
{
    RoiWindow { tl_x: 8, tl_y: 15, br_x: 15, br_y: 0 }
}

/// The region-of-interest window programmed after every handled event.
pub open spec fn spec_interrupt_roi() -> RoiWindow {
    RoiWindow { tl_x: 0, tl_y: 0, br_x: 7, br_y: 15 }
}

/// The region-of-interest window reprogrammed after every handled event.
/// Both controller branches select this same window, so after the first
/// event the sensor keeps sampling the same half of its field of view.
pub fn interrupt_roi() -> (r: RoiWindow)
    ensures
        r == spec_interrupt_roi(),
{
    RoiWindow { tl_x: 0, tl_y: 0, br_x: 7, br_y: 15 }
}

/// Strength assigned to a measured distance: one step per 25 mm below the
/// 300 mm boundary, and fully open (12) at or beyond it.
pub open spec fn spec_strength(distance_mm: u16) -> int {
    if distance_mm < RANGE_BOUNDARY_MM {
        distance_mm as int / MM_PER_STEP as int
    } else {
        MAX_LEVEL as int
    }
}

/// Maps a distance reading to a filter strength. Closer objects give lower
/// strength, which colors the output more strongly.
pub fn strength_for_distance(distance_mm: u16) -> (r: u8)
    ensures
        r == spec_strength(distance_mm),
        r <= MAX_LEVEL,
        distance_mm >= RANGE_BOUNDARY_MM ==> r == MAX_LEVEL,
{
    if distance_mm < RANGE_BOUNDARY_MM {
        (distance_mm / MM_PER_STEP) as u8
    } else {
        MAX_LEVEL
    }
}

/// The two equalizer writes a filter application makes: a low-pass
/// coloration writes bands 1 and 2, a high-pass coloration bands 4 and 5,
/// in both cases a third of the strength to the first band and half of it
/// to the second.
pub open spec fn spec_filter_writes(filter: FilterType, strength: u8) -> Seq<BandWrite> {
    match filter {
        FilterType::Lpf => seq![
            BandWrite { band: 1, level: (strength as int / 3) as u8 },
            BandWrite { band: 2, level: (strength as int / 2) as u8 },
        ],
        FilterType::Hpf => seq![
            BandWrite { band: 4, level: (strength as int / 3) as u8 },
            BandWrite { band: 5, level: (strength as int / 2) as u8 },
        ],
    }
}

/// The crossover floor after one further strength observation: the minimum
/// of the current floor and the new strength.
pub open spec fn spec_floor_step(floor: u8, strength: u8) -> u8 {
    if strength < floor {
        strength
    } else {
        floor
    }
}

/// Shared adaptive-filter state: which sensing region is marked active, and
/// the smallest strength observed so far for the crossover band.
pub struct ControllerState {
    pub region_flag: bool,
    pub crossover_floor: u8,
}

impl ControllerState {
    /// The floor never leaves the valid level range.
    pub open spec fn wf(self) -> bool {
        self.crossover_floor <= MAX_LEVEL
    }

    /// The state before any ranging event: the first region is marked active
    /// and the floor sits at the default band level.
    pub fn new() -> (r: Self)
        ensures
            r.wf(),
            r.region_flag,
            r.crossover_floor == DEFAULT_EQ_LEVEL,
    {
        ControllerState { region_flag: true, crossover_floor: DEFAULT_EQ_LEVEL }
    }

    /// Applies one filter at the given strength: emits the two coloration
    /// writes for the chosen bands, lowers the crossover floor to the
    /// minimum of its old value and the strength, and emits the floor as a
    /// write of the crossover band. The region flag is untouched.
    pub fn apply_filter(&mut self, filter: FilterType, strength: u8) -> (writes: Vec<BandWrite>)
        requires
            old(self).wf(),
            strength <= MAX_LEVEL,
        ensures
            final(self).wf(),
            final(self).region_flag == old(self).region_flag,
            final(self).crossover_floor == spec_floor_step(old(self).crossover_floor, strength),
            final(self).crossover_floor <= old(self).crossover_floor,
            writes@ == spec_filter_writes(filter, strength).push(
                (BandWrite { band: CROSSOVER_BAND, level: final(self).crossover_floor }),
            ),
            forall|i: int| 0 <= i < writes@.len() ==> writes@[i].wf(),
    {
        let mut writes: Vec<BandWrite> = Vec::new();
        match filter {
            FilterType::Lpf => {
                writes.push(BandWrite { band: 1, level: strength / 3 });
                writes.push(BandWrite { band: 2, level: strength / 2 });
            },
            FilterType::Hpf => {
                writes.push(BandWrite { band: 4, level: strength / 3 });
                writes.push(BandWrite { band: 5, level: strength / 2 });
            },
        }
        if strength < self.crossover_floor {
            self.crossover_floor = strength;
        }
        writes.push(BandWrite { band: CROSSOVER_BAND, level: self.crossover_floor });
        writes
    }

    /// Handles one ranging interrupt. A sample with a non-valid status is
    /// discarded: no state change and no writes. A valid sample is mapped to
    /// a strength; the low-pass coloration is applied while the region flag
    /// is set and the high-pass coloration once it is clear, and either
    /// branch then clears the flag, so every event after the first takes the
    /// high-pass branch. The returned response carries the equalizer writes
    /// and the region-of-interest window to program before returning.
    pub fn handle_ranging_event(&mut self, sample: DistanceSample) -> (r: Option<EventResponse>)
        requires
            old(self).wf(),
        ensures
            final(self).wf(),
            r is Some <==> sample.status is Valid,
            sample.status is Invalid ==> *final(self) == *old(self),
            sample.status is Valid ==> {
                let strength = spec_strength(sample.distance_mm) as u8;
                let filter = if old(self).region_flag {
                    FilterType::Lpf
                } else {
                    FilterType::Hpf
                };
                &&& !final(self).region_flag
                &&& final(self).crossover_floor == spec_floor_step(
                    old(self).crossover_floor,
                    strength,
                )
                &&& final(self).crossover_floor <= old(self).crossover_floor
                &&& r->0.writes@ == spec_filter_writes(filter, strength).push(
                    (BandWrite { band: CROSSOVER_BAND, level: final(self).crossover_floor }),
                )
                &&& r->0.roi == spec_interrupt_roi()
            },
    {
        match sample.status {
            RangeStatus::Valid => {
                let strength = strength_for_distance(sample.distance_mm);
                let writes = if self.region_flag {
                    self.apply_filter(FilterType::Lpf, strength)
                } else {
                    self.apply_filter(FilterType::Hpf, strength)
                };
                self.region_flag = false;
                Some(EventResponse { writes, roi: interrupt_roi() })
            },
            RangeStatus::Invalid => None,
        }
    }
}

/// What the caller must do after a handled ranging event: store the
/// equalizer writes in order, then program the sensor's region-of-interest
/// window.
pub struct EventResponse {
    pub writes: Vec<BandWrite>,
    pub roi: RoiWindow,
}

/// The crossover floor after a whole sequence of strength observations,
/// starting from `init`.
pub open spec fn spec_floor_after(init: u8, strengths: Seq<u8>) -> u8
    decreases strengths.len(),
{
    if strengths.len() == 0 {
        init
    } else {
        spec_floor_step(spec_floor_after(init, strengths.drop_last()), strengths.last())
    }
}

/// Law: the crossover floor is monotonically non-increasing across a
/// sequence of controller events; one further observation never raises it.
pub proof fn lemma_floor_monotone(init: u8, strengths: Seq<u8>, s: u8)
    ensures
        spec_floor_after(init, strengths.push(s)) <= spec_floor_after(init, strengths),
{
    assert(strengths.push(s).drop_last() =~= strengths);
    assert(strengths.push(s).last() == s);
}

/// Law: the crossover floor never exceeds the value it started from.
pub proof fn lemma_floor_bounded(init: u8, strengths: Seq<u8>)
    ensures
        spec_floor_after(init, strengths) <= init,
    decreases strengths.len(),
{
    if strengths.len() > 0 {
        lemma_floor_bounded(init, strengths.drop_last());
    }
}

} // verus!
