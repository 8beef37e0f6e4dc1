//! Equalizer band model: validated band writes, the band-to-mixer-control
//! mapping, and a model of the five stored band levels.
//!
//! A band is addressed by an index in `1..=5` and holds an integer level in
//! `0..=12`. Writes outside either range are rejected and never stored.

use vstd::prelude::*;

verus! {

/// Lowest addressable equalizer band index.
pub const MIN_BAND: u8 = 1;
/// Highest addressable equalizer band index.
pub const MAX_BAND: u8 = 5;
/// Largest level an equalizer band can hold.
pub const MAX_LEVEL: u8 = 12;
/// Level every band holds before any write.
pub const DEFAULT_EQ_LEVEL: u8 = 12;
/// Offset between a band index and the mixer's numeric control identifier.
pub const NUMID_OFFSET: u8 = 9;

/// One validated equalizer write: `band` lies in `1..=5` and `level` in
/// `0..=12`.
#[derive(Clone, Copy, Debug, PartialEq, Eq, Structural)]
pub struct BandWrite {
    pub band: u8,
    pub level: u8,
}

impl BandWrite {
    /// A write is well formed when both its band index and its level are in
    /// range.
    pub open spec fn wf(self) -> bool {
        MIN_BAND <= self.band <= MAX_BAND && self.level <= MAX_LEVEL
    }
}

/// Whether a requested `(band, level)` pair is acceptable: band in `1..=5`,
/// level in `0..=12`.
pub open spec fn spec_write_ok(band: u8, level: i8) -> bool {
    MIN_BAND <= band <= MAX_BAND && 0 <= level <= MAX_LEVEL
}

/// Validates a requested band write. Returns the write when the band index
/// and level are both in range, and nothing otherwise.
pub fn validate_write(band: u8, level: i8) -> (r: Option<BandWrite>)
    ensures
        spec_write_ok(band, level) <==> r is Some,
        r is Some ==> r->0 == (BandWrite { band, level: level as u8 }),
        r is Some ==> r->0.wf(),
{
    if band >= MIN_BAND && band <= MAX_BAND && level >= 0 && level as u8 <= MAX_LEVEL {
        Some(BandWrite { band, level: level as u8 })
    } else {
        None
    }
}

/// Maps a band index to the mixer's numeric control identifier, which is the
/// band index plus nine.
pub fn numid_for_band(band: u8) -> (r: u8)
    requires
        MIN_BAND <= band <= MAX_BAND,
    ensures
        r == band + NUMID_OFFSET,
{
    band + NUMID_OFFSET
}

/// The five stored band levels. `levels[i]` holds the level of band `i + 1`.
pub struct EqState {
    pub levels: Vec<u8>,
}

impl EqState {
    /// The state is well formed when all five bands exist and every stored
    /// level is in range.
    pub open spec fn wf(self) -> bool {
        &&& self.levels@.len() == 5
        &&& forall|i: int| 0 <= i < 5 ==> self.levels@[i] <= MAX_LEVEL
    }

    /// The stored level of `band`, for bands `1..=5`.
    pub open spec fn spec_level(self, band: int) -> int {
        self.levels@[band - 1] as int
    }

    /// A fresh state with every band at the default level.
    pub fn new() -> (r: Self)
        ensures
            r.wf(),
            forall|b: int| MIN_BAND <= b <= MAX_BAND ==> r.spec_level(b) == DEFAULT_EQ_LEVEL,
    {
        let mut levels: Vec<u8> = Vec::new();
        let mut i: usize = 0;
        while i < 5
            invariant
                i <= 5,
                levels@.len() == i,
                forall|j: int| 0 <= j < i ==> levels@[j] == DEFAULT_EQ_LEVEL,
            decreases 5 - i,
        {
            levels.push(DEFAULT_EQ_LEVEL);
            i = i + 1;
        }
        EqState { levels }
    }

    /// Reads the stored level of `band`.
    pub fn level(&self, band: u8) -> (r: u8)
        requires
            self.wf(),
            MIN_BAND <= band <= MAX_BAND,
        ensures
            r == self.spec_level(band as int),
            r <= MAX_LEVEL,
    {
        self.levels[(band - 1) as usize]
    }

    /// Stores an already validated write.
    pub fn apply(&mut self, w: BandWrite)
        requires
            old(self).wf(),
            w.wf(),
        ensures
            final(self).wf(),
            final(self).spec_level(w.band as int) == w.level,
            forall|b: int|
                MIN_BAND <= b <= MAX_BAND && b != w.band ==> final(self).spec_level(b) == old(
                    self,
                ).spec_level(b),
    {
        self.levels.set((w.band - 1) as usize, w.level);
    }

    /// Requests a band write with unchecked inputs: the write is stored
    /// exactly when the band index and the level are both in range, and the
    /// state is untouched otherwise. Returns whether the write was stored.
    pub fn write(&mut self, band: u8, level: i8) -> (stored: bool)
        requires
            old(self).wf(),
        ensures
            final(self).wf(),
            stored <==> spec_write_ok(band, level),
            stored ==> final(self).spec_level(band as int) == level,
            stored ==> forall|b: int|
                MIN_BAND <= b <= MAX_BAND && b != band ==> final(self).spec_level(b) == old(
                    self,
                ).spec_level(b),
            !stored ==> *final(self) == *old(self),
    {
        match validate_write(band, level) {
            Some(w) => {
                self.apply(w);
                true
            },
            None => false,
        }
    }
}

/// The writes that initialize the equalizer: every band `1..=5` is set to the
/// default level, in ascending band order.
pub fn init_eq_writes() -> (r: Vec<BandWrite>)
    ensures
        r@.len() == 5,
        forall|i: int|
            0 <= i < 5 ==> r@[i] == (BandWrite { band: (i + 1) as u8, level: DEFAULT_EQ_LEVEL }),
        forall|i: int| 0 <= i < 5 ==> r@[i].wf(),
{
    let mut r: Vec<BandWrite> = Vec::new();
    let mut band: u8 = MIN_BAND;
    while band <= MAX_BAND
        invariant
            MIN_BAND <= band <= MAX_BAND + 1,
            r@.len() == band - 1,
            forall|i: int|
                0 <= i < band - 1 ==> r@[i] == (BandWrite {
                    band: (i + 1) as u8,
                    level: DEFAULT_EQ_LEVEL,
                }),
        decreases MAX_BAND + 1 - band,
    {
        r.push(BandWrite { band, level: DEFAULT_EQ_LEVEL });
        band = band + 1;
    }
    r
}

} // verus!
