//! Harmony planning: derives the correction ratio from a detected
//! fundamental frequency and the three per-voice playback-speed multipliers
//! from it.
//!
//! Frequencies are carried as integer millihertz and speed multipliers as
//! exact rational numbers, so every multiplier is pinned precisely: the
//! correction is `target / estimate` and voice `i` plays at
//! `interval_ratio_i * correction`, with the fixed interval ratios
//! 1.000, 1.260 and 1.498 kept in thousandths.

use vstd::prelude::*;

verus! {

/// The fixed target pitch, in millihertz (523.2 Hz).
pub const TARGET_FREQ_MHZ: u32 = 523200;
/// Interval ratios are kept in thousandths; this is the scale.
pub const RATIO_SCALE: u32 = 1000;
/// Interval ratio of the base voice, in thousandths.
pub const BASE_RATIO_MILLI: u32 = 1000;
/// Interval ratio of the second voice, in thousandths.
pub const SECOND_RATIO_MILLI: u32 = 1260;
/// Interval ratio of the third voice, in thousandths.
pub const THIRD_RATIO_MILLI: u32 = 1498;
/// Largest estimate frequency the planner accepts, in millihertz; far above
/// anything a detector at an audio sample rate can report, this bound only
/// keeps the rational arithmetic inside the machine word.
pub const MAX_FREQ_MHZ: i64 = 1000000000000;

/// A pitch estimate produced by the detector, reduced to its fundamental
/// frequency in millihertz. The detector's power and clarity gates decide
/// whether an estimate exists at all; a failed analysis hands the planner
/// no estimate.
#[derive(Clone, Copy, Debug, PartialEq, Eq, Structural)]
pub struct PitchEstimate {
    pub freq_mhz: i64,
}

/// Why harmony planning failed.
#[derive(Clone, Copy, Debug, PartialEq, Eq, Structural)]
pub enum HarmonyError {
    /// The analysis produced no pitch estimate.
    NoPitchDetected,
    /// The estimate's frequency was zero or negative.
    DegeneratePitch,
}

/// A strictly positive rational number, kept as numerator and denominator.
#[derive(Clone, Copy, Debug, PartialEq, Eq, Structural)]
pub struct Ratio {
    pub num: u64,
    pub den: u64,
}

/// Two fractions denote the same rational number exactly when they agree
/// under cross multiplication.
pub open spec fn spec_frac_eq(n1: int, d1: int, n2: int, d2: int) -> bool {
    n1 * d2 == n2 * d1
}

impl Ratio {
    /// A ratio is well formed when both parts are nonzero, which makes its
    /// value strictly positive and finite.
    pub open spec fn wf(self) -> bool {
        self.num >= 1 && self.den >= 1
    }

    /// The ratio rounded down to a fixed-point value in units of
    /// `1 / scale`.
    pub fn to_scaled(&self, scale: u64) -> (r: u64)
        requires
            self.wf(),
            self.num * scale <= u64::MAX,
        ensures
            r == self.num * scale / self.den as int,
    {
        self.num * scale / self.den
    }
}

/// The interval ratios of the three voices, in thousandths.
pub open spec fn spec_ratios() -> Seq<int> {
    seq![BASE_RATIO_MILLI as int, SECOND_RATIO_MILLI as int, THIRD_RATIO_MILLI as int]
}

/// Numerator of the exact speed multiplier of voice `i` for a target
/// frequency: the voice's interval ratio (in thousandths) times the target.
pub open spec fn spec_speed_num(target_mhz: int, i: int) -> int {
    spec_ratios()[i] * target_mhz
}

/// Denominator of the exact speed multiplier for an estimate frequency: the
/// ratio scale times the estimate.
pub open spec fn spec_speed_den(freq_mhz: int) -> int {
    RATIO_SCALE as int * freq_mhz
}

/// The planned harmony: the correction ratio and the three voice speed
/// multipliers, base voice first.
#[derive(Debug)]
pub struct HarmonyPlan {
    pub correction: Ratio,
    pub speeds: Vec<Ratio>,
}

impl HarmonyPlan {
    /// Every ratio of the plan is well formed, there are exactly three
    /// voices, and each voice speed is its interval ratio times the
    /// correction.
    pub open spec fn wf(self) -> bool {
        &&& self.correction.wf()
        &&& self.speeds@.len() == 3
        &&& forall|i: int| 0 <= i < 3 ==> self.speeds@[i].wf()
        &&& forall|i: int|
            0 <= i < 3 ==> spec_frac_eq(
                self.speeds@[i].num as int,
                self.speeds@[i].den as int,
                spec_ratios()[i] * self.correction.num,
                RATIO_SCALE as int * self.correction.den,
            )
    }
}

/// Plans the three-voice harmony for a target frequency and a pitch
/// estimate. Fails when no estimate exists, and, defensively, when the
/// estimate's frequency is zero or negative; otherwise the correction is
/// exactly `target / estimate` and voice `i` plays at exactly
/// `interval_ratio_i * correction`, all strictly positive.
pub fn plan_harmony(target_mhz: u32, estimate: Option<PitchEstimate>) -> (r: Result<
    HarmonyPlan,
    HarmonyError,
>)
    requires
        target_mhz >= 1,
        estimate matches Some(e) ==> e.freq_mhz <= MAX_FREQ_MHZ,
    ensures
        estimate is None <==> r == Result::<HarmonyPlan, HarmonyError>::Err(
            HarmonyError::NoPitchDetected,
        ),
        (estimate matches Some(e) && e.freq_mhz <= 0) <==> r == Result::<
            HarmonyPlan,
            HarmonyError,
        >::Err(HarmonyError::DegeneratePitch),
        (estimate matches Some(e) && e.freq_mhz > 0) <==> r is Ok,
        r matches Ok(plan) ==> {
            let f = estimate->0.freq_mhz as int;
            &&& plan.wf()
            &&& plan.correction.num == target_mhz
            &&& plan.correction.den == f
            &&& forall|i: int|
                0 <= i < 3 ==> plan.speeds@[i].num == spec_speed_num(target_mhz as int, i)
            &&& forall|i: int| 0 <= i < 3 ==> plan.speeds@[i].den == spec_speed_den(f)
        },
{
    match estimate {
        None => Err(HarmonyError::NoPitchDetected),
        Some(e) => {
            if e.freq_mhz <= 0 {
                Err(HarmonyError::DegeneratePitch)
            } else {
                let f = e.freq_mhz as u64;
                let den: u64 = (RATIO_SCALE as u64) * f;
                let correction = Ratio { num: target_mhz as u64, den: f };
                let mut speeds: Vec<Ratio> = Vec::new();
                speeds.push(Ratio { num: (BASE_RATIO_MILLI as u64) * (target_mhz as u64), den });
                speeds.push(Ratio { num: (SECOND_RATIO_MILLI as u64) * (target_mhz as u64), den });
                speeds.push(Ratio { num: (THIRD_RATIO_MILLI as u64) * (target_mhz as u64), den });
                let plan = HarmonyPlan { correction, speeds };
                proof {
                    assert(plan.wf()) by (nonlinear_arith)
                        requires
                            plan.correction.num == target_mhz as int,
                            plan.correction.den == e.freq_mhz as int,
                            0 < target_mhz,
                            0 < e.freq_mhz,
                            plan.speeds@.len() == 3,
                            plan.speeds@[0].num == 1000 * target_mhz as int,
                            plan.speeds@[1].num == 1260 * target_mhz as int,
                            plan.speeds@[2].num == 1498 * target_mhz as int,
                            plan.speeds@[0].den == 1000 * e.freq_mhz as int,
                            plan.speeds@[1].den == 1000 * e.freq_mhz as int,
                            plan.speeds@[2].den == 1000 * e.freq_mhz as int,
                    ;
                }
                Ok(plan)
            }
        },
    }
}

/// Law: with the target held fixed, changing the estimate frequency rescales
/// every voice speed by the same inverse factor. For any two estimate
/// frequencies, `speed_i(f1) * f1` and `speed_i(f2) * f2` are the same
/// rational for each voice `i`, and the proportion between any two voices,
/// `speed_i / speed_j = ratio_i / ratio_j`, does not depend on the estimate
/// at all.
pub proof fn lemma_speeds_scale_inversely(target_mhz: int, f1: int, f2: int, i: int, j: int)
    requires
        0 < target_mhz,
        0 < f1,
        0 < f2,
        0 <= i < 3,
        0 <= j < 3,
    ensures
        spec_frac_eq(
            spec_speed_num(target_mhz, i) * f1,
            spec_speed_den(f1),
            spec_speed_num(target_mhz, i) * f2,
            spec_speed_den(f2),
        ),
        spec_frac_eq(
            spec_speed_num(target_mhz, i) * spec_ratios()[j],
            spec_speed_den(f1),
            spec_speed_num(target_mhz, j) * spec_ratios()[i],
            spec_speed_den(f1),
        ),
{
    let ri = spec_ratios()[i];
    let rj = spec_ratios()[j];
    assert((ri * target_mhz * f1) * (1000 * f2) == (ri * target_mhz * f2) * (1000 * f1))
        by (nonlinear_arith);
    assert((ri * target_mhz * rj) * (1000 * f1) == (rj * target_mhz * ri) * (1000 * f1))
        by (nonlinear_arith);
}

} // verus!
