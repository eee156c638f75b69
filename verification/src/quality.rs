//! Per-parameter quality classification.
//!
//! A reading is classified into one of three bands, `Poor`, `Ok` or `Good`.
//! Each evaluator tests its branches in a fixed order — the `Poor` bounds
//! first, then the `Ok` bounds — and the first matching branch wins; the
//! bands deliberately reuse the same relational direction in both tests, so
//! a value must fail both `Poor` bounds before the `Ok` test is reached.

use vstd::prelude::*;

verus! {

/// Readings are fixed-point integers scaled by `10^4`.
pub const READING_SCALE_E4: i64 = 10_000;

/// Largest reading the engine accepts, scaled by `10^4`: readings up to
/// `10^12` in natural units. The cap keeps every aggregate the statistics
/// compute — sums of squares across a store — inside `i128`.
pub const READING_MAX_E4: i64 = 10_000_000_000_000_000;

/// Quality band for a single reading. Desirability orders
/// `Poor < Ok < Good`.
#[derive(Clone, Copy, PartialEq, Eq, Structural, Debug)]
pub enum QualityLevel {
    Poor,
    Okay,
    Good,
}

/// The three measured water parameters.
#[derive(Clone, Copy, PartialEq, Eq, Structural, Debug)]
pub enum Parameter {
    Ph,
    Conductivity,
    Hardness,
}

/// Two-character display code of a quality band.
pub open spec fn spec_code(q: QualityLevel) -> Seq<char> {
    match q {
        QualityLevel::Good => "OK"@,
        QualityLevel::Okay => "ME"@,
        QualityLevel::Poor => "XD"@,
    }
}

impl QualityLevel {
    /// Two-character code shown on the status screen.
    pub fn code(&self) -> (r: &'static str)
        ensures
            r@ == spec_code(*self),
    {
        match *self {
            QualityLevel::Good => "OK",
            QualityLevel::Okay => "ME",
            QualityLevel::Poor => "XD",
        }
    }
}

/// A reading meets the standard when it is not classified `Poor`.
pub open spec fn spec_meets_standard(q: QualityLevel) -> bool {
    match q {
        QualityLevel::Poor => false,
        _ => true,
    }
}

/// Hardness bands (mg/L CaCO3, scaled by `10^4`): `Poor` outside
/// `[60, 150]`, then `Ok` outside `[80, 100]`, else `Good`.
pub open spec fn spec_eval_hardness(h: int) -> QualityLevel {
    if h > 1_500_000 || h < 600_000 {
        QualityLevel::Poor
    } else if h > 1_000_000 || h < 800_000 {
        QualityLevel::Okay
    } else {
        QualityLevel::Good
    }
}

/// Classifies a hardness reading (mg/L CaCO3, scaled by `10^4`).
pub fn eval_hardness(hardness: i64) -> (q: QualityLevel)
    ensures
        q == spec_eval_hardness(hardness as int),
{
    if hardness > 1_500_000 || hardness < 600_000 {
        QualityLevel::Poor
    } else if hardness > 1_000_000 || hardness < 800_000 {
        QualityLevel::Okay
    } else {
        QualityLevel::Good
    }
}

/// pH bands (scaled by `10^4`): `Poor` outside `[6.0, 8.5]`, then `Ok`
/// outside `[6.5, 8.0]`, else `Good`.
pub open spec fn spec_eval_ph(ph: int) -> QualityLevel {
    if ph > 85_000 || ph < 60_000 {
        QualityLevel::Poor
    } else if ph > 80_000 || ph < 65_000 {
        QualityLevel::Okay
    } else {
        QualityLevel::Good
    }
}

/// Classifies a pH reading (scaled by `10^4`).
pub fn eval_ph(ph: i64) -> (q: QualityLevel)
    ensures
        q == spec_eval_ph(ph as int),
{
    if ph > 85_000 || ph < 60_000 {
        QualityLevel::Poor
    } else if ph > 80_000 || ph < 65_000 {
        QualityLevel::Okay
    } else {
        QualityLevel::Good
    }
}

/// Salinity (mg/L total dissolved solids, scaled by `10^10`) derived from a
/// conductivity reading (mS/cm, scaled by `10^4`) through the linear fit
/// `(0.7317 * cond - 3.7635) * 0.55`.
pub open spec fn spec_salinity_e10(cond: int) -> int {
    55 * (7317 * cond - 376_350_000)
}

/// Computes the derived salinity of a conductivity reading, exactly.
pub fn salinity_e10(cond: i64) -> (s: i128)
    ensures
        s == spec_salinity_e10(cond as int),
{
    55 * (7317 * (cond as i128) - 376_350_000)
}

/// Salinity bands (mg/L, scaled by `10^10`): `Poor` outside `[10, 180]`,
/// then `Ok` outside `[50, 120]`, else `Good`.
pub open spec fn spec_eval_salinity(s: int) -> QualityLevel {
    if s > 1_800_000_000_000 || s < 100_000_000_000 {
        QualityLevel::Poor
    } else if s > 1_200_000_000_000 || s < 500_000_000_000 {
        QualityLevel::Okay
    } else {
        QualityLevel::Good
    }
}

/// Classifies a salinity value (mg/L, scaled by `10^10`).
pub fn eval_salinity(s: i128) -> (q: QualityLevel)
    ensures
        q == spec_eval_salinity(s as int),
{
    if s > 1_800_000_000_000 || s < 100_000_000_000 {
        QualityLevel::Poor
    } else if s > 1_200_000_000_000 || s < 500_000_000_000 {
        QualityLevel::Okay
    } else {
        QualityLevel::Good
    }
}

/// Classifies a conductivity reading (mS/cm, scaled by `10^4`) by its
/// derived salinity.
pub fn eval_cond(cond: i64) -> (q: QualityLevel)
    ensures
        q == spec_eval_salinity(spec_salinity_e10(cond as int)),
{
    let s = salinity_e10(cond);
    eval_salinity(s)
}

/// Classification of one parameter's reading (scaled by `10^4`).
pub open spec fn spec_eval_param(p: Parameter, v: int) -> QualityLevel {
    match p {
        Parameter::Ph => spec_eval_ph(v),
        Parameter::Conductivity => spec_eval_salinity(spec_salinity_e10(v)),
        Parameter::Hardness => spec_eval_hardness(v),
    }
}

/// Classifies a reading (scaled by `10^4`) of the given parameter.
pub fn eval_param(p: Parameter, v: i64) -> (q: QualityLevel)
    ensures
        q == spec_eval_param(p, v as int),
{
    match p {
        Parameter::Ph => eval_ph(v),
        Parameter::Conductivity => eval_cond(v),
        Parameter::Hardness => eval_hardness(v),
    }
}

/// Every pH reading within `[6.5, 8.0]` is classified `Good`. Below 6.5
/// the second branch pair fires (`ph < 6.5` yields `Okay`), so the `Good`
/// band starts at 6.5, not at the lower `Poor` bound of 6.0.
pub proof fn lemma_ph_in_band_good(ph: int)
    requires
        65_000 <= ph <= 80_000,
    ensures
        spec_eval_ph(ph) == QualityLevel::Good,
{
}

/// Every hardness reading within `[80, 100]` mg/L is classified `Good`.
pub proof fn lemma_hardness_in_band_good(h: int)
    requires
        800_000 <= h <= 1_000_000,
    ensures
        spec_eval_hardness(h) == QualityLevel::Good,
{
}

} // verus!
