//! Corrective-dose suggestions.
//!
//! Each advisor maps a reading to the exact linear distance to the nearer
//! edge of its target band: hardness works on the reading itself,
//! conductivity on the derived salinity, and pH on the hydrogen-ion
//! concentration `10^(-ph)`. The branch structure is tested in a fixed
//! order and reproduced literally; for pH in particular the first branch
//! (`h > 1e-8`, "add base") covers every concentration above the pH 8
//! edge, so the `NoChange` arm is unreachable for real concentrations.

use vstd::prelude::*;
use crate::quality::QualityLevel;
use crate::quality::spec_eval_hardness;
use crate::quality::spec_eval_salinity;
use crate::quality::spec_salinity_e10;
use crate::quality::salinity_e10;

verus! {

/// Corrective suggestion: add or remove the given non-negative amount of
/// the dosing substance, or leave the water as it is.
///
/// The amount's fixed-point scale follows the quantity the advisor works
/// on: `10^4` for hardness (mg/L CaCO3), `10^10` for salinity (mg/L
/// dissolved solids), `10^14` for hydrogen-ion concentration (mol/L).
#[derive(Clone, Copy, PartialEq, Eq, Structural, Debug)]
pub enum Suggestion {
    Remove(i128),
    Add(i128),
    NoChange,
}

/// Hardness advice (reading scaled by `10^4`): above 100 mg/L remove the
/// excess, below 80 mg/L add the shortfall, else nothing.
pub open spec fn spec_improve_hardness(h: int) -> Suggestion {
    if h > 1_000_000 {
        Suggestion::Remove((h - 1_000_000) as i128)
    } else if h < 800_000 {
        Suggestion::Add((800_000 - h) as i128)
    } else {
        Suggestion::NoChange
    }
}

/// Suggests a hardness correction (mg/L CaCO3, scaled by `10^4`).
pub fn improve_hardness(hardness: i64) -> (s: Suggestion)
    ensures
        s == spec_improve_hardness(hardness as int),
{
    if hardness > 1_000_000 {
        Suggestion::Remove((hardness as i128) - 1_000_000)
    } else if hardness < 800_000 {
        Suggestion::Add(800_000 - (hardness as i128))
    } else {
        Suggestion::NoChange
    }
}

/// pH advice over the hydrogen-ion concentration `10^(-ph)` (mol/L,
/// scaled by `10^14`). The band edges are the concentrations of pH 6
/// (`1e-6`) and pH 8 (`1e-8`); a concentration above the pH 8 edge asks
/// to add base, one below the pH 6 edge asks to remove base.
pub open spec fn spec_improve_ph(h_conc: int) -> Suggestion {
    if h_conc > 1_000_000 {
        Suggestion::Add((h_conc - 1_000_000) as i128)
    } else if h_conc < 100_000_000 {
        Suggestion::Remove((100_000_000 - h_conc) as i128)
    } else {
        Suggestion::NoChange
    }
}

/// Suggests a pH correction from the hydrogen-ion concentration (mol/L,
/// scaled by `10^14`) of the reading.
pub fn improve_ph(h_conc_e14: i64) -> (s: Suggestion)
    ensures
        s == spec_improve_ph(h_conc_e14 as int),
{
    if h_conc_e14 > 1_000_000 {
        Suggestion::Add((h_conc_e14 as i128) - 1_000_000)
    } else if h_conc_e14 < 100_000_000 {
        Suggestion::Remove(100_000_000 - (h_conc_e14 as i128))
    } else {
        Suggestion::NoChange
    }
}

/// Salinity advice (mg/L, scaled by `10^10`): above 120 mg/L remove the
/// excess dissolved solids, below 50 mg/L add the shortfall, else nothing.
pub open spec fn spec_improve_salinity(s: int) -> Suggestion {
    if s > 1_200_000_000_000 {
        Suggestion::Remove((s - 1_200_000_000_000) as i128)
    } else if s < 500_000_000_000 {
        Suggestion::Add((500_000_000_000 - s) as i128)
    } else {
        Suggestion::NoChange
    }
}

/// Largest magnitude a derived salinity can take: the linear fit applied
/// to the extreme `i64` conductivity readings stays below `4 * 10^24`.
pub const SALINITY_ABS_MAX_E10: i128 = 4_000_000_000_000_000_000_000_000;

/// Suggests a dissolved-solids correction from a salinity value (mg/L,
/// scaled by `10^10`).
pub fn improve_salinity(s: i128) -> (r: Suggestion)
    requires
        -SALINITY_ABS_MAX_E10 <= s <= SALINITY_ABS_MAX_E10,
    ensures
        r == spec_improve_salinity(s as int),
{
    if s > 1_200_000_000_000 {
        Suggestion::Remove(s - 1_200_000_000_000)
    } else if s < 500_000_000_000 {
        Suggestion::Add(500_000_000_000 - s)
    } else {
        Suggestion::NoChange
    }
}

/// Suggests a dissolved-solids correction from a conductivity reading
/// (mS/cm, scaled by `10^4`), through the derived salinity.
pub fn improve_cond(cond: i64) -> (r: Suggestion)
    ensures
        r == spec_improve_salinity(spec_salinity_e10(cond as int)),
{
    let s = salinity_e10(cond);
    improve_salinity(s)
}

/// The amount carried by a hardness suggestion is never negative.
pub proof fn lemma_improve_hardness_amount_nonneg(h: int)
    requires
        i64::MIN <= h <= i64::MAX,
    ensures
        match spec_improve_hardness(h) {
            Suggestion::Remove(a) => a >= 0,
            Suggestion::Add(a) => a >= 0,
            Suggestion::NoChange => true,
        },
{
}

/// The amount carried by a pH suggestion is never negative.
pub proof fn lemma_improve_ph_amount_nonneg(h_conc: int)
    requires
        i64::MIN <= h_conc <= i64::MAX,
    ensures
        match spec_improve_ph(h_conc) {
            Suggestion::Remove(a) => a >= 0,
            Suggestion::Add(a) => a >= 0,
            Suggestion::NoChange => true,
        },
{
}

/// The amount carried by a salinity suggestion is never negative.
pub proof fn lemma_improve_salinity_amount_nonneg(s: int)
    requires
        -SALINITY_ABS_MAX_E10 <= s <= SALINITY_ABS_MAX_E10,
    ensures
        match spec_improve_salinity(s) {
            Suggestion::Remove(a) => a >= 0,
            Suggestion::Add(a) => a >= 0,
            Suggestion::NoChange => true,
        },
{
}

/// A salinity suggestion is `NoChange` exactly when the salinity already
/// lies within the target band `[50, 120]` mg/L.
pub proof fn lemma_improve_salinity_nochange_iff(s: int)
    ensures
        spec_improve_salinity(s) == Suggestion::NoChange
            <==> 500_000_000_000 <= s <= 1_200_000_000_000,
{
}

/// The hardness advisor and the hardness evaluator agree on their band:
/// no correction is suggested exactly when the reading classifies `Good`.
pub proof fn lemma_hardness_advice_iff_good(h: int)
    ensures
        spec_improve_hardness(h) == Suggestion::NoChange <==> spec_eval_hardness(h)
            == QualityLevel::Good,
{
}

/// The salinity advisor and the salinity evaluator agree on their band:
/// no correction is suggested exactly when the salinity classifies
/// `Good`.
pub proof fn lemma_salinity_advice_iff_good(s: int)
    ensures
        spec_improve_salinity(s) == Suggestion::NoChange <==> spec_eval_salinity(s)
            == QualityLevel::Good,
{
}

} // verus!
