//! Session decisions: menu dispatch, key decoding, and the assessment of
//! one completed entry.
//!
//! The blocking loop around these decisions — polling the keypad, writing
//! screens, delaying — lives with the peripherals; everything it decides
//! is a function here, from plain values to plain values.

use vstd::prelude::*;
use crate::advice::Suggestion;
use crate::advice::spec_improve_hardness;
use crate::advice::spec_improve_ph;
use crate::advice::spec_improve_salinity;
use crate::advice::improve_cond;
use crate::advice::improve_hardness;
use crate::advice::improve_ph;
use crate::quality::QualityLevel;
use crate::quality::spec_eval_hardness;
use crate::quality::spec_eval_ph;
use crate::quality::spec_eval_salinity;
use crate::quality::spec_salinity_e10;
use crate::quality::eval_cond;
use crate::quality::eval_hardness;
use crate::quality::eval_ph;
use crate::render::AMOUNT_MAX;
use crate::store::WaterData;

verus! {

/// What a keypad symbol means once read: the confirm key acts as enter
/// (the idle symbol), the star key as the decimal point, and any other
/// key stands for itself.
pub open spec fn spec_decode_key(c: char) -> char {
    if c == '#' {
        ' '
    } else if c == '*' {
        '.'
    } else {
        c
    }
}

/// Decodes one pressed key.
pub fn decode_key(c: char) -> (r: char)
    ensures
        r == spec_decode_key(c),
{
    if c == '#' {
        ' '
    } else if c == '*' {
        '.'
    } else {
        c
    }
}

/// The operator's choice on the main menu.
#[derive(Clone, Copy, PartialEq, Eq, Structural, Debug)]
pub enum MenuChoice {
    /// Enter a new sample.
    NewEntry,
    /// Show the statistics summary.
    ShowSummary,
    /// Any other key: show the menu again.
    Invalid,
}

/// The menu selection a key stands for.
pub open spec fn spec_menu_choice(key: char) -> MenuChoice {
    if key == '1' {
        MenuChoice::NewEntry
    } else if key == '2' {
        MenuChoice::ShowSummary
    } else {
        MenuChoice::Invalid
    }
}

/// Dispatches a menu keypress.
pub fn menu_choice(key: char) -> (r: MenuChoice)
    ensures
        r == spec_menu_choice(key),
{
    if key == '1' {
        MenuChoice::NewEntry
    } else if key == '2' {
        MenuChoice::ShowSummary
    } else {
        MenuChoice::Invalid
    }
}

/// The composite status of an entry: `Poor` when pH or hardness is
/// `Poor`, else `Good`. Conductivity does not enter the composite, and
/// an `Okay` reading still leaves it `Good`.
pub open spec fn spec_total_status(ph_q: QualityLevel, hard_q: QualityLevel) -> QualityLevel {
    if ph_q == QualityLevel::Poor || hard_q == QualityLevel::Poor {
        QualityLevel::Poor
    } else {
        QualityLevel::Good
    }
}

/// The complete assessment of one entry: the three classifications, the
/// composite status, and the three corrective suggestions.
#[derive(Clone, Copy, PartialEq, Eq, Structural, Debug)]
pub struct EntryReport {
    pub ph_q: QualityLevel,
    pub cond_q: QualityLevel,
    pub hardness_q: QualityLevel,
    pub total_q: QualityLevel,
    pub ph_suggestion: Suggestion,
    pub cond_suggestion: Suggestion,
    pub hardness_suggestion: Suggestion,
}

/// Assesses one completed entry.
///
/// The pH advisory works on the hydrogen-ion concentration `10^(-ph)`
/// (mol/L, scaled by `10^14`), which the caller derives from the pH
/// reading; everything else derives from the sample itself. Every
/// suggested amount is non-negative and small enough for the two-decimal
/// display format.
pub fn process_entry(d: &WaterData, h_conc_e14: i64) -> (r: EntryReport)
    ensures
        r.ph_q == spec_eval_ph(d.ph as int),
        r.cond_q == spec_eval_salinity(spec_salinity_e10(d.cond as int)),
        r.hardness_q == spec_eval_hardness(d.hardness as int),
        r.total_q == spec_total_status(r.ph_q, r.hardness_q),
        r.ph_suggestion == spec_improve_ph(h_conc_e14 as int),
        r.cond_suggestion == spec_improve_salinity(spec_salinity_e10(d.cond as int)),
        r.hardness_suggestion == spec_improve_hardness(d.hardness as int),
        suggestion_in_display_range(r.ph_suggestion),
        suggestion_in_display_range(r.cond_suggestion),
        suggestion_in_display_range(r.hardness_suggestion),
{
    let ph_q = eval_ph(d.ph);
    let cond_q = eval_cond(d.cond);
    let hardness_q = eval_hardness(d.hardness);
    let total_q = if matches!(ph_q, QualityLevel::Poor) || matches!(
        hardness_q,
        QualityLevel::Poor,
    ) {
        QualityLevel::Poor
    } else {
        QualityLevel::Good
    };
    EntryReport {
        ph_q,
        cond_q,
        hardness_q,
        total_q,
        ph_suggestion: improve_ph(h_conc_e14),
        cond_suggestion: improve_cond(d.cond),
        hardness_suggestion: improve_hardness(d.hardness),
    }
}

/// The amount a suggestion carries fits the two-decimal display format.
pub open spec fn suggestion_in_display_range(s: Suggestion) -> bool {
    match s {
        Suggestion::Add(a) => 0 <= a <= AMOUNT_MAX,
        Suggestion::Remove(a) => 0 <= a <= AMOUNT_MAX,
        Suggestion::NoChange => true,
    }
}

} // verus!
