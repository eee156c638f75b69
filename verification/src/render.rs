//! Screen formatting for the two-line character display.
//!
//! Every screen is a pair of character lines built from fixed texts and
//! fixed-point numbers. Amounts are shown rounded half-up to two decimal
//! places; the statistics columns show the leading four characters of the
//! value written with four decimal places. The renderer only builds the
//! lines; writing them to the display is the caller's business.

use vstd::prelude::*;
use crate::advice::Suggestion;
use crate::quality::Parameter;
use crate::quality::QualityLevel;
use crate::quality::spec_code;

verus! {

/// The two lines of one display screen, top line first.
#[derive(Clone, PartialEq, Eq, Debug)]
pub struct Screen {
    pub line1: Vec<char>,
    pub line2: Vec<char>,
}

/// The character of a single decimal digit.
pub open spec fn spec_digit_char(d: int) -> char {
    if d == 0 {
        '0'
    } else if d == 1 {
        '1'
    } else if d == 2 {
        '2'
    } else if d == 3 {
        '3'
    } else if d == 4 {
        '4'
    } else if d == 5 {
        '5'
    } else if d == 6 {
        '6'
    } else if d == 7 {
        '7'
    } else if d == 8 {
        '8'
    } else {
        '9'
    }
}

/// Decimal numeral of `n`, most significant digit first.
pub open spec fn spec_dec_digits(n: nat) -> Seq<char>
    decreases n,
{
    if n < 10 {
        seq![spec_digit_char(n as int)]
    } else {
        spec_dec_digits(n / 10) + seq![spec_digit_char((n % 10) as int)]
    }
}

/// Two-digit, zero-padded numeral of `c < 100`.
pub open spec fn spec_pad2(c: int) -> Seq<char> {
    seq![spec_digit_char(c / 10), spec_digit_char(c % 10)]
}

/// Four-digit, zero-padded numeral of `c < 10000`.
pub open spec fn spec_pad4(c: int) -> Seq<char> {
    seq![
        spec_digit_char(c / 1000),
        spec_digit_char((c / 100) % 10),
        spec_digit_char((c / 10) % 10),
        spec_digit_char(c % 10),
    ]
}

/// An amount `a / scale`, written with exactly two decimal places,
/// rounded half-up: the shown value in hundredths is
/// `(200 * a + scale) / (2 * scale)`.
pub open spec fn spec_fmt_2dp(a: nat, scale: nat) -> Seq<char> {
    let cents = (200 * a + scale) / (2 * scale);
    spec_dec_digits(cents / 100) + seq!['.'] + spec_pad2((cents % 100) as int)
}

/// A reading `v / 10^4`, written with exactly four decimal places.
pub open spec fn spec_fmt_e4(v: nat) -> Seq<char> {
    spec_dec_digits(v / 10_000) + seq!['.'] + spec_pad4((v % 10_000) as int)
}

/// The leading four characters of [`spec_fmt_e4`]: the statistics column
/// format.
pub open spec fn spec_fmt_stat4(v: nat) -> Seq<char> {
    spec_fmt_e4(v).take(4)
}

/// The character of the digit `d`.
fn digit_char(d: u8) -> (c: char)
    requires
        d < 10,
    ensures
        c == spec_digit_char(d as int),
{
    if d == 0 {
        '0'
    } else if d == 1 {
        '1'
    } else if d == 2 {
        '2'
    } else if d == 3 {
        '3'
    } else if d == 4 {
        '4'
    } else if d == 5 {
        '5'
    } else if d == 6 {
        '6'
    } else if d == 7 {
        '7'
    } else if d == 8 {
        '8'
    } else {
        '9'
    }
}

/// Writes the decimal numeral of `n`.
pub fn fmt_u128(n: u128) -> (v: Vec<char>)
    ensures
        v@ == spec_dec_digits(n as nat),
    decreases n,
{
    if n < 10 {
        let mut v: Vec<char> = Vec::new();
        v.push(digit_char(n as u8));
        v
    } else {
        let mut v = fmt_u128(n / 10);
        v.push(digit_char((n % 10) as u8));
        proof {
            assert(v@ =~= spec_dec_digits((n / 10) as nat) + seq![
                spec_digit_char((n % 10) as int),
            ]);
        }
        v
    }
}

/// Appends the characters of `s` to `v`.
fn push_str(v: &mut Vec<char>, s: &str)
    ensures
        final(v)@ == old(v)@ + s@,
{
    let n = s.unicode_len();
    let mut i: usize = 0;
    while i < n
        invariant
            n == s@.len(),
            0 <= i <= n,
            v@ == old(v)@ + s@.subrange(0, i as int),
        decreases n - i,
    {
        let c = s.get_char(i);
        proof {
            assert(s@.subrange(0, i + 1) =~= s@.subrange(0, i as int).push(s@[i as int]));
        }
        v.push(c);
        i = i + 1;
    }
    proof {
        assert(s@.subrange(0, n as int) =~= s@);
    }
}

/// Largest amount the advisors can produce, comfortably below the bound
/// the two-decimal formatter accepts.
pub const AMOUNT_MAX: u128 = 10_000_000_000_000_000_000_000_000;

/// Writes `a / scale` with exactly two decimal places, rounded half-up.
pub fn fmt_amount_2dp(a: u128, scale: u128) -> (v: Vec<char>)
    requires
        100 <= scale <= 100_000_000_000_000,
        a <= AMOUNT_MAX,
    ensures
        v@ == spec_fmt_2dp(a as nat, scale as nat),
{
    let cents = (a * 200 + scale) / (2 * scale);
    let whole = cents / 100;
    let frac = cents % 100;
    let mut v = fmt_u128(whole);
    v.push('.');
    v.push(digit_char((frac / 10) as u8));
    v.push(digit_char((frac % 10) as u8));
    proof {
        assert(v@ =~= spec_dec_digits(whole as nat) + seq!['.'] + spec_pad2(frac as int));
        assert(200 * (a as nat) == (a * 200) as nat);
    }
    v
}

/// Writes the leading four characters of `v / 10^4` with four decimal
/// places: the statistics column format.
pub fn fmt_stat4(value: u128) -> (v: Vec<char>)
    ensures
        v@ == spec_fmt_stat4(value as nat),
{
    let whole = value / 10_000;
    let frac = value % 10_000;
    let mut v = fmt_u128(whole);
    v.push('.');
    v.push(digit_char((frac / 1000) as u8));
    v.push(digit_char(((frac / 100) % 10) as u8));
    v.push(digit_char(((frac / 10) % 10) as u8));
    v.push(digit_char((frac % 10) as u8));
    proof {
        assert(v@ =~= spec_fmt_e4(value as nat));
        assert(spec_dec_digits(whole as nat).len() >= 1);
    }
    v.truncate(4);
    proof {
        assert(v@ =~= spec_fmt_e4(value as nat).take(4));
    }
    v
}

/// Width of one display line.
pub const DISPLAY_WIDTH: usize = 16;

/// Cuts a line down to the display width; the display neither wraps nor
/// scrolls, so callers hand it at most [`DISPLAY_WIDTH`] characters.
pub fn fit_line(line: &mut Vec<char>)
    ensures
        old(line)@.len() <= DISPLAY_WIDTH ==> final(line)@ == old(line)@,
        old(line)@.len() > DISPLAY_WIDTH ==> final(line)@ == old(line)@.take(
            DISPLAY_WIDTH as int,
        ),
{
    if line.len() > DISPLAY_WIDTH {
        line.truncate(DISPLAY_WIDTH);
    }
}

/// The prompt shown while one parameter is entered.
pub fn prompt_line(p: Parameter) -> (r: &'static str)
    ensures
        p == Parameter::Ph ==> r@ == "pH:"@,
        p == Parameter::Conductivity ==> r@ == "Conduc. (mS/cm):"@,
        p == Parameter::Hardness ==> r@ == "Hardness (mg/L):"@,
{
    match p {
        Parameter::Ph => "pH:",
        Parameter::Conductivity => "Conduc. (mS/cm):",
        Parameter::Hardness => "Hardness (mg/L):",
    }
}

/// The menu screen: the entry choice above, the summary choice with the
/// current sample count below.
pub fn render_main_menu(num_entries: usize) -> (s: Screen)
    ensures
        s.line1@ == "1. New data"@,
        s.line2@ == "2. Summary ("@ + spec_dec_digits(num_entries as nat) + ")"@,
{
    let mut line1: Vec<char> = Vec::new();
    push_str(&mut line1, "1. New data");
    let mut line2: Vec<char> = Vec::new();
    push_str(&mut line2, "2. Summary (");
    let mut digits = fmt_u128(num_entries as u128);
    line2.append(&mut digits);
    push_str(&mut line2, ")");
    Screen { line1, line2 }
}

/// The status screen after an entry: quality codes of pH and
/// conductivity above, of hardness and the composite below.
pub fn render_status_screen(
    ph_q: QualityLevel,
    cond_q: QualityLevel,
    hard_q: QualityLevel,
    total_q: QualityLevel,
) -> (s: Screen)
    ensures
        s.line1@ == "pH "@ + spec_code(ph_q) + "   Cond  "@ + spec_code(cond_q),
        s.line2@ == "Ha "@ + spec_code(hard_q) + "   Total "@ + spec_code(total_q),
{
    let mut line1: Vec<char> = Vec::new();
    push_str(&mut line1, "pH ");
    push_str(&mut line1, ph_q.code());
    push_str(&mut line1, "   Cond  ");
    push_str(&mut line1, cond_q.code());
    let mut line2: Vec<char> = Vec::new();
    push_str(&mut line2, "Ha ");
    push_str(&mut line2, hard_q.code());
    push_str(&mut line2, "   Total ");
    push_str(&mut line2, total_q.code());
    Screen { line1, line2 }
}

/// Short name of a parameter on the advisory screen.
pub open spec fn spec_advisory_title(p: Parameter) -> Seq<char> {
    match p {
        Parameter::Ph => "pH"@,
        Parameter::Conductivity => "Cond"@,
        Parameter::Hardness => "Ha"@,
    }
}

/// Action text of a suggestion, per parameter.
pub open spec fn spec_action_label(p: Parameter, s: Suggestion) -> Seq<char> {
    match p {
        Parameter::Ph => match s {
            Suggestion::Add(_) => "add base"@,
            Suggestion::Remove(_) => "remove base"@,
            Suggestion::NoChange => "Good"@,
        },
        Parameter::Conductivity => match s {
            Suggestion::Add(_) => "add salt"@,
            Suggestion::Remove(_) => "rem. salt"@,
            Suggestion::NoChange => "Good"@,
        },
        Parameter::Hardness => match s {
            Suggestion::Add(_) => "add CaCO3"@,
            Suggestion::Remove(_) => "rem. CaCO3"@,
            Suggestion::NoChange => "Good"@,
        },
    }
}

/// Dosing unit of a parameter's amounts.
pub open spec fn spec_unit(p: Parameter) -> Seq<char> {
    match p {
        Parameter::Ph => "mol/L OH-"@,
        Parameter::Conductivity => "mg/L"@,
        Parameter::Hardness => "mg/L CaCO3"@,
    }
}

/// Fixed-point scale of a parameter's amounts: `10^14` for hydrogen-ion
/// concentration, `10^10` for salinity, `10^4` for hardness.
pub open spec fn spec_amount_scale(p: Parameter) -> nat {
    match p {
        Parameter::Ph => 100_000_000_000_000,
        Parameter::Conductivity => 10_000_000_000,
        Parameter::Hardness => 10_000,
    }
}

/// The advisory screen for one parameter: `"<title>: <action>"` above;
/// below, the amount with two decimal places and its unit, or an empty
/// line when nothing is suggested.
pub fn render_advisory_screen(p: Parameter, s: Suggestion) -> (scr: Screen)
    requires
        match s {
            Suggestion::Add(a) => 0 <= a <= AMOUNT_MAX,
            Suggestion::Remove(a) => 0 <= a <= AMOUNT_MAX,
            Suggestion::NoChange => true,
        },
    ensures
        scr.line1@ == spec_advisory_title(p) + ": "@ + spec_action_label(p, s),
        match s {
            Suggestion::Add(a) => scr.line2@ == spec_fmt_2dp(a as nat, spec_amount_scale(p))
                + " "@ + spec_unit(p),
            Suggestion::Remove(a) => scr.line2@ == spec_fmt_2dp(a as nat, spec_amount_scale(p))
                + " "@ + spec_unit(p),
            Suggestion::NoChange => scr.line2@ == Seq::<char>::empty(),
        },
{
    let mut line1: Vec<char> = Vec::new();
    match p {
        Parameter::Ph => push_str(&mut line1, "pH"),
        Parameter::Conductivity => push_str(&mut line1, "Cond"),
        Parameter::Hardness => push_str(&mut line1, "Ha"),
    }
    push_str(&mut line1, ": ");
    match (p, s) {
        (Parameter::Ph, Suggestion::Add(_)) => push_str(&mut line1, "add base"),
        (Parameter::Ph, Suggestion::Remove(_)) => push_str(&mut line1, "remove base"),
        (Parameter::Conductivity, Suggestion::Add(_)) => push_str(&mut line1, "add salt"),
        (Parameter::Conductivity, Suggestion::Remove(_)) => push_str(&mut line1, "rem. salt"),
        (Parameter::Hardness, Suggestion::Add(_)) => push_str(&mut line1, "add CaCO3"),
        (Parameter::Hardness, Suggestion::Remove(_)) => push_str(&mut line1, "rem. CaCO3"),
        (_, Suggestion::NoChange) => push_str(&mut line1, "Good"),
    }
    let mut line2: Vec<char> = Vec::new();
    let amount: Option<i128> = match s {
        Suggestion::Add(a) => Some(a),
        Suggestion::Remove(a) => Some(a),
        Suggestion::NoChange => Option::None,
    };
    match amount {
        Some(a) => {
            let scale: u128 = match p {
                Parameter::Ph => 100_000_000_000_000,
                Parameter::Conductivity => 10_000_000_000,
                Parameter::Hardness => 10_000,
            };
            let mut num = fmt_amount_2dp(a as u128, scale);
            line2.append(&mut num);
            push_str(&mut line2, " ");
            match p {
                Parameter::Ph => push_str(&mut line2, "mol/L OH-"),
                Parameter::Conductivity => push_str(&mut line2, "mg/L"),
                Parameter::Hardness => push_str(&mut line2, "mg/L CaCO3"),
            }
        },
        Option::None => {},
    }
    Screen { line1, line2 }
}

/// Header line of a parameter's statistics screen.
pub open spec fn spec_summary_title_line(p: Parameter) -> Seq<char> {
    match p {
        Parameter::Ph => "pH   Avg   Stdev"@,
        Parameter::Conductivity => "Cond Avg   Stdev"@,
        Parameter::Hardness => "Hard Avg   Stdev"@,
    }
}

/// The statistics screen for one parameter: the header above, the mean
/// and standard deviation columns (four characters each) below.
pub fn render_summary_screen(p: Parameter, avg_e4: u128, stdev_e4: u64) -> (scr: Screen)
    ensures
        scr.line1@ == spec_summary_title_line(p),
        scr.line2@ == "     "@ + spec_fmt_stat4(avg_e4 as nat) + "  "@ + spec_fmt_stat4(
            stdev_e4 as nat,
        ),
{
    let mut line1: Vec<char> = Vec::new();
    match p {
        Parameter::Ph => push_str(&mut line1, "pH   Avg   Stdev"),
        Parameter::Conductivity => push_str(&mut line1, "Cond Avg   Stdev"),
        Parameter::Hardness => push_str(&mut line1, "Hard Avg   Stdev"),
    }
    let mut line2: Vec<char> = Vec::new();
    push_str(&mut line2, "     ");
    let mut avg = fmt_stat4(avg_e4);
    line2.append(&mut avg);
    push_str(&mut line2, "  ");
    let mut sd = fmt_stat4(stdev_e4 as u128);
    line2.append(&mut sd);
    Screen { line1, line2 }
}

/// The reference standard named on a parameter's second summary screen.
pub open spec fn spec_standard_line(p: Parameter) -> Seq<char> {
    match p {
        Parameter::Ph => "Std: 7.0"@,
        Parameter::Conductivity => "Std: 400.0 mS/cm"@,
        Parameter::Hardness => "Std: 90.0 mg/L"@,
    }
}

/// The standard screen for one parameter: the reference standard above,
/// `"<met>/<total> met std"` below.
pub fn render_standard_screen(p: Parameter, num_success: usize, num_total: usize) -> (scr: Screen)
    ensures
        scr.line1@ == spec_standard_line(p),
        scr.line2@ == spec_dec_digits(num_success as nat) + "/"@ + spec_dec_digits(
            num_total as nat,
        ) + " met std"@,
{
    let mut line1: Vec<char> = Vec::new();
    match p {
        Parameter::Ph => push_str(&mut line1, "Std: 7.0"),
        Parameter::Conductivity => push_str(&mut line1, "Std: 400.0 mS/cm"),
        Parameter::Hardness => push_str(&mut line1, "Std: 90.0 mg/L"),
    }
    let mut line2: Vec<char> = Vec::new();
    let mut met = fmt_u128(num_success as u128);
    line2.append(&mut met);
    push_str(&mut line2, "/");
    let mut tot = fmt_u128(num_total as u128);
    line2.append(&mut tot);
    push_str(&mut line2, " met std");
    Screen { line1, line2 }
}

/// The screen shown for a parameter with no stored samples.
pub fn render_no_data_screen(p: Parameter) -> (scr: Screen)
    ensures
        scr.line1@ == spec_summary_title_line(p),
        scr.line2@ == "     no data"@,
{
    let mut line1: Vec<char> = Vec::new();
    match p {
        Parameter::Ph => push_str(&mut line1, "pH   Avg   Stdev"),
        Parameter::Conductivity => push_str(&mut line1, "Cond Avg   Stdev"),
        Parameter::Hardness => push_str(&mut line1, "Hard Avg   Stdev"),
    }
    let mut line2: Vec<char> = Vec::new();
    push_str(&mut line2, "     no data");
    Screen { line1, line2 }
}

} // verus!
