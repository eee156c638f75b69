use water_advisor::advice::Suggestion;
use water_advisor::quality::{Parameter, QualityLevel};
use water_advisor::render::{
    fit_line, fmt_amount_2dp, fmt_stat4, fmt_u128, prompt_line, render_advisory_screen,
    render_main_menu, render_no_data_screen, render_standard_screen, render_status_screen,
    render_summary_screen, Screen,
};
use water_advisor::session::{decode_key, menu_choice, process_entry, EntryReport, MenuChoice};
use water_advisor::store::WaterData;

fn line(chars: &Vec<char>) -> String {
    chars.iter().collect()
}

fn lines(s: &Screen) -> (String, String) {
    (line(&s.line1), line(&s.line2))
}

#[test]
fn formats_numbers() {
    assert_eq!(line(&fmt_u128(0)), "0");
    assert_eq!(line(&fmt_u128(42)), "42");
    assert_eq!(line(&fmt_u128(1990)), "1990");
}

#[test]
fn formats_two_decimals_rounding_half_up() {
    // 12.3456 rounds to 12.35 at two decimals.
    assert_eq!(line(&fmt_amount_2dp(123_456, 10_000)), "12.35");
    // 10.0 exactly.
    assert_eq!(line(&fmt_amount_2dp(100_000, 10_000)), "10.00");
    // 0.005 rounds half-up to 0.01.
    assert_eq!(line(&fmt_amount_2dp(50, 10_000)), "0.01");
    // A pH amount at the 10^14 scale: 9e-8 mol/L shows as 0.00.
    assert_eq!(line(&fmt_amount_2dp(9_000_000, 100_000_000_000_000)), "0.00");
}

#[test]
fn formats_stat_columns() {
    // 2.0 at the 10^4 scale, cut to the four leading characters.
    assert_eq!(line(&fmt_stat4(20_000)), "2.00");
    // 0.8164 cut to "0.81".
    assert_eq!(line(&fmt_stat4(8_164)), "0.81");
    // 123.4567 cut to "123.".
    assert_eq!(line(&fmt_stat4(1_234_567)), "123.");
}

#[test]
fn prompts() {
    assert_eq!(prompt_line(Parameter::Ph), "pH:");
    assert_eq!(prompt_line(Parameter::Conductivity), "Conduc. (mS/cm):");
    assert_eq!(prompt_line(Parameter::Hardness), "Hardness (mg/L):");
}

#[test]
fn menu_screen() {
    let s = render_main_menu(3);
    assert_eq!(lines(&s), ("1. New data".to_string(), "2. Summary (3)".to_string()));
}

#[test]
fn status_screen_layout() {
    let s = render_status_screen(
        QualityLevel::Good,
        QualityLevel::Okay,
        QualityLevel::Poor,
        QualityLevel::Poor,
    );
    assert_eq!(lines(&s), ("pH OK   Cond  ME".to_string(), "Ha XD   Total XD".to_string()));
}

#[test]
fn advisory_screens() {
    let s = render_advisory_screen(Parameter::Hardness, Suggestion::Add(100_000));
    assert_eq!(lines(&s), ("Ha: add CaCO3".to_string(), "10.00 mg/L CaCO3".to_string()));
    let s = render_advisory_screen(Parameter::Conductivity, Suggestion::Remove(187_835_000_000));
    assert_eq!(lines(&s), ("Cond: rem. salt".to_string(), "18.78 mg/L".to_string()));
    let s = render_advisory_screen(Parameter::Ph, Suggestion::NoChange);
    assert_eq!(lines(&s), ("pH: Good".to_string(), "".to_string()));
    let s = render_advisory_screen(Parameter::Ph, Suggestion::Add(9_000_000));
    assert_eq!(lines(&s), ("pH: add base".to_string(), "0.00 mol/L OH-".to_string()));
}

#[test]
fn summary_screens() {
    let s = render_summary_screen(Parameter::Ph, 20_000, 8_164);
    assert_eq!(lines(&s), ("pH   Avg   Stdev".to_string(), "     2.00  0.81".to_string()));
    let s = render_standard_screen(Parameter::Hardness, 0, 3);
    assert_eq!(lines(&s), ("Std: 90.0 mg/L".to_string(), "0/3 met std".to_string()));
    let s = render_standard_screen(Parameter::Conductivity, 2, 5);
    assert_eq!(lines(&s), ("Std: 400.0 mS/cm".to_string(), "2/5 met std".to_string()));
    let s = render_no_data_screen(Parameter::Conductivity);
    assert_eq!(lines(&s), ("Cond Avg   Stdev".to_string(), "     no data".to_string()));
}

#[test]
fn lines_fit_the_display() {
    let mut short: Vec<char> = "pH: Good".chars().collect();
    fit_line(&mut short);
    assert_eq!(line(&short), "pH: Good");
    let mut long: Vec<char> = "0.00000000000009 mol/L OH-".chars().collect();
    fit_line(&mut long);
    assert_eq!(line(&long), "0.00000000000009");
    assert_eq!(long.len(), 16);
}

#[test]
fn key_decoding() {
    assert_eq!(decode_key('#'), ' ');
    assert_eq!(decode_key('*'), '.');
    assert_eq!(decode_key('7'), '7');
}

#[test]
fn menu_dispatch() {
    assert!(menu_choice('1') == MenuChoice::NewEntry);
    assert!(menu_choice('2') == MenuChoice::ShowSummary);
    assert!(menu_choice('9') == MenuChoice::Invalid);
    assert!(menu_choice('#') == MenuChoice::Invalid);
}

#[test]
fn end_to_end_good_entry() {
    // pH 7.0; conductivity 200.0 mS/cm derives salinity 78.417075 mg/L;
    // hardness 90 mg/L: every classification Good, composite Good.
    let d = WaterData::from_readings(70_000, 2_000_000, 900_000);
    // The concentration of pH 7.0 is 1e-7 mol/L: 1e7 at the 10^14 scale.
    let r: EntryReport = process_entry(&d, 10_000_000);
    assert!(r.ph_q == QualityLevel::Good);
    assert!(r.cond_q == QualityLevel::Good);
    assert!(r.hardness_q == QualityLevel::Good);
    assert!(r.total_q == QualityLevel::Good);
    assert!(r.cond_suggestion == Suggestion::NoChange);
    assert!(r.hardness_suggestion == Suggestion::NoChange);
    // The literal pH branch order still asks to add base above the pH 8
    // concentration edge, even at pH 7.0.
    assert!(r.ph_suggestion == Suggestion::Add(9_000_000));
    let s = render_status_screen(r.ph_q, r.cond_q, r.hardness_q, r.total_q);
    assert_eq!(lines(&s), ("pH OK   Cond  OK".to_string(), "Ha OK   Total OK".to_string()));
}

#[test]
fn end_to_end_poor_entry() {
    // Hardness 40 mg/L drags the composite down to Poor.
    let d = WaterData::from_readings(70_000, 2_000_000, 400_000);
    let r = process_entry(&d, 10_000_000);
    assert!(r.ph_q == QualityLevel::Good);
    assert!(r.hardness_q == QualityLevel::Poor);
    assert!(r.total_q == QualityLevel::Poor);
    assert!(r.hardness_suggestion == Suggestion::Add(400_000));
}
