use water_advisor::advice::{improve_cond, improve_hardness, improve_ph, improve_salinity, Suggestion};
use water_advisor::quality::{
    eval_cond, eval_hardness, eval_ph, eval_salinity, salinity_e10, QualityLevel,
};

#[test]
fn ph_good_band() {
    // Readings are scaled by 10^4: 6.5 .. 8.0 classify Good.
    assert!(eval_ph(65_000) == QualityLevel::Good);
    assert!(eval_ph(70_000) == QualityLevel::Good);
    assert!(eval_ph(80_000) == QualityLevel::Good);
}

#[test]
fn ph_out_of_band() {
    // 9.0 fails the Poor bounds; 8.2 passes them but trips the Okay test.
    assert!(eval_ph(90_000) == QualityLevel::Poor);
    assert!(eval_ph(82_000) == QualityLevel::Okay);
    // Below 6.5 the Okay branch fires even inside [6.0, 8.0].
    assert!(eval_ph(62_000) == QualityLevel::Okay);
    assert!(eval_ph(59_000) == QualityLevel::Poor);
}

#[test]
fn hardness_bands() {
    // 80 .. 100 mg/L classify Good; 40 mg/L is Poor.
    assert!(eval_hardness(800_000) == QualityLevel::Good);
    assert!(eval_hardness(900_000) == QualityLevel::Good);
    assert!(eval_hardness(1_000_000) == QualityLevel::Good);
    assert!(eval_hardness(400_000) == QualityLevel::Poor);
    assert!(eval_hardness(700_000) == QualityLevel::Okay);
    assert!(eval_hardness(1_200_000) == QualityLevel::Okay);
    assert!(eval_hardness(1_600_000) == QualityLevel::Poor);
}

#[test]
fn salinity_derivation_exact() {
    // cond = 150.0 mS/cm: (0.7317 * 150 - 3.7635) * 0.55 = 58.295325 mg/L,
    // exactly 582_953_250_000 at the 10^10 scale.
    assert_eq!(salinity_e10(1_500_000), 582_953_250_000);
    assert!(eval_salinity(582_953_250_000) == QualityLevel::Good);
    assert!(eval_cond(1_500_000) == QualityLevel::Good);
}

#[test]
fn salinity_bands() {
    assert!(eval_salinity(1_900_000_000_000) == QualityLevel::Poor);
    assert!(eval_salinity(300_000_000_000) == QualityLevel::Okay);
    assert!(eval_salinity(90_000_000_000) == QualityLevel::Poor);
    assert!(eval_salinity(1_300_000_000_000) == QualityLevel::Okay);
    assert!(eval_salinity(500_000_000_000) == QualityLevel::Good);
}

#[test]
fn quality_codes() {
    assert_eq!(QualityLevel::Good.code(), "OK");
    assert_eq!(QualityLevel::Okay.code(), "ME");
    assert_eq!(QualityLevel::Poor.code(), "XD");
}

#[test]
fn improve_hardness_cases() {
    // 70 mg/L wants 10 more; 120 mg/L wants 20 less; 90 mg/L is fine.
    assert!(improve_hardness(700_000) == Suggestion::Add(100_000));
    assert!(improve_hardness(1_200_000) == Suggestion::Remove(200_000));
    assert!(improve_hardness(900_000) == Suggestion::NoChange);
}

#[test]
fn improve_salinity_cases() {
    // Salinity exactly 50.0 mg/L sits on the band edge: no action.
    assert!(improve_salinity(500_000_000_000) == Suggestion::NoChange);
    // 130.0 mg/L asks to remove the 10.0 mg/L excess.
    assert!(improve_salinity(1_300_000_000_000) == Suggestion::Remove(100_000_000_000));
    // 40.0 mg/L asks to add the 10.0 mg/L shortfall.
    assert!(improve_salinity(400_000_000_000) == Suggestion::Add(100_000_000_000));
}

#[test]
fn improve_cond_through_salinity() {
    // cond = 150.0 derives salinity 58.295325, inside the band.
    assert!(improve_cond(1_500_000) == Suggestion::NoChange);
    // cond = 350.0 derives (0.7317 * 350 - 3.7635) * 0.55 = 138.782325:
    // remove 18.782325, exactly 187_823_250_000 at the 10^10 scale.
    assert_eq!(salinity_e10(3_500_000), 1_387_823_250_000);
    assert!(improve_cond(3_500_000) == Suggestion::Remove(187_823_250_000));
}

#[test]
fn improve_ph_cases() {
    // Concentrations are scaled by 10^14; the band edges are 10^6 (pH 8)
    // and 10^8 (pH 6). pH 7 gives 10^7: above the pH 8 edge, "add base".
    assert!(improve_ph(10_000_000) == Suggestion::Add(9_000_000));
    // pH 9 gives 10^5: below both edges, "remove base" up to the pH 6 edge.
    assert!(improve_ph(100_000) == Suggestion::Remove(99_900_000));
    // Exactly the pH 8 edge: the first branch fails, and the second
    // catches everything below the pH 6 edge, so the no-action arm is
    // unreachable for real concentrations.
    assert!(improve_ph(1_000_000) == Suggestion::Remove(99_000_000));
}
