use water_advisor::quality::Parameter;
use water_advisor::stats::{
    aggregate, calc_avg, calc_stdev, isqrt, Stat, StatsError,
};
use water_advisor::store::{SampleStore, StoreError, StorePolicy, WaterData};

fn sample(ph: i64, cond: i64, hardness: i64) -> WaterData {
    WaterData::from_readings(ph, cond, hardness)
}

#[test]
fn blank_sample_is_zeroed() {
    let d = WaterData::new();
    assert_eq!(d.ph, 0);
    assert_eq!(d.cond, 0);
    assert_eq!(d.hardness, 0);
}

#[test]
fn store_appends_in_order() {
    let mut store = SampleStore::new(5, StorePolicy::Reject);
    for i in 0..3 {
        let r = store.append(sample(70_000 + i, 1_500_000, 900_000));
        assert!(r.is_ok());
    }
    assert_eq!(store.len(), 3);
    assert_eq!(store.get(0).ph, 70_000);
    assert_eq!(store.get(2).ph, 70_002);
}

#[test]
fn store_full_rejects_and_keeps_samples() {
    let mut store = SampleStore::new(5, StorePolicy::Reject);
    for i in 0..5 {
        assert!(store.append(sample(60_000 + i, 1_000_000 + i, 800_000 + i)).is_ok());
    }
    let r = store.append(sample(99_000, 99_000, 99_000));
    assert_eq!(r, Err(StoreError::StoreFull));
    assert_eq!(store.len(), 5);
    for i in 0..5 {
        let d = store.get(i);
        assert_eq!(d.ph, 60_000 + i as i64);
        assert_eq!(d.cond, 1_000_000 + i as i64);
        assert_eq!(d.hardness, 800_000 + i as i64);
    }
}

#[test]
fn store_overwrite_policy_drops_oldest() {
    let mut store = SampleStore::new(2, StorePolicy::OverwriteOldest);
    assert!(store.append(sample(1, 1, 1)).is_ok());
    assert!(store.append(sample(2, 2, 2)).is_ok());
    assert!(store.append(sample(3, 3, 3)).is_ok());
    assert_eq!(store.len(), 2);
    assert_eq!(store.get(0).ph, 2);
    assert_eq!(store.get(1).ph, 3);
}

#[test]
fn store_reset_clears() {
    let mut store = SampleStore::new(3, StorePolicy::Reject);
    assert!(store.append(sample(1, 1, 1)).is_ok());
    store.reset();
    assert_eq!(store.len(), 0);
    assert_eq!(store.capacity(), 3);
}

#[test]
fn stat_over_three_values() {
    // Readings 1.0, 2.0, 3.0 at the 10^4 scale.
    let data = vec![10_000i64, 20_000, 30_000];
    let st = Stat::new(&data, Parameter::Hardness);
    assert_eq!(st.num_total, 3);
    // All three are far below the 60 mg/L hardness floor: none meet it.
    assert_eq!(st.num_success, 0);
    // Mean is exactly 2.0.
    assert_eq!(st.sum_e4, 60_000);
    assert_eq!(st.avg_e4(), 20_000);
    // Population variance is 2/3: numerator 3*(1+4+9)*10^8 - (6*10^4)^2.
    assert_eq!(st.var_num_e8, 600_000_000);
    let variance = st.var_num_e8 as f64 / ((st.num_total * st.num_total) as f64) / 1e8;
    assert_eq!(variance.sqrt(), (2.0f64 / 3.0).sqrt());
    // The fixed-point standard deviation floors sqrt(2/3) = 0.81649...
    assert_eq!(st.stdev_e4(), 8_164);
}

#[test]
fn stat_counts_successes() {
    // Hardness readings 90 and 40 mg/L: one meets the standard.
    let data = vec![900_000i64, 400_000];
    let st = Stat::new(&data, Parameter::Hardness);
    assert_eq!(st.num_total, 2);
    assert_eq!(st.num_success, 1);
}

#[test]
fn calc_helpers_match_stat() {
    let data = vec![10_000i64, 20_000, 30_000];
    assert_eq!(calc_avg(&data), 20_000);
    assert_eq!(calc_stdev(&data), 8_164);
}

#[test]
fn isqrt_values() {
    assert_eq!(isqrt(0), 0);
    assert_eq!(isqrt(15), 3);
    assert_eq!(isqrt(16), 4);
    assert_eq!(isqrt(600_000_000), 24_494);
    assert_eq!(isqrt(u64::MAX as u128 * u64::MAX as u128), u64::MAX);
}

#[test]
fn aggregate_empty_store_reports_insufficient_data() {
    let store = SampleStore::new(5, StorePolicy::Reject);
    let r = aggregate(&store, Parameter::Ph);
    assert_eq!(r, Err(StatsError::InsufficientData));
}

#[test]
fn aggregate_extracts_one_parameter() {
    let mut store = SampleStore::new(5, StorePolicy::Reject);
    assert!(store.append(sample(70_000, 1_500_000, 900_000)).is_ok());
    assert!(store.append(sample(90_000, 3_500_000, 400_000)).is_ok());
    let ph = aggregate(&store, Parameter::Ph).unwrap();
    assert_eq!(ph.num_total, 2);
    // pH 7.0 meets the standard, pH 9.0 does not.
    assert_eq!(ph.num_success, 1);
    assert_eq!(ph.sum_e4, 160_000);
    let hard = aggregate(&store, Parameter::Hardness).unwrap();
    assert_eq!(hard.num_success, 1);
    assert_eq!(hard.sum_e4, 1_300_000);
}
