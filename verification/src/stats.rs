//! Multi-sample statistics.
//!
//! For one parameter's readings across the store, the aggregator reports
//! the sample count, the count of readings meeting the standard, and the
//! mean and population standard deviation. With readings scaled by `10^4`
//! every aggregate here is exact integer arithmetic: the mean is carried
//! as the exact sum together with the count, and the variance as its
//! numerator `n * sum(x^2) - sum(x)^2` over the implicit denominator
//! `n^2 * 10^8`. The standard deviation is extracted with an integer
//! square root, floored at the `10^4` scale.

use vstd::prelude::*;
use vstd::arithmetic::div_mod::lemma_fundamental_div_mod;
use vstd::arithmetic::div_mod::lemma_mod_bound;
use crate::quality::Parameter;
use crate::quality::READING_MAX_E4;
use crate::quality::spec_eval_param;
use crate::quality::spec_meets_standard;
use crate::quality::eval_param;
use crate::store::MAX_CAPACITY;
use crate::store::SampleStore;
use crate::store::WaterData;

verus! {

/// Errors of the aggregation path.
#[derive(Clone, Copy, PartialEq, Eq, Structural, Debug)]
pub enum StatsError {
    /// No samples are stored, so no mean or deviation exists.
    InsufficientData,
}

/// Sum of the readings.
pub open spec fn spec_sum(s: Seq<i64>) -> int
    decreases s.len(),
{
    if s.len() == 0 {
        0
    } else {
        spec_sum(s.drop_last()) + s.last()
    }
}

/// Sum of the squared readings.
pub open spec fn spec_sum_squares(s: Seq<i64>) -> int
    decreases s.len(),
{
    if s.len() == 0 {
        0
    } else {
        spec_sum_squares(s.drop_last()) + s.last() * s.last()
    }
}

/// How many readings meet the standard (classify better than `Poor`) for
/// the given parameter.
pub open spec fn spec_count_meeting(s: Seq<i64>, p: Parameter) -> int
    decreases s.len(),
{
    if s.len() == 0 {
        0
    } else {
        spec_count_meeting(s.drop_last(), p) + if spec_meets_standard(
            spec_eval_param(p, s.last() as int),
        ) {
            1int
        } else {
            0int
        }
    }
}

/// Numerator of the population variance over the denominator
/// `len^2 * 10^8`: `n * sum(x^2) - sum(x)^2`.
pub open spec fn spec_var_num(s: Seq<i64>) -> int {
    s.len() * spec_sum_squares(s) - spec_sum(s) * spec_sum(s)
}

/// The squared-deviation sum `sum((x - y)^2)`, written out as
/// `n*y^2 - 2*y*sum(x) + sum(x^2)`, is never negative.
proof fn lemma_ssd_nonneg(t: Seq<i64>, y: int)
    ensures
        t.len() * (y * y) - 2 * y * spec_sum(t) + spec_sum_squares(t) >= 0,
    decreases t.len(),
{
    if t.len() > 0 {
        let u = t.drop_last();
        let x = t.last() as int;
        lemma_ssd_nonneg(u, y);
        assert(t.len() * (y * y) - 2 * y * spec_sum(t) + spec_sum_squares(t) == (u.len() * (y * y)
            - 2 * y * spec_sum(u) + spec_sum_squares(u)) + (x - y) * (x - y))
            by (nonlinear_arith)
            requires
                spec_sum(t) == spec_sum(u) + x,
                spec_sum_squares(t) == spec_sum_squares(u) + x * x,
                t.len() == u.len() + 1,
        ;
        assert((x - y) * (x - y) >= 0) by (nonlinear_arith);
    }
}

/// The variance numerator `n * sum(x^2) - sum(x)^2` is never negative.
pub proof fn lemma_var_num_nonneg(s: Seq<i64>)
    ensures
        spec_var_num(s) >= 0,
    decreases s.len(),
{
    if s.len() > 0 {
        let t = s.drop_last();
        let y = s.last() as int;
        let n = t.len() as int;
        let s1 = spec_sum(t);
        let s2 = spec_sum_squares(t);
        lemma_var_num_nonneg(t);
        lemma_ssd_nonneg(t, y);
        assert((n + 1) * (s2 + y * y) - (s1 + y) * (s1 + y) == (n * s2 - s1 * s1) + (n * (y * y)
            - 2 * y * s1 + s2)) by (nonlinear_arith);
    }
}

/// Sums the readings; exact.
pub fn sum_values(data: &Vec<i64>) -> (r: u128)
    requires
        forall|i: int| 0 <= i < data@.len() ==> 0 <= #[trigger] data@[i] <= READING_MAX_E4,
    ensures
        r == spec_sum(data@),
        r <= data@.len() * READING_MAX_E4,
{
    let n = data.len();
    let mut i: usize = 0;
    let mut total: u128 = 0;
    while i < n
        invariant
            n == data@.len(),
            0 <= i <= n,
            forall|j: int| 0 <= j < n ==> 0 <= #[trigger] data@[j] <= READING_MAX_E4,
            total == spec_sum(data@.subrange(0, i as int)),
            total <= i * READING_MAX_E4,
        decreases n - i,
    {
        let x = data[i];
        proof {
            let pref = data@.subrange(0, i as int);
            assert(data@.subrange(0, i + 1) =~= pref.push(data@[i as int]));
            assert(pref.push(data@[i as int]).drop_last() =~= pref);
        }
        total = total + (x as u128);
        i = i + 1;
    }
    proof {
        assert(data@.subrange(0, n as int) =~= data@);
    }
    total
}

/// Sums the squared readings; exact.
pub fn sum_squares(data: &Vec<i64>) -> (r: u128)
    requires
        data@.len() <= MAX_CAPACITY,
        forall|i: int| 0 <= i < data@.len() ==> 0 <= #[trigger] data@[i] <= READING_MAX_E4,
    ensures
        r == spec_sum_squares(data@),
        r <= data@.len() * (READING_MAX_E4 * READING_MAX_E4),
{
    let n = data.len();
    let mut i: usize = 0;
    let mut total: u128 = 0;
    while i < n
        invariant
            n == data@.len() <= MAX_CAPACITY,
            0 <= i <= n,
            forall|j: int| 0 <= j < n ==> 0 <= #[trigger] data@[j] <= READING_MAX_E4,
            total == spec_sum_squares(data@.subrange(0, i as int)),
            total <= i * (READING_MAX_E4 * READING_MAX_E4),
        decreases n - i,
    {
        let x = data[i];
        proof {
            let pref = data@.subrange(0, i as int);
            assert(data@.subrange(0, i + 1) =~= pref.push(data@[i as int]));
            assert(pref.push(data@[i as int]).drop_last() =~= pref);
            let m: int = READING_MAX_E4 * READING_MAX_E4;
            assert((x as int) * (x as int) <= m) by (nonlinear_arith)
                requires
                    0 <= x <= READING_MAX_E4,
                    m == READING_MAX_E4 * READING_MAX_E4,
            ;
            assert(total + (x as int) * (x as int) <= (i + 1) * m && (i + 1) * m <= 100 * m)
                by (nonlinear_arith)
                requires
                    total <= i * m,
                    (x as int) * (x as int) <= m,
                    0 <= total,
                    0 <= m,
                    0 <= i,
                    i + 1 <= 100,
            ;
            assert(100 * m <= u128::MAX);
        }
        total = total + (x as u128) * (x as u128);
        i = i + 1;
    }
    proof {
        assert(data@.subrange(0, n as int) =~= data@);
    }
    total
}

/// Counts the readings meeting the standard for the parameter; exact.
pub fn count_meeting(data: &Vec<i64>, p: Parameter) -> (r: usize)
    ensures
        r == spec_count_meeting(data@, p),
        r <= data@.len(),
{
    let n = data.len();
    let mut i: usize = 0;
    let mut count: usize = 0;
    while i < n
        invariant
            n == data@.len(),
            0 <= i <= n,
            count == spec_count_meeting(data@.subrange(0, i as int), p),
            count <= i,
        decreases n - i,
    {
        let q = eval_param(p, data[i]);
        proof {
            let pref = data@.subrange(0, i as int);
            assert(data@.subrange(0, i + 1) =~= pref.push(data@[i as int]));
            assert(pref.push(data@[i as int]).drop_last() =~= pref);
        }
        match q {
            crate::quality::QualityLevel::Poor => {},
            _ => {
                count = count + 1;
            },
        }
        i = i + 1;
    }
    proof {
        assert(data@.subrange(0, n as int) =~= data@);
    }
    count
}

/// Floor of the square root: the unique `r` with `r^2 <= x < (r+1)^2`.
pub fn isqrt(x: u128) -> (r: u64)
    ensures
        (r as int) * (r as int) <= x as int,
        (x as int) < (r as int + 1) * (r as int + 1),
{
    let mut lo: u128 = 0;
    let mut hi: u128 = 18_446_744_073_709_551_616;
    proof {
        assert((hi as int) * (hi as int) > x as int);
    }
    while lo + 1 < hi
        invariant
            lo < hi <= 18_446_744_073_709_551_616,
            (lo as int) * (lo as int) <= x as int,
            (x as int) < (hi as int) * (hi as int),
        decreases hi - lo,
    {
        let mid = lo + (hi - lo) / 2;
        proof {
            assert((mid as int) * (mid as int) <= (18_446_744_073_709_551_615int)
                * (18_446_744_073_709_551_615int)) by (nonlinear_arith)
                requires
                    0 <= mid as int <= 18_446_744_073_709_551_615int,
            ;
        }
        let sq = mid * mid;
        if sq <= x {
            lo = mid;
        } else {
            hi = mid;
        }
    }
    lo as u64
}

/// Computes the exact variance numerator `n * sum(x^2) - sum(x)^2`.
fn variance_num(data: &Vec<i64>) -> (v: u128)
    requires
        1 <= data@.len() <= MAX_CAPACITY,
        forall|i: int| 0 <= i < data@.len() ==> 0 <= #[trigger] data@[i] <= READING_MAX_E4,
    ensures
        v == spec_var_num(data@),
{
    let n = data.len();
    let s1 = sum_values(data);
    let s2 = sum_squares(data);
    proof {
        lemma_var_num_nonneg(data@);
        assert((n as int) * (s2 as int) <= MAX_CAPACITY * ((MAX_CAPACITY as int) * (READING_MAX_E4
            * READING_MAX_E4))) by (nonlinear_arith)
            requires
                1 <= n as int <= MAX_CAPACITY,
                0 <= s2 as int <= (n as int) * (READING_MAX_E4 * READING_MAX_E4),
        ;
        assert((s1 as int) * (s1 as int) <= ((MAX_CAPACITY as int) * READING_MAX_E4) * ((
        MAX_CAPACITY as int) * READING_MAX_E4)) by (nonlinear_arith)
            requires
                0 <= s1 as int <= (n as int) * READING_MAX_E4,
                1 <= n as int <= MAX_CAPACITY,
        ;
    }
    let nvar = (n as u128) * s2;
    let s1sq = s1 * s1;
    nvar - s1sq
}

/// Floor of `sqrt(v) / n`: the unique `r` with
/// `(r*n)^2 <= v < ((r+1)*n)^2`.
fn sqrt_div_floor(v: u128, n: u64) -> (r: u64)
    requires
        n >= 1,
    ensures
        ((r as int) * (n as int)) * ((r as int) * (n as int)) <= v as int,
        (v as int) < ((r as int + 1) * (n as int)) * ((r as int + 1) * (n as int)),
{
    let q = isqrt(v);
    let r = q / n;
    proof {
        let qi = q as int;
        let ni = n as int;
        let ri = r as int;
        lemma_fundamental_div_mod(qi, ni);
        lemma_mod_bound(qi, ni);
        assert(ri * ni <= qi);
        assert(qi + 1 <= (ri + 1) * ni) by (nonlinear_arith)
            requires
                qi == ni * ri + (qi % ni),
                0 <= qi % ni < ni,
        ;
        assert((ri * ni) * (ri * ni) <= qi * qi) by (nonlinear_arith)
            requires
                0 <= ri * ni <= qi,
        ;
        assert((qi + 1) * (qi + 1) <= ((ri + 1) * ni) * ((ri + 1) * ni)) by (nonlinear_arith)
            requires
                0 <= qi + 1 <= (ri + 1) * ni,
        ;
    }
    r
}

/// Derived statistics of one parameter over a set of readings.
///
/// `num_total` and `num_success` are counts; `sum_e4` is the exact sum of
/// the readings (scaled by `10^4`), so the mean is `sum_e4 / num_total`;
/// `var_num_e8` is the exact numerator of the population variance over
/// the denominator `num_total^2 * 10^8`.
#[derive(Clone, Copy, PartialEq, Eq, Structural, Debug)]
pub struct Stat {
    pub num_total: usize,
    pub num_success: usize,
    pub sum_e4: u128,
    pub var_num_e8: u128,
}

impl Stat {
    /// Aggregates one parameter's readings: count, standard-meeting
    /// count, exact sum and exact variance numerator.
    pub fn new(data: &Vec<i64>, qualifier: Parameter) -> (st: Stat)
        requires
            1 <= data@.len() <= MAX_CAPACITY,
            forall|i: int| 0 <= i < data@.len() ==> 0 <= #[trigger] data@[i] <= READING_MAX_E4,
        ensures
            st.num_total == data@.len(),
            st.num_success == spec_count_meeting(data@, qualifier),
            st.sum_e4 == spec_sum(data@),
            st.var_num_e8 == spec_var_num(data@),
    {
        let n = data.len();
        let s1 = sum_values(data);
        let successes = count_meeting(data, qualifier);
        let var_num = variance_num(data);
        Stat { num_total: n, num_success: successes, sum_e4: s1, var_num_e8: var_num }
    }

    /// The mean reading, scaled by `10^4` and floored.
    pub fn avg_e4(&self) -> (r: u128)
        requires
            self.num_total >= 1,
        ensures
            r == (self.sum_e4 as int) / (self.num_total as int),
    {
        self.sum_e4 / (self.num_total as u128)
    }

    /// The population standard deviation, scaled by `10^4` and floored:
    /// the unique `r` with `(r*n)^2 <= var_num <= ((r+1)*n)^2 - 1` for
    /// `n == num_total`.
    pub fn stdev_e4(&self) -> (r: u64)
        requires
            self.num_total >= 1,
        ensures
            ((r as int) * (self.num_total as int)) * ((r as int) * (self.num_total as int))
                <= self.var_num_e8 as int,
            (self.var_num_e8 as int) < ((r as int + 1) * (self.num_total as int)) * ((r as int + 1)
                * (self.num_total as int)),
    {
        sqrt_div_floor(self.var_num_e8, self.num_total as u64)
    }
}

/// The mean of the readings, scaled by `10^4` and floored.
pub fn calc_avg(data: &Vec<i64>) -> (r: u128)
    requires
        data@.len() >= 1,
        forall|i: int| 0 <= i < data@.len() ==> 0 <= #[trigger] data@[i] <= READING_MAX_E4,
    ensures
        r == spec_sum(data@) / data@.len() as int,
{
    let n = data.len();
    let total = sum_values(data);
    total / (n as u128)
}

/// The population standard deviation of the readings, scaled by `10^4`
/// and floored: the unique `r` with
/// `(r*n)^2 <= n*sum(x^2) - sum(x)^2 < ((r+1)*n)^2`.
pub fn calc_stdev(data: &Vec<i64>) -> (r: u64)
    requires
        1 <= data@.len() <= MAX_CAPACITY,
        forall|i: int| 0 <= i < data@.len() ==> 0 <= #[trigger] data@[i] <= READING_MAX_E4,
    ensures
        ((r as int) * (data@.len() as int)) * ((r as int) * (data@.len() as int)) <= spec_var_num(
            data@,
        ),
        spec_var_num(data@) < ((r as int + 1) * (data@.len() as int)) * ((r as int + 1) * (
        data@.len() as int)),
{
    let v = variance_num(data);
    sqrt_div_floor(v, data.len() as u64)
}

/// One parameter's reading of a sample.
pub open spec fn spec_field_of(p: Parameter, d: WaterData) -> i64 {
    match p {
        Parameter::Ph => d.ph,
        Parameter::Conductivity => d.cond,
        Parameter::Hardness => d.hardness,
    }
}

/// The chosen parameter's readings of all stored samples, oldest first.
pub open spec fn spec_extracted(s: Seq<WaterData>, p: Parameter) -> Seq<i64> {
    s.map_values(|d: WaterData| spec_field_of(p, d))
}

/// Collects one parameter's readings from the store, oldest first.
pub fn extract_values(store: &SampleStore, p: Parameter) -> (v: Vec<i64>)
    requires
        store.wf(),
    ensures
        v@ == spec_extracted(store.samples_seq(), p),
        v@.len() == store.samples_seq().len(),
        forall|i: int| 0 <= i < v@.len() ==> 0 <= #[trigger] v@[i] <= READING_MAX_E4,
{
    let n = store.len();
    let mut v: Vec<i64> = Vec::new();
    let mut i: usize = 0;
    proof {
        store.lemma_wf_bounds();
    }
    while i < n
        invariant
            store.wf(),
            n == store.samples_seq().len(),
            0 <= i <= n,
            v@ == spec_extracted(store.samples_seq().subrange(0, i as int), p),
            v@.len() == i,
            forall|j: int| 0 <= j < v@.len() ==> 0 <= #[trigger] v@[j] <= READING_MAX_E4,
        decreases n - i,
    {
        let d = store.get(i);
        proof {
            store.lemma_wf_bounds();
            assert(store.samples_seq()[i as int].wf());
        }
        let x = match p {
            Parameter::Ph => d.ph,
            Parameter::Conductivity => d.cond,
            Parameter::Hardness => d.hardness,
        };
        v.push(x);
        proof {
            let s = store.samples_seq();
            assert(s.subrange(0, i + 1).map_values(|dd: WaterData| spec_field_of(p, dd))
                =~= s.subrange(0, i as int).map_values(|dd: WaterData| spec_field_of(p, dd)).push(
                spec_field_of(p, s[i as int]),
            ));
        }
        i = i + 1;
    }
    proof {
        assert(store.samples_seq().subrange(0, n as int) =~= store.samples_seq());
    }
    v
}

/// Aggregates one parameter over the whole store.
///
/// Every stored sample is a completed entry, so all of them enter the
/// statistics. An empty store has no mean or deviation and reports
/// [`StatsError::InsufficientData`] instead.
pub fn aggregate(store: &SampleStore, p: Parameter) -> (r: Result<Stat, StatsError>)
    requires
        store.wf(),
    ensures
        match r {
            Ok(st) => {
                let values = spec_extracted(store.samples_seq(), p);
                &&& store.samples_seq().len() > 0
                &&& st.num_total == values.len()
                &&& st.num_success == spec_count_meeting(values, p)
                &&& st.sum_e4 == spec_sum(values)
                &&& st.var_num_e8 == spec_var_num(values)
            },
            Err(e) => e == StatsError::InsufficientData && store.samples_seq().len() == 0,
        },
{
    proof {
        store.lemma_wf_bounds();
    }
    let values = extract_values(store, p);
    if values.len() == 0 {
        return Err(StatsError::InsufficientData);
    }
    Ok(Stat::new(&values, p))
}

} // verus!
