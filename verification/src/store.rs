//! Fixed-capacity sample storage.
//!
//! A [`SampleStore`] keeps completed [`WaterData`] records in insertion
//! order up to a capacity chosen at construction. A full store either
//! rejects further samples or overwrites the oldest one, by an explicit
//! policy; nothing else removes samples short of a full reset.

use vstd::prelude::*;
use crate::quality::READING_MAX_E4;

verus! {

/// Capacity of the reference device's store.
pub const REFERENCE_CAPACITY: usize = 5;

/// Largest capacity a store may be built with; the bound keeps the
/// statistics' sums of squares inside `i128`.
pub const MAX_CAPACITY: usize = 100;

/// One completed measurement: pH, conductivity (mS/cm) and hardness
/// (mg/L CaCO3), each a non-negative reading scaled by `10^4`.
#[derive(Clone, Copy, PartialEq, Eq, Structural, Debug)]
pub struct WaterData {
    pub ph: i64,
    pub cond: i64,
    pub hardness: i64,
}

impl WaterData {
    /// All three readings are non-negative and within the engine's range.
    pub open spec fn wf(self) -> bool {
        &&& 0 <= self.ph <= READING_MAX_E4
        &&& 0 <= self.cond <= READING_MAX_E4
        &&& 0 <= self.hardness <= READING_MAX_E4
    }

    /// A blank record with all readings zero.
    pub fn new() -> (d: WaterData)
        ensures
            d.wf(),
            d.ph == 0 && d.cond == 0 && d.hardness == 0,
    {
        WaterData { ph: 0, cond: 0, hardness: 0 }
    }

    /// A record from three readings (each scaled by `10^4`).
    pub fn from_readings(ph: i64, cond: i64, hardness: i64) -> (d: WaterData)
        requires
            0 <= ph <= READING_MAX_E4,
            0 <= cond <= READING_MAX_E4,
            0 <= hardness <= READING_MAX_E4,
        ensures
            d.wf(),
            d.ph == ph && d.cond == cond && d.hardness == hardness,
    {
        WaterData { ph, cond, hardness }
    }
}

/// What a full store does with one more sample.
#[derive(Clone, Copy, PartialEq, Eq, Structural, Debug)]
pub enum StorePolicy {
    /// Refuse the new sample and keep the stored ones (the reference
    /// device's behaviour).
    Reject,
    /// Drop the oldest sample to make room.
    OverwriteOldest,
}

/// Errors of the storage path.
#[derive(Clone, Copy, PartialEq, Eq, Structural, Debug)]
pub enum StoreError {
    /// The store is at capacity and its policy rejects new samples.
    StoreFull,
}

/// Bounded, ordered collection of completed samples.
pub struct SampleStore {
    samples: Vec<WaterData>,
    capacity: usize,
    policy: StorePolicy,
}

impl SampleStore {
    /// The stored samples, oldest first.
    pub closed spec fn samples_seq(&self) -> Seq<WaterData> {
        self.samples@
    }

    /// The capacity the store was built with.
    pub closed spec fn spec_capacity(&self) -> int {
        self.capacity as int
    }

    /// The overflow policy the store was built with.
    pub closed spec fn spec_policy(&self) -> StorePolicy {
        self.policy
    }

    /// The store never exceeds its capacity and holds only well-formed
    /// samples.
    pub closed spec fn wf(&self) -> bool {
        &&& self.samples@.len() <= self.capacity
        &&& 1 <= self.capacity <= MAX_CAPACITY
        &&& forall|i: int|
            0 <= i < self.samples@.len() ==> (#[trigger] self.samples@[i]).wf()
    }

    /// What well-formedness guarantees to users of the store: the sample
    /// count stays within the capacity bound and every sample is
    /// well-formed.
    pub proof fn lemma_wf_bounds(&self)
        requires
            self.wf(),
        ensures
            self.samples_seq().len() <= self.spec_capacity(),
            1 <= self.spec_capacity() <= MAX_CAPACITY,
            forall|i: int|
                0 <= i < self.samples_seq().len() ==> (#[trigger] self.samples_seq()[i]).wf(),
    {
    }

    /// An empty store with the given capacity and overflow policy.
    pub fn new(capacity: usize, policy: StorePolicy) -> (s: SampleStore)
        requires
            1 <= capacity <= MAX_CAPACITY,
        ensures
            s.wf(),
            s.samples_seq().len() == 0,
            s.spec_capacity() == capacity,
            s.spec_policy() == policy,
    {
        SampleStore { samples: Vec::new(), capacity, policy }
    }

    /// Number of stored samples.
    pub fn len(&self) -> (n: usize)
        ensures
            n == self.samples_seq().len(),
    {
        self.samples.len()
    }

    /// The capacity the store was built with.
    pub fn capacity(&self) -> (c: usize)
        ensures
            c == self.spec_capacity(),
    {
        self.capacity
    }

    /// The overflow policy the store was built with.
    pub fn policy(&self) -> (p: StorePolicy)
        ensures
            p == self.spec_policy(),
    {
        self.policy
    }

    /// The stored samples, oldest first.
    pub fn samples(&self) -> (v: &Vec<WaterData>)
        ensures
            v@ == self.samples_seq(),
    {
        &self.samples
    }

    /// The sample at position `i` (0 is the oldest).
    pub fn get(&self, i: usize) -> (d: &WaterData)
        requires
            i < self.samples_seq().len(),
        ensures
            *d == self.samples_seq()[i as int],
    {
        &self.samples[i]
    }

    /// Adds a completed sample.
    ///
    /// Below capacity the sample is appended. At capacity, a `Reject`
    /// store refuses it with [`StoreError::StoreFull`] and keeps every
    /// stored sample unchanged; an `OverwriteOldest` store drops its
    /// oldest sample and appends the new one.
    pub fn append(&mut self, d: WaterData) -> (r: Result<(), StoreError>)
        requires
            old(self).wf(),
            d.wf(),
        ensures
            final(self).wf(),
            final(self).spec_capacity() == old(self).spec_capacity(),
            final(self).spec_policy() == old(self).spec_policy(),
            old(self).samples_seq().len() < old(self).spec_capacity() ==> r == Ok::<
                (),
                StoreError,
            >(()) && final(self).samples_seq() == old(self).samples_seq().push(d),
            old(self).samples_seq().len() >= old(self).spec_capacity() && old(self).spec_policy()
                == StorePolicy::Reject ==> r == Err::<(), StoreError>(StoreError::StoreFull)
                && final(self).samples_seq() == old(self).samples_seq(),
            old(self).samples_seq().len() >= old(self).spec_capacity() && old(self).spec_policy()
                == StorePolicy::OverwriteOldest ==> r == Ok::<(), StoreError>(())
                && final(self).samples_seq() == old(self).samples_seq().subrange(
                1,
                old(self).samples_seq().len() as int,
            ).push(d),
    {
        if self.samples.len() < self.capacity {
            self.samples.push(d);
            Ok(())
        } else {
            match self.policy {
                StorePolicy::Reject => Err(StoreError::StoreFull),
                StorePolicy::OverwriteOldest => {
                    self.samples.remove(0);
                    self.samples.push(d);
                    Ok(())
                },
            }
        }
    }

    /// Removes every stored sample; capacity and policy stay.
    pub fn reset(&mut self)
        requires
            old(self).wf(),
        ensures
            final(self).wf(),
            final(self).samples_seq().len() == 0,
            final(self).spec_capacity() == old(self).spec_capacity(),
            final(self).spec_policy() == old(self).spec_policy(),
    {
        self.samples.clear();
    }
}

} // verus!
