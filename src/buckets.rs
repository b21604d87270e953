//! Accumulators for logarithmically spaced frequency buckets.
//!
//! Magnitudes are fixed-point: `MAGNITUDE_SCALE` units make one unit of
//! spectral magnitude. Sums saturate at `u64::MAX`.
use vstd::prelude::*;

verus! {

/// Fixed-point units per unit of magnitude.
pub const MAGNITUDE_SCALE: u64 = 1000;

/// `a + b`, held at `u64::MAX` when it would exceed it.
pub open spec fn sat_add(a: u64, b: u64) -> u64 {
    if a + b > u64::MAX {
        u64::MAX
    } else {
        (a + b) as u64
    }
}

/// The buckets after `magnitude` was added to bucket `idx`; an index out of
/// range leaves them as they were.
pub open spec fn add_to_bucket(b: Seq<u64>, idx: int, magnitude: u64) -> Seq<u64> {
    if 0 <= idx < b.len() {
        b.update(idx, sat_add(b[idx], magnitude))
    } else {
        b
    }
}

/// The buckets after each `(index, magnitude)` point was added in turn.
pub open spec fn add_all(b: Seq<u64>, points: Seq<(usize, u64)>) -> Seq<u64>
    decreases points.len(),
{
    if points.len() == 0 {
        b
    } else {
        let last = points.last();
        add_to_bucket(add_all(b, points.drop_last()), last.0 as int, last.1)
    }
}

/// `n` buckets holding zero.
pub open spec fn zeros(n: nat) -> Seq<u64> {
    Seq::new(n, |i: int| 0u64)
}

/// Bucket energies along a logarithmic frequency axis. The number of buckets
/// is fixed when the container is made.
pub struct LogFrequenciesContainer {
    buckets: Vec<u64>,
}

impl View for LogFrequenciesContainer {
    type V = Seq<u64>;

    closed spec fn view(&self) -> Seq<u64> {
        self.buckets@
    }
}

impl LogFrequenciesContainer {
    /// `bucket_count` buckets, each at zero.
    pub fn new(bucket_count: usize) -> (r: Self)
        ensures
            r@ == zeros(bucket_count as nat),
    {
        let mut buckets: Vec<u64> = Vec::new();
        let mut i: usize = 0;
        while i < bucket_count
            invariant
                i <= bucket_count,
                buckets@ == zeros(i as nat),
            decreases bucket_count - i,
        {
            buckets.push(0);
            i = i + 1;
            assert(buckets@ =~= zeros(i as nat));
        }
        LogFrequenciesContainer { buckets }
    }

    pub fn num_buckets(&self) -> (r: usize)
        ensures
            r == self@.len(),
    {
        self.buckets.len()
    }

    /// Adds `magnitude` to bucket `idx`; an index at or past the number of
    /// buckets is dropped.
    pub fn update_bucket(&mut self, idx: usize, magnitude: u64)
        ensures
            final(self)@ == add_to_bucket(old(self)@, idx as int, magnitude),
    {
        if idx < self.buckets.len() {
            let v = self.buckets[idx].saturating_add(magnitude);
            self.buckets.set(idx, v);
        }
    }

    /// Adds each `(index, magnitude)` point in turn.
    pub fn update_all(&mut self, points: &Vec<(usize, u64)>)
        ensures
            final(self)@ == add_all(old(self)@, points@),
    {
        let n = points.len();
        let mut i: usize = 0;
        while i < n
            invariant
                n == points@.len(),
                i <= n,
                self@ == add_all(old(self)@, points@.subrange(0, i as int)),
            decreases n - i,
        {
            let (idx, magnitude) = points[i];
            self.update_bucket(idx, magnitude);
            proof {
                let pre = points@.subrange(0, i + 1);
                assert(pre.drop_last() =~= points@.subrange(0, i as int));
            }
            i = i + 1;
        }
        assert(points@.subrange(0, n as int) =~= points@);
    }

    /// Sets every bucket back to zero.
    pub fn clear(&mut self)
        ensures
            final(self)@ == zeros(old(self)@.len()),
    {
        let n = self.buckets.len();
        let mut i: usize = 0;
        while i < n
            invariant
                n == self@.len(),
                n == old(self)@.len(),
                i <= n,
                forall|j: int| 0 <= j < i ==> self@[j] == 0,
            decreases n - i,
        {
            self.buckets.set(i, 0);
            i = i + 1;
        }
        assert(self@ =~= zeros(n as nat));
    }

    /// The bucket values, lowest frequencies first.
    pub fn values(&self) -> (r: &Vec<u64>)
        ensures
            r@ == self@,
    {
        &self.buckets
    }
}

/// Clearing twice is clearing once, and leaves every bucket at zero.
pub proof fn lemma_clear_idempotent(b: Seq<u64>)
    ensures
        zeros(zeros(b.len()).len()) == zeros(b.len()),
        forall|i: int| 0 <= i < b.len() ==> zeros(b.len())[i] == 0,
{
}

/// Adding at an index at or past the last bucket changes nothing.
pub proof fn lemma_out_of_range_dropped(b: Seq<u64>, idx: int, magnitude: u64)
    requires
        idx >= b.len(),
    ensures
        add_to_bucket(b, idx, magnitude) == b,
{
}

} // verus!
