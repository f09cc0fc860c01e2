//! Histograms over integer-valued observations (time observations are carried
//! as microseconds). Bucket boundaries are fixed at registration; each bucket
//! count is cumulative: it counts every observation less than or equal to its
//! boundary. Observations above the last boundary only raise the total count.

use vstd::prelude::*;

verus! {

/// A valid bucket list is non-empty and strictly increasing.
pub open spec fn strictly_increasing(s: Seq<u64>) -> bool {
    forall|i: int, j: int| 0 <= i < j < s.len() ==> s[i] < s[j]
}

pub open spec fn valid_buckets(s: Seq<u64>) -> bool {
    s.len() > 0 && strictly_increasing(s)
}

/// How one observation of `x` moves a live histogram from `pre` to `post`:
/// totals rise by one observation, and exactly the buckets whose boundary
/// is at least `x` count it.
pub open spec fn observed(pre: Histogram, post: Histogram, x: u64) -> bool {
    &&& post.is_live() == pre.is_live()
    &&& post.bounds() == pre.bounds()
    &&& post.total() == pre.total() + 1
    &&& post.sum_value() == pre.sum_value() + x
    &&& post.counts().len() == pre.counts().len()
    &&& forall|i: int|
        0 <= i < pre.counts().len() ==> post.counts()[i] == pre.counts()[i] + (if x
            <= pre.bounds()[i] {
            1int
        } else {
            0int
        })
}

/// A histogram with fixed boundaries and cumulative per-bucket counts.
pub struct Histogram {
    live: bool,
    bounds: Vec<u64>,
    cumulative: Vec<u64>,
    count: u64,
    sum: u64,
}

impl Histogram {
    /// Whether the handle is backed by a successfully registered instrument.
    pub closed spec fn is_live(&self) -> bool {
        self.live
    }

    /// The bucket boundaries, in ascending order.
    pub closed spec fn bounds(&self) -> Seq<u64> {
        self.bounds@
    }

    /// Cumulative counts: `counts()[i]` is the number of observations `<=
    /// bounds()[i]`.
    pub closed spec fn counts(&self) -> Seq<u64> {
        self.cumulative@
    }

    /// Total number of observations, including those above every boundary.
    pub closed spec fn total(&self) -> int {
        self.count as int
    }

    /// Sum of all observed values.
    pub closed spec fn sum_value(&self) -> int {
        self.sum as int
    }

    /// Structural invariant: boundaries are valid when live, counts run
    /// parallel to the boundaries, and no bucket holds more than the total.
    pub open spec fn wf(&self) -> bool {
        &&& (self.is_live() ==> valid_buckets(self.bounds()))
        &&& self.counts().len() == self.bounds().len()
        &&& forall|i: int| 0 <= i < self.counts().len() ==> self.counts()[i] <= self.total()
        &&& self.total() <= u64::MAX
        &&& self.sum_value() <= u64::MAX
    }

    /// A freshly registered histogram: the given boundaries, all readings
    /// zero.
    pub fn new(bounds: Vec<u64>) -> (h: Histogram)
        requires
            valid_buckets(bounds@),
        ensures
            h.is_live(),
            h.wf(),
            h.bounds() == bounds@,
            h.total() == 0,
            h.sum_value() == 0,
            forall|i: int| 0 <= i < h.counts().len() ==> h.counts()[i] == 0,
    {
        let n = bounds.len();
        let mut cumulative: Vec<u64> = Vec::new();
        let mut i: usize = 0;
        while i < n
            invariant
                cumulative@.len() == i,
                i <= n,
                forall|j: int| 0 <= j < i ==> cumulative@[j] == 0,
            decreases n - i,
        {
            cumulative.push(0);
            i = i + 1;
        }
        Histogram { live: true, bounds, cumulative, count: 0, sum: 0 }
    }

    /// The no-op handle a caller holds when registration failed; observations
    /// against it are silently skipped.
    pub fn inert() -> (h: Histogram)
        ensures
            !h.is_live(),
            h.wf(),
            h.total() == 0,
            h.sum_value() == 0,
            h.bounds().len() == 0,
    {
        Histogram { live: false, bounds: Vec::new(), cumulative: Vec::new(), count: 0, sum: 0 }
    }

    /// Records one observation. An observation equal to a boundary is counted
    /// in that boundary's bucket (and, counts being cumulative, in every
    /// bucket above it): bucket membership is `x <= boundary`.
    pub fn observe(&mut self, x: u64)
        requires
            old(self).wf(),
            old(self).is_live() ==> old(self).total() < u64::MAX,
            old(self).is_live() ==> old(self).sum_value() + x <= u64::MAX,
        ensures
            final(self).wf(),
            final(self).is_live() == old(self).is_live(),
            final(self).bounds() == old(self).bounds(),
            old(self).is_live() ==> {
                &&& final(self).total() == old(self).total() + 1
                &&& final(self).sum_value() == old(self).sum_value() + x
                &&& forall|i: int|
                    0 <= i < old(self).counts().len() ==> final(self).counts()[i]
                        == old(self).counts()[i] + (if x <= old(self).bounds()[i] {
                        1int
                    } else {
                        0int
                    })
            },
            !old(self).is_live() ==> final(self).counts() == old(self).counts()
                && final(self).total() == old(self).total() && final(self).sum_value() == old(
                self,
            ).sum_value(),
    {
        if !self.live {
            return ;
        }
        self.count = self.count + 1;
        self.sum = self.sum + x;
        let n = self.bounds.len();
        let mut i: usize = 0;
        while i < n
            invariant
                n == self.bounds@.len(),
                self.cumulative@.len() == n,
                i <= n,
                self.count == old(self).count + 1,
                self.count <= u64::MAX,
                forall|j: int| 0 <= j < n ==> old(self).cumulative@[j] < self.count,
                forall|j: int|
                    0 <= j < i ==> self.cumulative@[j] == old(self).cumulative@[j] + (if x
                        <= self.bounds@[j] {
                        1int
                    } else {
                        0int
                    }),
                forall|j: int| i <= j < n ==> self.cumulative@[j] == old(self).cumulative@[j],
                self.bounds@ == old(self).bounds@,
                self.live == old(self).live,
                self.sum == old(self).sum + x,
            decreases n - i,
        {
            if x <= self.bounds[i] {
                let c = self.cumulative[i];
                self.cumulative.set(i, c + 1);
            }
            i = i + 1;
        }
    }

    /// Cumulative count of the bucket with boundary `bounds()[i]`.
    pub fn get_cumulative(&self, i: usize) -> (c: u64)
        requires
            i < self.counts().len(),
        ensures
            c == self.counts()[i as int],
    {
        self.cumulative[i]
    }

    /// Whether this handle reached the registry (false for the inert
    /// no-op handle).
    pub fn live(&self) -> (b: bool)
        ensures
            b == self.is_live(),
    {
        self.live
    }

    pub fn get_count(&self) -> (c: u64)
        ensures
            c == self.total(),
    {
        self.count
    }

    pub fn get_sum(&self) -> (s: u64)
        ensures
            s == self.sum_value(),
    {
        self.sum
    }

    pub fn num_buckets(&self) -> (n: usize)
        ensures
            n == self.counts().len(),
    {
        self.cumulative.len()
    }
}

} // verus!
