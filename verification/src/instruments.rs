//! Scalar instruments: monotonic integer counters and free-valued integer
//! gauges. Each handle is a sum of a live instrument and an inert no-op
//! handle: a handle whose registration failed degrades every update to a
//! silent no-op, because metrics are diagnostic and must never take the node
//! down.

use vstd::prelude::*;

verus! {

/// A monotonic signed 64-bit counter. Monotonicity is a convention of the
/// callers: the only mutators are `inc` and `inc_by` with a non-negative
/// amount, so the value never decreases.
pub struct IntCounter {
    live: bool,
    value: i64,
}

impl IntCounter {
    /// Whether the handle is backed by a successfully registered instrument.
    pub closed spec fn is_live(&self) -> bool {
        self.live
    }

    /// The current count.
    pub closed spec fn val(&self) -> int {
        self.value as int
    }

    /// A freshly registered counter reads zero.
    pub fn new() -> (c: IntCounter)
        ensures
            c.is_live(),
            c.val() == 0,
    {
        IntCounter { live: true, value: 0 }
    }

    /// The no-op handle a caller holds when registration failed; every
    /// update on it is skipped and it reads zero forever.
    pub fn inert() -> (c: IntCounter)
        ensures
            !c.is_live(),
            c.val() == 0,
    {
        IntCounter { live: false, value: 0 }
    }

    pub fn inc(&mut self)
        requires
            old(self).val() < i64::MAX,
        ensures
            final(self).is_live() == old(self).is_live(),
            old(self).is_live() ==> final(self).val() == old(self).val() + 1,
            !old(self).is_live() ==> final(self).val() == old(self).val(),
    {
        if self.live {
            self.value = self.value + 1;
        }
    }

    pub fn inc_by(&mut self, n: i64)
        requires
            0 <= n,
            old(self).val() + n <= i64::MAX,
        ensures
            final(self).is_live() == old(self).is_live(),
            old(self).is_live() ==> final(self).val() == old(self).val() + n,
            !old(self).is_live() ==> final(self).val() == old(self).val(),
    {
        if self.live {
            self.value = self.value + n;
        }
    }

    /// Whether this handle reached the registry (false for the inert
    /// no-op handle).
    pub fn live(&self) -> (b: bool)
        ensures
            b == self.is_live(),
    {
        self.live
    }

    pub fn get(&self) -> (v: i64)
        ensures
            v == self.val(),
    {
        self.value
    }
}

/// A free-valued signed 64-bit gauge.
pub struct IntGauge {
    live: bool,
    value: i64,
}

impl IntGauge {
    /// Whether the handle is backed by a successfully registered instrument.
    pub closed spec fn is_live(&self) -> bool {
        self.live
    }

    /// The current reading.
    pub closed spec fn val(&self) -> int {
        self.value as int
    }

    /// A freshly registered gauge reads zero.
    pub fn new() -> (g: IntGauge)
        ensures
            g.is_live(),
            g.val() == 0,
    {
        IntGauge { live: true, value: 0 }
    }

    /// The no-op handle a caller holds when registration failed.
    pub fn inert() -> (g: IntGauge)
        ensures
            !g.is_live(),
            g.val() == 0,
    {
        IntGauge { live: false, value: 0 }
    }

    /// Sets the gauge: the value read back afterwards is exactly `v`,
    /// whatever was set before.
    pub fn set(&mut self, v: i64)
        ensures
            final(self).is_live() == old(self).is_live(),
            old(self).is_live() ==> final(self).val() == v,
            !old(self).is_live() ==> final(self).val() == old(self).val(),
    {
        if self.live {
            self.value = v;
        }
    }

    pub fn inc(&mut self)
        requires
            old(self).val() < i64::MAX,
        ensures
            final(self).is_live() == old(self).is_live(),
            old(self).is_live() ==> final(self).val() == old(self).val() + 1,
            !old(self).is_live() ==> final(self).val() == old(self).val(),
    {
        if self.live {
            self.value = self.value + 1;
        }
    }

    pub fn inc_by(&mut self, n: i64)
        requires
            i64::MIN <= old(self).val() + n <= i64::MAX,
        ensures
            final(self).is_live() == old(self).is_live(),
            old(self).is_live() ==> final(self).val() == old(self).val() + n,
            !old(self).is_live() ==> final(self).val() == old(self).val(),
    {
        if self.live {
            self.value = self.value + n;
        }
    }

    pub fn dec(&mut self)
        requires
            old(self).val() > i64::MIN,
        ensures
            final(self).is_live() == old(self).is_live(),
            old(self).is_live() ==> final(self).val() == old(self).val() - 1,
            !old(self).is_live() ==> final(self).val() == old(self).val(),
    {
        if self.live {
            self.value = self.value - 1;
        }
    }

    /// Whether this handle reached the registry (false for the inert
    /// no-op handle).
    pub fn live(&self) -> (b: bool)
        ensures
            b == self.is_live(),
    {
        self.live
    }

    pub fn get(&self) -> (v: i64)
        ensures
            v == self.val(),
    {
        self.value
    }
}

/// The running total of a sequence of increment amounts.
pub open spec fn increments_total(incs: Seq<int>) -> int
    decreases incs.len(),
{
    if incs.len() == 0 {
        0
    } else {
        increments_total(incs.drop_last()) + incs.last()
    }
}

/// Replays a sequence of `inc_by` steps on a counter that starts at `start`:
/// each step is exactly the transition `inc_by` promises for a live counter.
pub open spec fn counter_after(start: int, incs: Seq<int>) -> int
    decreases incs.len(),
{
    if incs.len() == 0 {
        start
    } else {
        counter_after(start, incs.drop_last()) + incs.last()
    }
}

/// Replays a sequence of `set` steps on a gauge that starts at `start`:
/// each step is exactly the transition `set` promises for a live gauge.
pub open spec fn gauge_after(start: int, sets: Seq<int>) -> int {
    if sets.len() == 0 {
        start
    } else {
        sets.last()
    }
}

/// Law: for every sequence of `inc`/`inc_by` calls on a live counter, the
/// value equals the sum of the increment amounts.
pub proof fn lemma_counter_value_is_sum_of_increments(incs: Seq<int>)
    ensures
        counter_after(0, incs) == increments_total(incs),
    decreases incs.len(),
{
    if incs.len() > 0 {
        lemma_counter_value_is_sum_of_increments(incs.drop_last());
    }
}

/// Law: under non-negative increments a counter never decreases: its value
/// after any further increment is at least its value at any earlier point.
pub proof fn lemma_counter_never_decreases(start: int, incs: Seq<int>)
    requires
        forall|i: int| 0 <= i < incs.len() ==> incs[i] >= 0,
    ensures
        counter_after(start, incs) >= start,
    decreases incs.len(),
{
    if incs.len() > 0 {
        lemma_counter_never_decreases(start, incs.drop_last());
    }
}

/// Law: for every non-empty sequence of `set(v)` calls on a live gauge, the
/// value read back is the last `v` set.
pub proof fn lemma_gauge_reads_last_set(start: int, sets: Seq<int>)
    requires
        sets.len() > 0,
    ensures
        gauge_after(start, sets) == sets.last(),
{
}

} // verus!
