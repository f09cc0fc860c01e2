//! The instrument registry and its fallible factories. A registry is an
//! explicitly constructed value handed by reference to every component that
//! registers metrics, so isolated registries can be built in tests. Each
//! factory claims a globally unique instrument name or reports a
//! `RegistrationError`; a failed registration is meant to degrade into an
//! inert handle (see the `*_or_inert` adapters), never to abort the process.

use vstd::prelude::*;
use crate::histogram::Histogram;
use crate::histogram::valid_buckets;
use crate::instruments::IntCounter;
use crate::instruments::IntGauge;
use crate::label_vec::IntCounterVec;
use crate::label_vec::IntGaugeVec;
use crate::label_vec::HistogramVec;

verus! {

/// Why an instrument could not be registered: its name collides with an
/// instrument registered earlier, or its histogram bucket list is not
/// non-empty and strictly increasing.
#[derive(Clone, Copy, PartialEq, Eq, Structural, Debug)]
pub enum RegistrationError {
    DuplicateName,
    InvalidBuckets,
}

/// Tracks the set of instrument names registered so far; names are claimed
/// exactly once and never released.
pub struct Registry {
    names: Vec<String>,
}

impl Registry {
    /// The names registered so far, in registration order.
    pub closed spec fn names_view(&self) -> Seq<Seq<char>> {
        self.names.deep_view()
    }

    pub open spec fn is_registered(&self, name: Seq<char>) -> bool {
        self.names_view().contains(name)
    }

    pub fn new() -> (r: Registry)
        ensures
            r.names_view() == Seq::<Seq<char>>::empty(),
    {
        let r = Registry { names: Vec::new() };
        proof {
            assert(r.names_view() =~= Seq::<Seq<char>>::empty());
        }
        r
    }

    /// Claims `name` if it is still free; on success the name is recorded,
    /// on failure the registry is unchanged.
    fn claim_name(&mut self, name: &str) -> (ok: bool)
        ensures
            ok ==> !old(self).is_registered(name@) && final(self).names_view() == old(
                self,
            ).names_view().push(name@),
            !ok ==> old(self).is_registered(name@) && final(self).names_view() == old(
                self,
            ).names_view(),
    {
        let owned: String = name.to_owned();
        let n = self.names.len();
        let mut i: usize = 0;
        while i < n
            invariant
                i <= n,
                n == self.names@.len(),
                owned@ == name@,
                forall|j: int| 0 <= j < i ==> self.names.deep_view()[j] != name@,
            decreases n - i,
        {
            if self.names[i] == owned {
                proof {
                    assert(self.names.deep_view()[i as int] == name@);
                    assert(self.names_view().contains(name@));
                }
                return false;
            }
            i = i + 1;
        }
        proof {
            assert(!self.names_view().contains(name@));
        }
        self.names.push(owned);
        proof {
            assert(self.names_view() =~= old(self).names_view().push(name@));
        }
        true
    }
}

/// Pairwise-distinct name list.
pub open spec fn distinct_strs(s: Seq<Seq<char>>) -> bool {
    forall|i: int, j: int| 0 <= i < j < s.len() ==> s[i] != s[j]
}

/// Pushing a name onto a name list adds exactly that name to its contents.
pub broadcast proof fn lemma_push_contains<T>(s: Seq<T>, x: T, y: T)
    ensures
        #[trigger] s.push(x).contains(y) <==> s.contains(y) || y == x,
{
    if s.push(x).contains(y) {
        let i = choose|i: int| 0 <= i < s.push(x).len() && s.push(x)[i] == y;
        if i < s.len() {
            assert(s[i] == y);
            assert(s.contains(y));
        }
    }
    if s.contains(y) {
        let i = choose|i: int| 0 <= i < s.len() && s[i] == y;
        assert(s.push(x)[i] == y);
        assert(s.push(x).contains(y));
    }
    if y == x {
        assert(s.push(x)[s.len() as int] == y);
        assert(s.push(x).contains(y));
    }
}

impl Registry {
    /// Claims a whole list of pairwise-distinct names in order, reporting
    /// for each whether it was still free; the names that were free are
    /// appended to the registry in list order.
    pub fn claim_all(&mut self, names: &Vec<String>) -> (live: Vec<bool>)
        requires
            distinct_strs(names.deep_view()),
        ensures
            live@.len() == names@.len(),
            forall|i: int| #![auto]
                0 <= i < names@.len() ==> (live@[i] <==> !old(self).is_registered(
                    names.deep_view()[i],
                )),
            forall|n: Seq<char>| #![auto]
                final(self).is_registered(n) <==> old(self).is_registered(n)
                    || names.deep_view().contains(n),
            (forall|i: int| #![auto]
                0 <= i < names@.len() ==> !old(self).is_registered(names.deep_view()[i]))
                ==> final(self).names_view() == old(self).names_view() + names.deep_view(),
    {
        let ghost nv = names.deep_view();
        let n = names.len();
        let mut live: Vec<bool> = Vec::new();
        let mut i: usize = 0;
        proof {
            assert(nv.take(0) =~= Seq::<Seq<char>>::empty());
        }
        while i < n
            invariant
                i <= n,
                n == names@.len(),
                nv == names.deep_view(),
                distinct_strs(nv),
                live@.len() == i,
                forall|j: int| #![auto]
                    0 <= j < i ==> (live@[j] <==> !old(self).is_registered(nv[j])),
                forall|k: Seq<char>| #![auto]
                    self.is_registered(k) <==> old(self).is_registered(k) || nv.take(
                        i as int,
                    ).contains(k),
                (forall|j: int| #![auto] 0 <= j < n ==> !old(self).is_registered(nv[j]))
                    ==> self.names_view() == old(self).names_view() + nv.take(i as int),
            decreases n - i,
        {
            let ghost pre = self.names_view();
            let ok = self.claim_name(names[i].as_str());
            live.push(ok);
            proof {
                assert(nv[i as int] == names@[i as int]@);
                assert forall|j: int| 0 <= j < i implies nv.take(i as int)[j]
                    != nv[i as int] by {
                    assert(nv.take(i as int)[j] == nv[j]);
                }
                assert(!nv.take(i as int).contains(nv[i as int]));
                assert(nv.take(i as int + 1) =~= nv.take(i as int).push(nv[i as int]));
                if ok {
                    assert(self.names_view() == pre.push(nv[i as int]));
                } else {
                    assert(old(self).is_registered(nv[i as int]));
                }
                assert forall|k: Seq<char>|
                    self.is_registered(k) <==> old(self).is_registered(k) || nv.take(
                        i as int + 1,
                    ).contains(k) by {
                    assert(pre.contains(k) <==> old(self).is_registered(k) || nv.take(
                        i as int,
                    ).contains(k));
                    lemma_push_contains(nv.take(i as int), nv[i as int], k);
                    assert(nv.take(i as int + 1) == nv.take(i as int).push(nv[i as int]));
                    lemma_push_contains(pre, nv[i as int], k);
                }
            }
            i = i + 1;
        }
        proof {
            assert(nv.take(n as int) =~= nv);
        }
        live
    }
}

/// Registers a monotonic counter under `name`, or reports the name
/// collision; the registry is unchanged on failure.
pub fn try_create_int_counter(registry: &mut Registry, name: &str, _help: &str) -> (r: Result<
    IntCounter,
    RegistrationError,
>)
    ensures
        match r {
            Ok(c) => !old(registry).is_registered(name@) && final(registry).names_view() == old(registry).names_view().push(name@) && c.is_live() && c.val() == 0,
            Err(e) => e == RegistrationError::DuplicateName && old(registry).is_registered(name@)
                && final(registry).names_view() == old(registry).names_view(),
        },
{
    if registry.claim_name(name) {
        Ok(IntCounter::new())
    } else {
        Err(RegistrationError::DuplicateName)
    }
}

/// Registers a gauge under `name`, or reports the name collision.
pub fn try_create_int_gauge(registry: &mut Registry, name: &str, _help: &str) -> (r: Result<
    IntGauge,
    RegistrationError,
>)
    ensures
        match r {
            Ok(g) => !old(registry).is_registered(name@) && final(registry).names_view() == old(registry).names_view().push(name@) && g.is_live() && g.val() == 0,
            Err(e) => e == RegistrationError::DuplicateName && old(registry).is_registered(name@)
                && final(registry).names_view() == old(registry).names_view(),
        },
{
    if registry.claim_name(name) {
        Ok(IntGauge::new())
    } else {
        Err(RegistrationError::DuplicateName)
    }
}

/// Registers a gauge family keyed by the given label names.
pub fn try_create_int_gauge_vec(
    registry: &mut Registry,
    name: &str,
    _help: &str,
    label_names: Vec<String>,
) -> (r: Result<IntGaugeVec, RegistrationError>)
    ensures
        match r {
            Ok(g) => !old(registry).is_registered(name@) && final(registry).names_view() == old(registry).names_view().push(name@) && g.is_live() && g.wf() && g.arity() == label_names@.len()
                && g.map_view() == Map::<Seq<Seq<char>>, int>::empty(),
            Err(e) => e == RegistrationError::DuplicateName && old(registry).is_registered(name@)
                && final(registry).names_view() == old(registry).names_view(),
        },
{
    if registry.claim_name(name) {
        Ok(IntGaugeVec::new(label_names))
    } else {
        Err(RegistrationError::DuplicateName)
    }
}

/// Registers a counter family keyed by the given label names.
pub fn try_create_int_counter_vec(
    registry: &mut Registry,
    name: &str,
    _help: &str,
    label_names: Vec<String>,
) -> (r: Result<IntCounterVec, RegistrationError>)
    ensures
        match r {
            Ok(c) => !old(registry).is_registered(name@) && final(registry).names_view() == old(registry).names_view().push(name@) && c.is_live() && c.wf() && c.arity() == label_names@.len()
                && c.map_view() == Map::<Seq<Seq<char>>, int>::empty(),
            Err(e) => e == RegistrationError::DuplicateName && old(registry).is_registered(name@)
                && final(registry).names_view() == old(registry).names_view(),
        },
{
    if registry.claim_name(name) {
        Ok(IntCounterVec::new(label_names))
    } else {
        Err(RegistrationError::DuplicateName)
    }
}

/// Registers a histogram family keyed by the given label names, with the
/// default latency buckets.
pub fn try_create_histogram_vec(
    registry: &mut Registry,
    name: &str,
    _help: &str,
    label_names: Vec<String>,
) -> (r: Result<HistogramVec, RegistrationError>)
    ensures
        match r {
            Ok(h) => !old(registry).is_registered(name@) && final(registry).names_view() == old(registry).names_view().push(name@) && h.is_live() && h.wf() && h.arity() == label_names@.len()
                && h.bounds() == default_buckets_spec() && h.keys_view() == Seq::<
                Seq<Seq<char>>,
            >::empty(),
            Err(e) => e == RegistrationError::DuplicateName && old(registry).is_registered(name@)
                && final(registry).names_view() == old(registry).names_view(),
        },
{
    if registry.claim_name(name) {
        Ok(HistogramVec::new(label_names, default_buckets()))
    } else {
        Err(RegistrationError::DuplicateName)
    }
}

/// Converts a fallible histogram-family registration into a handle.
pub fn histogram_vec_or_inert(
    r: Result<HistogramVec, RegistrationError>,
    label_names: Vec<String>,
) -> (h: HistogramVec)
    ensures
        match r {
            Ok(x) => h == x,
            Err(_) => !h.is_live() && h.wf() && h.arity() == label_names@.len() && h.keys_view()
                == Seq::<Seq<Seq<char>>>::empty(),
        },
{
    match r {
        Ok(x) => x,
        Err(_) => HistogramVec::inert(label_names),
    }
}

/// Registers a histogram with an explicit bucket list. An invalid bucket
/// list (empty, or not strictly increasing) is reported before the name is
/// looked at, and claims nothing.
pub fn try_create_histogram_with_buckets(
    registry: &mut Registry,
    name: &str,
    _help: &str,
    buckets: Vec<u64>,
) -> (r: Result<Histogram, RegistrationError>)
    ensures
        match r {
            Ok(h) => valid_buckets(buckets@) && !old(registry).is_registered(name@) && final(registry).names_view() == old(registry).names_view().push(name@) && h.is_live() && h.wf()
                && h.bounds() == buckets@ && h.total() == 0 && h.sum_value() == 0 && forall|i: int|
                0 <= i < h.counts().len() ==> h.counts()[i] == 0,
            Err(e) => final(registry).names_view() == old(registry).names_view() && (e
                == RegistrationError::InvalidBuckets <==> !valid_buckets(buckets@)) && (e
                == RegistrationError::DuplicateName ==> old(registry).is_registered(name@)),
        },
{
    if !buckets_are_valid(&buckets) {
        return Err(RegistrationError::InvalidBuckets);
    }
    if registry.claim_name(name) {
        Ok(Histogram::new(buckets))
    } else {
        Err(RegistrationError::DuplicateName)
    }
}

/// Registers a histogram with the default latency bucket boundaries (in
/// microseconds, 5 ms up to 10 s).
pub fn try_create_histogram(registry: &mut Registry, name: &str, help: &str) -> (r: Result<
    Histogram,
    RegistrationError,
>)
    ensures
        match r {
            Ok(h) => !old(registry).is_registered(name@) && final(registry).names_view() == old(registry).names_view().push(name@) && h.is_live() && h.wf() && h.bounds()
                == default_buckets_spec() && h.total() == 0 && h.sum_value() == 0 && forall|i: int|
                0 <= i < h.counts().len() ==> h.counts()[i] == 0,
            Err(e) => e == RegistrationError::DuplicateName && old(registry).is_registered(name@)
                && final(registry).names_view() == old(registry).names_view(),
        },
{
    let buckets = default_buckets();
    match try_create_histogram_with_buckets(registry, name, help, buckets) {
        Ok(h) => Ok(h),
        Err(e) => {
            proof {
                assert(valid_buckets(default_buckets_spec()));
                assert(e != RegistrationError::InvalidBuckets);
            }
            Err(RegistrationError::DuplicateName)
        },
    }
}

/// The default histogram boundaries, in microseconds: 0.005 s to 10 s.
pub open spec fn default_buckets_spec() -> Seq<u64> {
    seq![
        5000u64,
        10000u64,
        25000u64,
        50000u64,
        100000u64,
        250000u64,
        500000u64,
        1000000u64,
        2500000u64,
        5000000u64,
        10000000u64,
    ]
}

pub fn default_buckets() -> (b: Vec<u64>)
    ensures
        b@ == default_buckets_spec(),
        valid_buckets(b@),
{
    let b: Vec<u64> = vec![
        5000u64,
        10000u64,
        25000u64,
        50000u64,
        100000u64,
        250000u64,
        500000u64,
        1000000u64,
        2500000u64,
        5000000u64,
        10000000u64,
    ];
    proof {
        assert(b@ =~= default_buckets_spec());
    }
    b
}

/// Ten to the power `e`.
pub open spec fn pow10(e: nat) -> nat
    decreases e,
{
    if e == 0 {
        1
    } else {
        10 * pow10((e - 1) as nat)
    }
}

proof fn lemma_pow10_positive(e: nat)
    ensures
        pow10(e) >= 1,
    decreases e,
{
    if e > 0 {
        lemma_pow10_positive((e - 1) as nat);
    }
}

proof fn lemma_pow10_increases(a: nat, b: nat)
    requires
        a <= b,
    ensures
        pow10(a) <= pow10(b),
    decreases b,
{
    if a < b {
        lemma_pow10_increases(a, (b - 1) as nat);
        lemma_pow10_positive((b - 1) as nat);
    }
}

proof fn lemma_pow10_18()
    ensures
        pow10(18) == 1000000000000000000nat,
{
    reveal_with_fuel(pow10, 19);
}

fn pow10_exec(e: u32) -> (r: u64)
    requires
        e <= 18,
    ensures
        r as nat == pow10(e as nat),
{
    let mut k: u32 = 0;
    let mut value: u64 = 1;
    while k < e
        invariant
            k <= e,
            e <= 18,
            value as nat == pow10(k as nat),
        decreases e - k,
    {
        proof {
            lemma_pow10_increases((k + 1) as nat, 18nat);
            lemma_pow10_18();
        }
        value = value * 10;
        k = k + 1;
    }
    value
}

/// The buckets `decimal_buckets(min_pow, max_pow)` yields: for each decimal
/// order of magnitude from `min_pow` to `max_pow` seconds, the boundaries
/// 1, 2 and 5 times that power of ten, expressed in microseconds.
pub open spec fn decimal_buckets_spec(min_pow: int, max_pow: int) -> Seq<u64>
    decreases max_pow - min_pow + 1,
{
    if min_pow > max_pow || min_pow < -6 || max_pow > 12 {
        Seq::empty()
    } else {
        decimal_buckets_spec(min_pow, max_pow - 1).push(pow10((max_pow + 6) as nat) as u64).push(
            (2 * pow10((max_pow + 6) as nat)) as u64,
        ).push((5 * pow10((max_pow + 6) as nat)) as u64)
    }
}

/// Bucket boundaries covering `10^min_pow` to `5 * 10^max_pow` seconds in a
/// 1-2-5 progression, in microseconds; e.g. powers -3 to -1 give 1 ms up to
/// 0.5 s.
pub fn decimal_buckets(min_pow: i32, max_pow: i32) -> (b: Vec<u64>)
    requires
        -6 <= min_pow <= max_pow <= 12,
    ensures
        b@ == decimal_buckets_spec(min_pow as int, max_pow as int),
        valid_buckets(b@),
{
    let mut b: Vec<u64> = Vec::new();
    let mut p: i32 = min_pow;
    proof {
        assert(b@ =~= decimal_buckets_spec(min_pow as int, min_pow as int - 1));
    }
    while p <= max_pow
        invariant
            min_pow <= p <= max_pow + 1,
            -6 <= min_pow,
            max_pow <= 12,
            b@ == decimal_buckets_spec(min_pow as int, p as int - 1),
            b@.len() == 3 * (p - min_pow),
            forall|i: int, j: int| 0 <= i < j < b@.len() ==> b@[i] < b@[j],
            p > min_pow ==> b@.len() > 0 && b@.last() as nat == 5 * pow10((p + 5) as nat),
        decreases max_pow + 1 - p,
    {
        let e: u32 = (p + 6) as u32;
        proof {
            assert(e == p + 6);
            lemma_pow10_18();
            lemma_pow10_increases(e as nat, 18nat);
            lemma_pow10_positive(e as nat);
        }
        let base: u64 = pow10_exec(e);
        proof {
            if p > min_pow {
                assert(pow10(e as nat) == 10 * pow10((e - 1) as nat));
                lemma_pow10_positive((e - 1) as nat);
                assert(b@.last() < base);
            }
        }
        b.push(base);
        b.push(2 * base);
        b.push(5 * base);
        proof {
            assert(b@ =~= decimal_buckets_spec(min_pow as int, p as int));
        }
        p = p + 1;
    }
    proof {
        assert(b@.len() > 0);
    }
    b
}

/// Checks the histogram bucket rule: non-empty and strictly increasing.
fn buckets_are_valid(buckets: &Vec<u64>) -> (ok: bool)
    ensures
        ok == valid_buckets(buckets@),
{
    let n = buckets.len();
    if n == 0 {
        return false;
    }
    let mut i: usize = 1;
    while i < n
        invariant
            1 <= i <= n,
            n == buckets@.len(),
            forall|j: int| 0 < j < i ==> #[trigger] buckets@[j] > buckets@[j - 1],
        decreases n - i,
    {
        if buckets[i - 1] >= buckets[i] {
            return false;
        }
        i = i + 1;
    }
    proof {
        assert forall|p: int, q: int| 0 <= p < q < buckets@.len() implies buckets@[p]
            < buckets@[q] by {
            lemma_adjacent_implies_sorted(buckets@, p, q);
        }
    }
    true
}

proof fn lemma_adjacent_implies_sorted(s: Seq<u64>, p: int, q: int)
    requires
        forall|j: int| 0 < j < s.len() ==> #[trigger] s[j] > s[j - 1],
        0 <= p < q < s.len(),
    ensures
        s[p] < s[q],
    decreases q - p,
{
    if p + 1 < q {
        lemma_adjacent_implies_sorted(s, p + 1, q);
    }
}

/// Converts a fallible counter registration into a handle: the registered
/// counter on success, the inert no-op handle on failure.
pub fn counter_or_inert(r: Result<IntCounter, RegistrationError>) -> (c: IntCounter)
    ensures
        match r {
            Ok(x) => c == x,
            Err(_) => !c.is_live() && c.val() == 0,
        },
{
    match r {
        Ok(x) => x,
        Err(_) => IntCounter::inert(),
    }
}

/// Converts a fallible gauge registration into a handle.
pub fn gauge_or_inert(r: Result<IntGauge, RegistrationError>) -> (g: IntGauge)
    ensures
        match r {
            Ok(x) => g == x,
            Err(_) => !g.is_live() && g.val() == 0,
        },
{
    match r {
        Ok(x) => x,
        Err(_) => IntGauge::inert(),
    }
}

/// Converts a fallible gauge-family registration into a handle.
pub fn gauge_vec_or_inert(
    r: Result<IntGaugeVec, RegistrationError>,
    label_names: Vec<String>,
) -> (g: IntGaugeVec)
    ensures
        match r {
            Ok(x) => g == x,
            Err(_) => !g.is_live() && g.wf() && g.arity() == label_names@.len() && g.map_view()
                == Map::<Seq<Seq<char>>, int>::empty(),
        },
{
    match r {
        Ok(x) => x,
        Err(_) => IntGaugeVec::inert(label_names),
    }
}

/// Converts a fallible counter-family registration into a handle.
pub fn counter_vec_or_inert(
    r: Result<IntCounterVec, RegistrationError>,
    label_names: Vec<String>,
) -> (c: IntCounterVec)
    ensures
        match r {
            Ok(x) => c == x,
            Err(_) => !c.is_live() && c.wf() && c.arity() == label_names@.len() && c.map_view()
                == Map::<Seq<Seq<char>>, int>::empty(),
        },
{
    match r {
        Ok(x) => x,
        Err(_) => IntCounterVec::inert(label_names),
    }
}

/// Converts a fallible histogram registration into a handle.
pub fn histogram_or_inert(r: Result<Histogram, RegistrationError>) -> (h: Histogram)
    ensures
        match r {
            Ok(x) => h == x,
            Err(_) => !h.is_live() && h.wf() && h.total() == 0 && h.sum_value() == 0,
        },
{
    match r {
        Ok(x) => x,
        Err(_) => Histogram::inert(),
    }
}

} // verus!
