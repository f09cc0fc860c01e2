//! Label-vector instruments: a mapping from an ordered tuple of string label
//! values to a scalar reading of the declared kind. Entries are created
//! lazily on first use of a label combination and never evicted; a reset
//! zeroes every known combination without removing it.

use vstd::prelude::*;

verus! {

/// The spec-level contents of a label-vector instrument: label tuple (as a
/// sequence of character sequences) to current reading.
pub open spec fn value_or_zero(m: Map<Seq<Seq<char>>, int>, k: Seq<Seq<char>>) -> int {
    if m.contains_key(k) {
        m[k]
    } else {
        0
    }
}

pub open spec fn distinct_keys(ks: Seq<Seq<Seq<char>>>) -> bool {
    forall|i: int, j: int| 0 <= i < j < ks.len() ==> ks[i] != ks[j]
}

spec fn map_of(ks: Seq<Seq<Seq<char>>>, vs: Seq<i64>) -> Map<Seq<Seq<char>>, int>
    decreases ks.len(),
{
    if ks.len() == 0 || vs.len() == 0 {
        Map::empty()
    } else {
        map_of(ks.drop_last(), vs.drop_last()).insert(ks.last(), vs.last() as int)
    }
}

proof fn lemma_map_of_props(ks: Seq<Seq<Seq<char>>>, vs: Seq<i64>)
    requires
        ks.len() == vs.len(),
        distinct_keys(ks),
    ensures
        forall|k: Seq<Seq<char>>| #![trigger map_of(ks, vs).dom().contains(k)]
            map_of(ks, vs).dom().contains(k) <==> ks.contains(k),
        forall|i: int| #![trigger ks[i]]
            0 <= i < ks.len() ==> map_of(ks, vs)[ks[i]] == vs[i] as int,
    decreases ks.len(),
{
    if ks.len() > 0 {
        let kpre = ks.drop_last();
        let vpre = vs.drop_last();
        assert forall|i: int, j: int| 0 <= i < j < kpre.len() implies kpre[i] != kpre[j] by {
            assert(kpre[i] == ks[i]);
            assert(kpre[j] == ks[j]);
        }
        lemma_map_of_props(kpre, vpre);
        assert forall|k: Seq<Seq<char>>| #![trigger map_of(ks, vs).dom().contains(k)]
            map_of(ks, vs).dom().contains(k) <==> ks.contains(k) by {
            if map_of(ks, vs).dom().contains(k) {
                if k == ks.last() {
                    assert(ks[ks.len() - 1] == k);
                    assert(ks.contains(k));
                } else {
                    assert(map_of(kpre, vpre).dom().contains(k));
                    assert(kpre.contains(k));
                    let i = choose|i: int| 0 <= i < kpre.len() && kpre[i] == k;
                    assert(ks[i] == k);
                    assert(ks.contains(k));
                }
            }
            if ks.contains(k) {
                let i = choose|i: int| 0 <= i < ks.len() && ks[i] == k;
                if i < ks.len() - 1 {
                    assert(kpre[i] == k);
                    assert(kpre.contains(k));
                    assert(map_of(kpre, vpre).dom().contains(k));
                    assert(map_of(ks, vs).dom().contains(k));
                } else {
                    assert(k == ks.last());
                    assert(map_of(ks, vs).dom().contains(k));
                }
            }
        }
        assert forall|i: int| #![trigger ks[i]]
            0 <= i < ks.len() implies map_of(ks, vs)[ks[i]] == vs[i] as int by {
            if i < ks.len() - 1 {
                assert(ks[i] != ks.last());
                assert(kpre[i] == ks[i] && vpre[i] == vs[i]);
                assert(map_of(kpre, vpre)[kpre[i]] == vpre[i] as int);
            }
        }
    }
}

proof fn lemma_map_of_update(ks: Seq<Seq<Seq<char>>>, vs: Seq<i64>, i: int, v: i64)
    requires
        ks.len() == vs.len(),
        distinct_keys(ks),
        0 <= i < ks.len(),
    ensures
        map_of(ks, vs.update(i, v)) =~= map_of(ks, vs).insert(ks[i], v as int),
    decreases ks.len(),
{
    let vs2 = vs.update(i, v);
    if i == ks.len() - 1 {
        assert(vs2.drop_last() =~= vs.drop_last());
        assert(vs2.last() == v);
    } else {
        assert(vs2.drop_last() =~= vs.drop_last().update(i, v));
        assert(vs2.last() == vs.last());
        lemma_map_of_update(ks.drop_last(), vs.drop_last(), i, v);
        assert(ks[i] != ks.last());
    }
}

proof fn lemma_map_of_push(ks: Seq<Seq<Seq<char>>>, vs: Seq<i64>, k: Seq<Seq<char>>, v: i64)
    requires
        ks.len() == vs.len(),
    ensures
        map_of(ks.push(k), vs.push(v)) =~= map_of(ks, vs).insert(k, v as int),
{
    assert(ks.push(k).drop_last() =~= ks);
    assert(vs.push(v).drop_last() =~= vs);
    assert(ks.push(k).last() == k);
    assert(vs.push(v).last() == v);
}

proof fn lemma_map_of_in_range(ks: Seq<Seq<Seq<char>>>, vs: Seq<i64>)
    requires
        ks.len() == vs.len(),
        distinct_keys(ks),
    ensures
        forall|k: Seq<Seq<char>>| #![trigger map_of(ks, vs).dom().contains(k)]
            map_of(ks, vs).dom().contains(k) ==> i64::MIN <= map_of(ks, vs)[k] <= i64::MAX,
{
    lemma_map_of_props(ks, vs);
    assert forall|k: Seq<Seq<char>>| #![trigger map_of(ks, vs).dom().contains(k)]
        map_of(ks, vs).dom().contains(k) implies i64::MIN <= map_of(ks, vs)[k]
        <= i64::MAX by {
        assert(ks.contains(k));
        let i = choose|i: int| 0 <= i < ks.len() && ks[i] == k;
        assert(map_of(ks, vs)[ks[i]] == vs[i] as int);
    }
}

/// Elementwise equality of two label tuples.
fn labels_eq(a: &Vec<String>, b: &Vec<String>) -> (r: bool)
    ensures
        r == (a.deep_view() == b.deep_view()),
{
    if a.len() != b.len() {
        assert(a.deep_view().len() != b.deep_view().len());
        return false;
    }
    let n = a.len();
    let mut i: usize = 0;
    while i < n
        invariant
            i <= n,
            n == a@.len() && n == b@.len(),
            forall|j: int| 0 <= j < i ==> a.deep_view()[j] == b.deep_view()[j],
        decreases n - i,
    {
        if a[i] != b[i] {
            assert(a.deep_view()[i as int] != b.deep_view()[i as int]);
            return false;
        }
        i = i + 1;
    }
    assert(a.deep_view() =~= b.deep_view());
    true
}

/// Index of the entry whose label tuple equals `labels`, if one exists.
fn cells_find(keys: &Vec<Vec<String>>, labels: &Vec<String>) -> (r: Option<usize>)
    ensures
        match r {
            Some(i) => i < keys@.len() && keys.deep_view()[i as int] == labels.deep_view(),
            None => forall|j: int|
                0 <= j < keys@.len() ==> keys.deep_view()[j] != labels.deep_view(),
        },
{
    let n = keys.len();
    let mut i: usize = 0;
    while i < n
        invariant
            i <= n,
            n == keys@.len(),
            forall|j: int| 0 <= j < i ==> keys.deep_view()[j] != labels.deep_view(),
        decreases n - i,
    {
        if labels_eq(&keys[i], labels) {
            return Some(i);
        }
        i = i + 1;
    }
    None
}

/// The shared backing store of every label-vector instrument: parallel
/// vectors of label tuples and readings, with pairwise-distinct tuples.
struct Cells {
    keys: Vec<Vec<String>>,
    values: Vec<i64>,
}

impl Cells {
    spec fn keys_view(&self) -> Seq<Seq<Seq<char>>> {
        self.keys.deep_view()
    }

    spec fn map_view(&self) -> Map<Seq<Seq<char>>, int> {
        map_of(self.keys_view(), self.values@)
    }

    spec fn wf(&self, arity: nat) -> bool {
        &&& self.keys@.len() == self.values@.len()
        &&& distinct_keys(self.keys_view())
        &&& forall|i: int| 0 <= i < self.keys@.len() ==> self.keys_view()[i].len() == arity
    }

    fn new() -> (c: Cells)
        ensures
            forall|a: nat| c.wf(a),
            c.map_view() =~= Map::<Seq<Seq<char>>, int>::empty(),
            c.keys_view() =~= Seq::<Seq<Seq<char>>>::empty(),
    {
        Cells { keys: Vec::new(), values: Vec::new() }
    }

    /// Writes `v` under `labels`, creating the combination on first use.
    fn upsert(&mut self, labels: &Vec<String>, v: i64, Ghost(arity): Ghost<nat>)
        requires
            old(self).wf(arity),
            labels.deep_view().len() == arity,
        ensures
            final(self).wf(arity),
            final(self).map_view() =~= old(self).map_view().insert(labels.deep_view(), v as int),
            final(self).keys_view() == old(self).keys_view() || final(self).keys_view() == old(self).keys_view().push(labels.deep_view()),
    {
        proof {
            lemma_map_of_props(self.keys_view(), self.values@);
        }
        match cells_find(&self.keys, labels) {
            Some(i) => {
                self.values.set(i, v);
                proof {
                    lemma_map_of_update(
                        old(self).keys_view(),
                        old(self).values@,
                        i as int,
                        v,
                    );
                    assert(old(self).keys_view()[i as int] == labels.deep_view());
                }
            },
            None => {
                let owned = labels.clone();
                assert(owned@ =~= labels@);
                self.keys.push(owned);
                self.values.push(v);
                proof {
                    assert(self.keys_view() =~= old(self).keys_view().push(labels.deep_view()));
                    lemma_map_of_push(
                        old(self).keys_view(),
                        old(self).values@,
                        labels.deep_view(),
                        v,
                    );
                    assert(self.values@ =~= old(self).values@.push(v));
                }
            },
        }
    }

    /// Adds `delta` to the reading under `labels`, treating a combination
    /// not yet present as zero (so its first increment creates it).
    fn add(&mut self, labels: &Vec<String>, delta: i64, Ghost(arity): Ghost<nat>)
        requires
            old(self).wf(arity),
            labels.deep_view().len() == arity,
            i64::MIN <= value_or_zero(old(self).map_view(), labels.deep_view()) + delta
                <= i64::MAX,
        ensures
            final(self).wf(arity),
            final(self).map_view() =~= old(self).map_view().insert(
                labels.deep_view(),
                value_or_zero(old(self).map_view(), labels.deep_view()) + delta,
            ),
            final(self).keys_view() == old(self).keys_view() || final(self).keys_view() == old(self).keys_view().push(labels.deep_view()),
    {
        proof {
            lemma_map_of_props(self.keys_view(), self.values@);
        }
        match cells_find(&self.keys, labels) {
            Some(i) => {
                let cur = self.values[i];
                proof {
                    assert(old(self).keys_view()[i as int] == labels.deep_view());
                    assert(old(self).map_view()[old(self).keys_view()[i as int]] == old(self).values@[i as int] as int);
                    assert(old(self).keys_view().contains(labels.deep_view()));
                    assert(old(self).map_view().dom().contains(labels.deep_view()));
                    assert(old(self).map_view()[labels.deep_view()] == cur as int);
                }
                self.values.set(i, cur + delta);
                proof {
                    lemma_map_of_update(
                        old(self).keys_view(),
                        old(self).values@,
                        i as int,
                        (cur + delta) as i64,
                    );
                }
            },
            None => {
                proof {
                    assert(!old(self).keys_view().contains(labels.deep_view()));
                    assert(!old(self).map_view().dom().contains(labels.deep_view()));
                }
                let owned = labels.clone();
                assert(owned@ =~= labels@);
                self.keys.push(owned);
                self.values.push(delta);
                proof {
                    assert(self.keys_view() =~= old(self).keys_view().push(labels.deep_view()));
                    lemma_map_of_push(
                        old(self).keys_view(),
                        old(self).values@,
                        labels.deep_view(),
                        delta,
                    );
                    assert(self.values@ =~= old(self).values@.push(delta));
                }
            },
        }
    }

    fn get(&self, labels: &Vec<String>, Ghost(arity): Ghost<nat>) -> (r: Option<i64>)
        requires
            self.wf(arity),
        ensures
            match r {
                Some(v) => self.map_view().contains_key(labels.deep_view()) && v as int
                    == self.map_view()[labels.deep_view()],
                None => !self.map_view().contains_key(labels.deep_view()),
            },
    {
        proof {
            lemma_map_of_props(self.keys_view(), self.values@);
        }
        match cells_find(&self.keys, labels) {
            Some(i) => {
                proof {
                    assert(self.keys_view()[i as int] == labels.deep_view());
                    assert(self.map_view()[self.keys_view()[i as int]] == self.values@[i as int]
                        as int);
                    assert(self.keys_view().contains(labels.deep_view()));
                    assert(self.map_view().dom().contains(labels.deep_view()));
                }
                Some(self.values[i])
            },
            None => {
                proof {
                    assert(!self.keys_view().contains(labels.deep_view()));
                    assert(!self.map_view().dom().contains(labels.deep_view()));
                }
                None
            },
        }
    }

    /// Sets every currently known combination back to zero, keeping the set
    /// of combinations intact.
    fn zero_all(&mut self, Ghost(arity): Ghost<nat>)
        requires
            old(self).wf(arity),
        ensures
            final(self).wf(arity),
            final(self).keys_view() == old(self).keys_view(),
            final(self).map_view().dom() =~= old(self).map_view().dom(),
            forall|k: Seq<Seq<char>>|
                old(self).map_view().contains_key(k) ==> final(self).map_view()[k] == 0,
    {
        let n = self.values.len();
        let mut i: usize = 0;
        while i < n
            invariant
                i <= n,
                n == self.values@.len(),
                self.keys == old(self).keys,
                self.values@.len() == old(self).values@.len(),
                forall|j: int| 0 <= j < i ==> self.values@[j] == 0i64,
                forall|j: int| i <= j < n ==> self.values@[j] == old(self).values@[j],
            decreases n - i,
        {
            self.values.set(i, 0);
            i = i + 1;
        }
        proof {
            lemma_map_of_props(old(self).keys_view(), old(self).values@);
            lemma_map_of_props(self.keys_view(), self.values@);
            assert(self.keys_view() == old(self).keys_view());
            assert forall|k: Seq<Seq<char>>|
                self.map_view().dom().contains(k) <==> old(self).map_view().dom().contains(
                    k,
                ) by {
                assert(self.map_view().dom().contains(k) <==> self.keys_view().contains(k));
                assert(old(self).map_view().dom().contains(k) <==> old(self).keys_view().contains(k));
            }
            assert(self.map_view().dom() =~= old(self).map_view().dom());
            assert forall|k: Seq<Seq<char>>|
                old(self).map_view().contains_key(k) implies self.map_view()[k] == 0 by {
                assert(self.keys_view().contains(k));
                let i = choose|i: int|
                    0 <= i < self.keys_view().len() && self.keys_view()[i] == k;
                assert(self.keys_view()[i] == k);
                assert(self.map_view()[self.keys_view()[i]] == self.values@[i] as int);
            }
        }
    }
}

/// A labeled family of 64-bit gauges.
pub struct IntGaugeVec {
    live: bool,
    label_names: Vec<String>,
    cells: Cells,
}

impl IntGaugeVec {
    /// Whether the handle is backed by a successfully registered instrument.
    pub closed spec fn is_live(&self) -> bool {
        self.live
    }

    /// The declared number of labels; every read or write must supply
    /// exactly this many label values.
    pub closed spec fn arity(&self) -> nat {
        self.label_names@.len()
    }

    /// The declared label names.
    pub closed spec fn names(&self) -> Seq<Seq<char>> {
        self.label_names.deep_view()
    }

    /// Current contents: label tuple to reading.
    pub closed spec fn map_view(&self) -> Map<Seq<Seq<char>>, int> {
        self.cells.map_view()
    }

    pub closed spec fn wf(&self) -> bool {
        self.cells.wf(self.arity())
    }

    /// A freshly registered gauge family: no combination exists yet.
    pub fn new(label_names: Vec<String>) -> (g: IntGaugeVec)
        ensures
            g.is_live(),
            g.wf(),
            g.arity() == label_names@.len(),
            g.names() == label_names.deep_view(),
            g.map_view() =~= Map::<Seq<Seq<char>>, int>::empty(),
    {
        IntGaugeVec { live: true, label_names, cells: Cells::new() }
    }

    /// The no-op handle a caller holds when registration failed; it stays
    /// empty and every update on it is skipped.
    pub fn inert(label_names: Vec<String>) -> (g: IntGaugeVec)
        ensures
            !g.is_live(),
            g.wf(),
            g.arity() == label_names@.len(),
            g.names() == label_names.deep_view(),
            g.map_view() =~= Map::<Seq<Seq<char>>, int>::empty(),
    {
        IntGaugeVec { live: false, label_names, cells: Cells::new() }
    }

    /// Sets the reading under `labels`, creating the combination on first
    /// use.
    pub fn set(&mut self, labels: &Vec<String>, v: i64)
        requires
            old(self).wf(),
            labels.deep_view().len() == old(self).arity(),
        ensures
            final(self).wf(),
            final(self).is_live() == old(self).is_live(),
            final(self).arity() == old(self).arity(),
            final(self).names() == old(self).names(),
            old(self).is_live() ==> final(self).map_view() =~= old(self).map_view().insert(
                labels.deep_view(),
                v as int,
            ),
            !old(self).is_live() ==> final(self).map_view() == old(self).map_view(),
    {
        if self.live {
            let ghost a = self.arity();
            self.cells.upsert(labels, v, Ghost(a));
        }
    }

    /// Adds one to the reading under `labels`; a combination not yet present
    /// counts as zero, so its first increment reads one.
    pub fn inc(&mut self, labels: &Vec<String>)
        requires
            old(self).wf(),
            labels.deep_view().len() == old(self).arity(),
            old(self).is_live() ==> value_or_zero(old(self).map_view(), labels.deep_view())
                < i64::MAX,
        ensures
            final(self).wf(),
            final(self).is_live() == old(self).is_live(),
            final(self).arity() == old(self).arity(),
            final(self).names() == old(self).names(),
            old(self).is_live() ==> final(self).map_view() =~= old(self).map_view().insert(
                labels.deep_view(),
                value_or_zero(old(self).map_view(), labels.deep_view()) + 1,
            ),
            !old(self).is_live() ==> final(self).map_view() == old(self).map_view(),
    {
        if self.live {
            let ghost a = self.arity();
            proof {
                lemma_map_of_in_range(self.cells.keys_view(), self.cells.values@);
            }
            self.cells.add(labels, 1, Ghost(a));
        }
    }

    /// Adds `n` (of either sign) to the reading under `labels`; a
    /// combination not yet present counts as zero.
    pub fn inc_by(&mut self, labels: &Vec<String>, n: i64)
        requires
            old(self).wf(),
            labels.deep_view().len() == old(self).arity(),
            old(self).is_live() ==> i64::MIN <= value_or_zero(
                old(self).map_view(),
                labels.deep_view(),
            ) + n <= i64::MAX,
        ensures
            final(self).wf(),
            final(self).is_live() == old(self).is_live(),
            final(self).arity() == old(self).arity(),
            final(self).names() == old(self).names(),
            old(self).is_live() ==> final(self).map_view() =~= old(self).map_view().insert(
                labels.deep_view(),
                value_or_zero(old(self).map_view(), labels.deep_view()) + n,
            ),
            !old(self).is_live() ==> final(self).map_view() == old(self).map_view(),
    {
        if self.live {
            let ghost a = self.arity();
            proof {
                lemma_map_of_in_range(self.cells.keys_view(), self.cells.values@);
            }
            self.cells.add(labels, n, Ghost(a));
        }
    }

    /// Subtracts one from the reading under `labels`; a combination not
    /// yet present counts as zero.
    pub fn dec(&mut self, labels: &Vec<String>)
        requires
            old(self).wf(),
            labels.deep_view().len() == old(self).arity(),
            old(self).is_live() ==> value_or_zero(old(self).map_view(), labels.deep_view())
                > i64::MIN,
        ensures
            final(self).wf(),
            final(self).is_live() == old(self).is_live(),
            final(self).arity() == old(self).arity(),
            final(self).names() == old(self).names(),
            old(self).is_live() ==> final(self).map_view() =~= old(self).map_view().insert(
                labels.deep_view(),
                value_or_zero(old(self).map_view(), labels.deep_view()) - 1,
            ),
            !old(self).is_live() ==> final(self).map_view() == old(self).map_view(),
    {
        if self.live {
            let ghost a = self.arity();
            proof {
                lemma_map_of_in_range(self.cells.keys_view(), self.cells.values@);
            }
            self.cells.add(labels, -1, Ghost(a));
        }
    }

    /// Whether this handle reached the registry (false for the inert
    /// no-op handle).
    pub fn live(&self) -> (b: bool)
        ensures
            b == self.is_live(),
    {
        self.live
    }

    /// Reads the current value under `labels`, if that combination exists.
    pub fn get(&self, labels: &Vec<String>) -> (r: Option<i64>)
        requires
            self.wf(),
        ensures
            match r {
                Some(v) => self.map_view().contains_key(labels.deep_view()) && v as int
                    == self.map_view()[labels.deep_view()],
                None => !self.map_view().contains_key(labels.deep_view()),
            },
    {
        let ghost a = self.arity();
        self.cells.get(labels, Ghost(a))
    }

    /// Sets every currently known label combination back to zero, without
    /// removing any combination.
    pub fn reset(&mut self)
        requires
            old(self).wf(),
        ensures
            final(self).wf(),
            final(self).is_live() == old(self).is_live(),
            final(self).arity() == old(self).arity(),
            final(self).names() == old(self).names(),
            final(self).map_view().dom() =~= old(self).map_view().dom(),
            forall|k: Seq<Seq<char>>|
                old(self).map_view().contains_key(k) ==> final(self).map_view()[k] == 0,
    {
        let ghost a = self.arity();
        self.cells.zero_all(Ghost(a));
    }
}

/// A labeled family of monotonic 64-bit counters.
pub struct IntCounterVec {
    live: bool,
    label_names: Vec<String>,
    cells: Cells,
}

impl IntCounterVec {
    /// Whether the handle is backed by a successfully registered instrument.
    pub closed spec fn is_live(&self) -> bool {
        self.live
    }

    /// The declared number of labels.
    pub closed spec fn arity(&self) -> nat {
        self.label_names@.len()
    }

    /// The declared label names.
    pub closed spec fn names(&self) -> Seq<Seq<char>> {
        self.label_names.deep_view()
    }

    /// Current contents: label tuple to count.
    pub closed spec fn map_view(&self) -> Map<Seq<Seq<char>>, int> {
        self.cells.map_view()
    }

    pub closed spec fn wf(&self) -> bool {
        self.cells.wf(self.arity())
    }

    pub fn new(label_names: Vec<String>) -> (c: IntCounterVec)
        ensures
            c.is_live(),
            c.wf(),
            c.arity() == label_names@.len(),
            c.names() == label_names.deep_view(),
            c.map_view() =~= Map::<Seq<Seq<char>>, int>::empty(),
    {
        IntCounterVec { live: true, label_names, cells: Cells::new() }
    }

    pub fn inert(label_names: Vec<String>) -> (c: IntCounterVec)
        ensures
            !c.is_live(),
            c.wf(),
            c.arity() == label_names@.len(),
            c.names() == label_names.deep_view(),
            c.map_view() =~= Map::<Seq<Seq<char>>, int>::empty(),
    {
        IntCounterVec { live: false, label_names, cells: Cells::new() }
    }

    /// Adds one to the tally under `labels`; a combination not yet present
    /// counts as zero.
    pub fn inc(&mut self, labels: &Vec<String>)
        requires
            old(self).wf(),
            labels.deep_view().len() == old(self).arity(),
            old(self).is_live() ==> value_or_zero(old(self).map_view(), labels.deep_view())
                < i64::MAX,
        ensures
            final(self).wf(),
            final(self).is_live() == old(self).is_live(),
            final(self).arity() == old(self).arity(),
            old(self).is_live() ==> final(self).map_view() =~= old(self).map_view().insert(
                labels.deep_view(),
                value_or_zero(old(self).map_view(), labels.deep_view()) + 1,
            ),
            !old(self).is_live() ==> final(self).map_view() == old(self).map_view(),
    {
        if self.live {
            let ghost a = self.arity();
            proof {
                lemma_map_of_in_range(self.cells.keys_view(), self.cells.values@);
            }
            self.cells.add(labels, 1, Ghost(a));
        }
    }

    /// Adds `n` to the tally under `labels`.
    pub fn inc_by(&mut self, labels: &Vec<String>, n: i64)
        requires
            old(self).wf(),
            labels.deep_view().len() == old(self).arity(),
            0 <= n,
            old(self).is_live() ==> value_or_zero(old(self).map_view(), labels.deep_view()) + n
                <= i64::MAX,
        ensures
            final(self).wf(),
            final(self).is_live() == old(self).is_live(),
            final(self).arity() == old(self).arity(),
            old(self).is_live() ==> final(self).map_view() =~= old(self).map_view().insert(
                labels.deep_view(),
                value_or_zero(old(self).map_view(), labels.deep_view()) + n,
            ),
            !old(self).is_live() ==> final(self).map_view() == old(self).map_view(),
    {
        if self.live {
            let ghost a = self.arity();
            proof {
                lemma_map_of_in_range(self.cells.keys_view(), self.cells.values@);
            }
            self.cells.add(labels, n, Ghost(a));
        }
    }

    /// Whether this handle reached the registry (false for the inert
    /// no-op handle).
    pub fn live(&self) -> (b: bool)
        ensures
            b == self.is_live(),
    {
        self.live
    }

    pub fn get(&self, labels: &Vec<String>) -> (r: Option<i64>)
        requires
            self.wf(),
        ensures
            match r {
                Some(v) => self.map_view().contains_key(labels.deep_view()) && v as int
                    == self.map_view()[labels.deep_view()],
                None => !self.map_view().contains_key(labels.deep_view()),
            },
    {
        let ghost a = self.arity();
        self.cells.get(labels, Ghost(a))
    }
}

/// A labeled family of histograms sharing one set of bucket boundaries;
/// each label combination gets its own histogram, created lazily on its
/// first observation.
pub struct HistogramVec {
    live: bool,
    label_names: Vec<String>,
    bounds: Vec<u64>,
    keys: Vec<Vec<String>>,
    hists: Vec<crate::histogram::Histogram>,
}

impl HistogramVec {
    /// Whether the handle is backed by a successfully registered instrument.
    pub closed spec fn is_live(&self) -> bool {
        self.live
    }

    /// The declared number of labels.
    pub closed spec fn arity(&self) -> nat {
        self.label_names@.len()
    }

    /// The declared label names.
    pub closed spec fn names(&self) -> Seq<Seq<char>> {
        self.label_names.deep_view()
    }

    /// The shared bucket boundaries.
    pub closed spec fn bounds(&self) -> Seq<u64> {
        self.bounds@
    }

    /// The label tuples with a histogram so far, in creation order.
    pub closed spec fn keys_view(&self) -> Seq<Seq<Seq<char>>> {
        self.keys.deep_view()
    }

    /// The per-combination histograms, parallel to `keys_view()`.
    pub closed spec fn hists_view(&self) -> Seq<crate::histogram::Histogram> {
        self.hists@
    }

    pub closed spec fn wf(&self) -> bool {
        &&& self.keys@.len() == self.hists@.len()
        &&& distinct_keys(self.keys_view())
        &&& forall|i: int| 0 <= i < self.keys@.len() ==> self.keys_view()[i].len() == self.arity()
        &&& self.is_live() ==> crate::histogram::valid_buckets(self.bounds@)
        &&& forall|i: int| #![auto]
            0 <= i < self.hists@.len() ==> self.hists@[i].wf() && self.hists@[i].is_live()
                && self.hists@[i].bounds() == self.bounds@
    }

    pub fn new(label_names: Vec<String>, bounds: Vec<u64>) -> (h: HistogramVec)
        requires
            crate::histogram::valid_buckets(bounds@),
        ensures
            h.is_live(),
            h.wf(),
            h.arity() == label_names@.len(),
            h.names() == label_names.deep_view(),
            h.bounds() == bounds@,
            h.keys_view() == Seq::<Seq<Seq<char>>>::empty(),
    {
        let h = HistogramVec { live: true, label_names, bounds, keys: Vec::new(), hists: Vec::new() };
        proof {
            assert(h.keys_view() =~= Seq::<Seq<Seq<char>>>::empty());
        }
        h
    }

    /// The no-op handle a caller holds when registration failed.
    pub fn inert(label_names: Vec<String>) -> (h: HistogramVec)
        ensures
            !h.is_live(),
            h.wf(),
            h.arity() == label_names@.len(),
            h.names() == label_names.deep_view(),
            h.keys_view() == Seq::<Seq<Seq<char>>>::empty(),
    {
        let h = HistogramVec {
            live: false,
            label_names,
            bounds: Vec::new(),
            keys: Vec::new(),
            hists: Vec::new(),
        };
        proof {
            assert(h.keys_view() =~= Seq::<Seq<Seq<char>>>::empty());
        }
        h
    }

    /// Records one observation under `labels`, creating that combination's
    /// histogram on first use.
    pub fn observe(&mut self, labels: &Vec<String>, x: u64)
        requires
            old(self).wf(),
            labels.deep_view().len() == old(self).arity(),
            forall|i: int| #![auto]
                0 <= i < old(self).hists_view().len() ==> old(self).hists_view()[i].total()
                    < u64::MAX && old(self).hists_view()[i].sum_value() + x <= u64::MAX,
        ensures
            final(self).wf(),
            final(self).is_live() == old(self).is_live(),
            final(self).arity() == old(self).arity(),
            final(self).bounds() == old(self).bounds(),
            !old(self).is_live() ==> final(self).keys_view() == old(self).keys_view() && final(self).hists_view() == old(self).hists_view(),
            old(self).is_live() && old(self).keys_view().contains(labels.deep_view()) ==> final(self).keys_view() == old(self).keys_view() && forall|i: int| #![auto]
                0 <= i < old(self).hists_view().len() ==> if old(self).keys_view()[i]
                    == labels.deep_view() {
                    crate::histogram::observed(
                        old(self).hists_view()[i],
                        final(self).hists_view()[i],
                        x,
                    )
                } else {
                    final(self).hists_view()[i] == old(self).hists_view()[i]
                },
            old(self).is_live() && !old(self).keys_view().contains(labels.deep_view()) ==> final(self).keys_view() == old(self).keys_view().push(labels.deep_view()) && final(self).hists_view().len() == old(self).hists_view().len() + 1 && forall|i: int| #![auto]
                0 <= i < old(self).hists_view().len() ==> final(self).hists_view()[i] == old(self).hists_view()[i],
            old(self).is_live() && !old(self).keys_view().contains(labels.deep_view()) ==> final(self).hists_view().last().total() == 1 && final(self).hists_view().last().sum_value() == x,
    {
        if !self.live {
            return ;
        }
        match cells_find(&self.keys, labels) {
            Some(i) => {
                proof {
                    assert(old(self).keys_view().contains(labels.deep_view()));
                    assert forall|j: int|
                        0 <= j < old(self).keys_view().len() && old(self).keys_view()[j]
                            == labels.deep_view() implies j == i as int by {
                        if j != i as int {
                            assert(old(self).keys_view()[j] != old(self).keys_view()[i as int]);
                        }
                    }
                }
                let mut h = self.hists.remove(i);
                proof {
                    assert(h == old(self).hists_view()[i as int]);
                    assert(old(self).hists_view()[i as int].wf() && old(
                        self,
                    ).hists_view()[i as int].is_live());
                    assert(old(self).hists_view()[i as int].total() < u64::MAX && old(
                        self,
                    ).hists_view()[i as int].sum_value() + x <= u64::MAX);
                }
                h.observe(x);
                self.hists.insert(i, h);
                proof {
                    assert(self.hists@ =~= old(self).hists@.update(i as int, h));
                }
            },
            None => {
                proof {
                    assert(!old(self).keys_view().contains(labels.deep_view()));
                }
                let owned = labels.clone();
                assert(owned@ =~= labels@);
                let mut h = crate::histogram::Histogram::new(self.bounds.clone());
                h.observe(x);
                self.keys.push(owned);
                self.hists.push(h);
                proof {
                    assert(self.keys_view() =~= old(self).keys_view().push(labels.deep_view()));
                }
            },
        }
    }

    /// Whether this handle reached the registry (false for the inert
    /// no-op handle).
    pub fn live(&self) -> (b: bool)
        ensures
            b == self.is_live(),
    {
        self.live
    }

    /// The total observation count under `labels`, if that combination has
    /// a histogram.
    pub fn get_total(&self, labels: &Vec<String>) -> (r: Option<u64>)
        requires
            self.wf(),
        ensures
            match r {
                Some(v) => exists|i: int| #![auto]
                    0 <= i < self.keys_view().len() && self.keys_view()[i] == labels.deep_view()
                        && v == self.hists_view()[i].total(),
                None => !self.keys_view().contains(labels.deep_view()),
            },
    {
        match cells_find(&self.keys, labels) {
            Some(i) => Some(self.hists[i].get_count()),
            None => {
                proof {
                    assert(!self.keys_view().contains(labels.deep_view()));
                }
                None
            },
        }
    }
}

} // verus!
