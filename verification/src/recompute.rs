//! Recomputation of the derived metrics: the three bandwidth gauges from a
//! bandwidth snapshot, and the two per-client mesh gauges from the current
//! gossip mesh composition. The mesh gauges follow a reset-then-repopulate
//! protocol: every client kind's reading is first set to zero, then each
//! mesh peer of a tracked topic increments the bucket of its resolved
//! client kind, so a client kind that lost all its mesh peers reads zero
//! instead of keeping a stale count.

use vstd::prelude::*;
use crate::instruments::IntGauge;
use crate::label_vec::IntGaugeVec;
use crate::label_vec::value_or_zero;
use crate::mesh::ClientKind;
use crate::mesh::MeshTopic;
use crate::mesh::PeerTable;
use crate::mesh::TopicKind;
use crate::mesh::all_client_kinds;
use crate::mesh::all_client_kinds_spec;
use crate::mesh::client_key;
use crate::mesh::is_client_key;
use crate::mesh::lemma_all_client_kinds_complete;
use crate::mesh::lemma_client_labels_injective;
use crate::mesh::lemma_count_le_total;
use crate::mesh::lemma_mesh_count_le_len;
use crate::mesh::mesh_count_for;
use crate::mesh::resolve_client;
use crate::mesh::topics_count_for;
use crate::mesh::topics_peer_total;

verus! {

/// Sets the three bandwidth gauges from one snapshot of the cumulative
/// inbound and outbound byte counters: inbound, outbound, and their sum.
/// After the call the total gauge reads exactly inbound plus outbound.
pub fn update_bandwidth_metrics(
    inbound: u64,
    outbound: u64,
    inbound_gauge: &mut IntGauge,
    outbound_gauge: &mut IntGauge,
    total_gauge: &mut IntGauge,
)
    requires
        inbound + outbound <= i64::MAX,
    ensures
        final(inbound_gauge).is_live() == old(inbound_gauge).is_live(),
        final(outbound_gauge).is_live() == old(outbound_gauge).is_live(),
        final(total_gauge).is_live() == old(total_gauge).is_live(),
        old(inbound_gauge).is_live() ==> final(inbound_gauge).val() == inbound,
        old(outbound_gauge).is_live() ==> final(outbound_gauge).val() == outbound,
        old(total_gauge).is_live() ==> final(total_gauge).val() == inbound + outbound,
        !old(inbound_gauge).is_live() ==> final(inbound_gauge).val() == old(inbound_gauge).val(),
        !old(outbound_gauge).is_live() ==> final(outbound_gauge).val() == old(outbound_gauge).val(),
        !old(total_gauge).is_live() ==> final(total_gauge).val() == old(total_gauge).val(),
        old(inbound_gauge).is_live() && old(outbound_gauge).is_live() && old(total_gauge).is_live() ==> final(total_gauge).val() == final(inbound_gauge).val() + final(outbound_gauge).val(),
{
    inbound_gauge.set(inbound as i64);
    outbound_gauge.set(outbound as i64);
    total_gauge.set((inbound + outbound) as i64);
}

/// What a successful mesh recomputation leaves in a per-client gauge
/// family: every client kind's bucket exists and holds exactly the number
/// of mesh peers of the tracked topic kind that resolve to that client.
/// The reading is a function of the mesh snapshot alone.
pub open spec fn mesh_gauges_recomputed(
    m: Map<Seq<Seq<char>>, int>,
    topics: Seq<MeshTopic>,
    tbl: Seq<(u64, ClientKind)>,
    kind: TopicKind,
) -> bool {
    forall|c: ClientKind| #![trigger client_key(c)]
        m.contains_key(client_key(c)) && m[client_key(c)] == topics_count_for(topics, tbl, kind, c)
}

/// Law (idempotence per cycle): any two recomputations over the same mesh
/// snapshot leave identical per-client-kind readings, whatever the gauges
/// held before each run.
pub proof fn lemma_recompute_idempotent(
    m1: Map<Seq<Seq<char>>, int>,
    m2: Map<Seq<Seq<char>>, int>,
    topics: Seq<MeshTopic>,
    tbl: Seq<(u64, ClientKind)>,
    kind: TopicKind,
)
    requires
        mesh_gauges_recomputed(m1, topics, tbl, kind),
        mesh_gauges_recomputed(m2, topics, tbl, kind),
    ensures
        forall|c: ClientKind| #![trigger client_key(c)] m1[client_key(c)] == m2[client_key(c)],
{
    assert forall|c: ClientKind| #![trigger client_key(c)] m1[client_key(c)] == m2[client_key(c)] by {
        assert(mesh_gauges_recomputed(m1, topics, tbl, kind));
        assert(mesh_gauges_recomputed(m2, topics, tbl, kind));
        assert(m1.contains_key(client_key(c)));
        assert(m2.contains_key(client_key(c)));
    }
}

/// The reset phase: sets every client kind's bucket to zero in both mesh
/// gauge families, so that after it every tracked (topic-kind, client-kind)
/// pair reads zero before repopulation begins. Label combinations outside
/// the client-kind set are left untouched.
pub fn reset_mesh_gauges(block_mesh: &mut IntGaugeVec, aggregate_mesh: &mut IntGaugeVec)
    requires
        old(block_mesh).wf(),
        old(aggregate_mesh).wf(),
        old(block_mesh).arity() == 1,
        old(aggregate_mesh).arity() == 1,
    ensures
        final(block_mesh).wf() && final(aggregate_mesh).wf(),
        final(block_mesh).arity() == 1 && final(aggregate_mesh).arity() == 1,
        final(block_mesh).is_live() == old(block_mesh).is_live(),
        final(aggregate_mesh).is_live() == old(aggregate_mesh).is_live(),
        old(block_mesh).is_live() ==> forall|c: ClientKind| #![trigger client_key(c)]
            final(block_mesh).map_view().contains_key(client_key(c)) && final(block_mesh).map_view()[client_key(c)] == 0,
        old(aggregate_mesh).is_live() ==> forall|c: ClientKind| #![trigger client_key(c)]
            final(aggregate_mesh).map_view().contains_key(client_key(c)) && final(aggregate_mesh).map_view()[client_key(c)] == 0,
        forall|k: Seq<Seq<char>>| #![auto]
            !is_client_key(k) ==> (final(block_mesh).map_view().contains_key(k) <==> old(block_mesh).map_view().contains_key(k)) && (old(block_mesh).map_view().contains_key(k)
                ==> final(block_mesh).map_view()[k] == old(block_mesh).map_view()[k]),
        forall|k: Seq<Seq<char>>| #![auto]
            !is_client_key(k) ==> (final(aggregate_mesh).map_view().contains_key(k) <==> old(aggregate_mesh).map_view().contains_key(k)) && (old(aggregate_mesh).map_view().contains_key(k)
                ==> final(aggregate_mesh).map_view()[k] == old(aggregate_mesh).map_view()[k]),
        !old(block_mesh).is_live() ==> final(block_mesh).map_view() == old(block_mesh).map_view(),
        !old(aggregate_mesh).is_live() ==> final(aggregate_mesh).map_view() == old(aggregate_mesh).map_view(),
{
    let kinds = all_client_kinds();
    let n = kinds.len();
    let mut i: usize = 0;
    while i < n
        invariant
            i <= n,
            n == 7,
            kinds@ == all_client_kinds_spec(),
            block_mesh.wf() && aggregate_mesh.wf(),
            block_mesh.arity() == 1 && aggregate_mesh.arity() == 1,
            block_mesh.is_live() == old(block_mesh).is_live(),
            aggregate_mesh.is_live() == old(aggregate_mesh).is_live(),
            old(block_mesh).is_live() ==> forall|j: int| #![auto]
                0 <= j < i ==> block_mesh.map_view().contains_key(client_key(kinds@[j]))
                    && block_mesh.map_view()[client_key(kinds@[j])] == 0,
            old(aggregate_mesh).is_live() ==> forall|j: int| #![auto]
                0 <= j < i ==> aggregate_mesh.map_view().contains_key(client_key(kinds@[j]))
                    && aggregate_mesh.map_view()[client_key(kinds@[j])] == 0,
            forall|k: Seq<Seq<char>>| #![auto]
                !is_client_key(k) ==> (block_mesh.map_view().contains_key(k) <==> old(block_mesh).map_view().contains_key(k)) && (old(block_mesh).map_view().contains_key(k)
                    ==> block_mesh.map_view()[k] == old(block_mesh).map_view()[k]),
            forall|k: Seq<Seq<char>>| #![auto]
                !is_client_key(k) ==> (aggregate_mesh.map_view().contains_key(k) <==> old(aggregate_mesh).map_view().contains_key(k)) && (old(aggregate_mesh).map_view().contains_key(k) ==> aggregate_mesh.map_view()[k] == old(aggregate_mesh).map_view()[k]),
            !old(block_mesh).is_live() ==> block_mesh.map_view() == old(block_mesh).map_view(),
            !old(aggregate_mesh).is_live() ==> aggregate_mesh.map_view() == old(aggregate_mesh).map_view(),
        decreases n - i,
    {
        let kind = kinds[i];
        let label: Vec<String> = vec![kind.as_str().to_owned()];
        proof {
            assert(label.deep_view() =~= client_key(kind));
        }
        block_mesh.set(&label, 0);
        aggregate_mesh.set(&label, 0);
        proof {
            assert(is_client_key(client_key(kind)));
            assert forall|j: int| 0 <= j < i && kinds@[j] != kind implies client_key(
                kinds@[j],
            ) != client_key(kind) by {
                lemma_client_labels_injective(kinds@[j], kind);
            }
        }
        i = i + 1;
    }
    proof {
        if old(block_mesh).is_live() {
            assert forall|c: ClientKind| #![trigger client_key(c)]
                block_mesh.map_view().contains_key(client_key(c)) && block_mesh.map_view()[client_key(
                    c,
                )] == 0 by {
                lemma_all_client_kinds_complete(c);
                let j = choose|j: int|
                    0 <= j < all_client_kinds_spec().len() && all_client_kinds_spec()[j] == c;
                assert(kinds@[j] == c);
            }
        }
        if old(aggregate_mesh).is_live() {
            assert forall|c: ClientKind| #![trigger client_key(c)]
                aggregate_mesh.map_view().contains_key(client_key(c))
                    && aggregate_mesh.map_view()[client_key(c)] == 0 by {
                lemma_all_client_kinds_complete(c);
                let j = choose|j: int|
                    0 <= j < all_client_kinds_spec().len() && all_client_kinds_spec()[j] == c;
                assert(kinds@[j] == c);
            }
        }
    }
}

proof fn lemma_peer_total_take_step(s: Seq<MeshTopic>, t: int, kind: TopicKind)
    requires
        0 <= t < s.len(),
    ensures
        topics_peer_total(s.take(t + 1), kind) == topics_peer_total(s.take(t), kind) + (if s[t].kind
            == kind {
            s[t].mesh_peers@.len() as int
        } else {
            0int
        }),
{
    assert(s.take(t + 1).drop_last() =~= s.take(t));
    assert(s.take(t + 1).last() == s[t]);
}

proof fn lemma_peer_total_take_le(s: Seq<MeshTopic>, t: int, kind: TopicKind)
    requires
        0 <= t <= s.len(),
    ensures
        topics_peer_total(s.take(t), kind) <= topics_peer_total(s, kind),
    decreases s.len() - t,
{
    if t < s.len() {
        lemma_peer_total_take_step(s, t, kind);
        lemma_peer_total_take_le(s, t + 1, kind);
    } else {
        assert(s.take(t) =~= s);
    }
}

proof fn lemma_count_take_step(
    s: Seq<MeshTopic>,
    tbl: Seq<(u64, ClientKind)>,
    kind: TopicKind,
    c: ClientKind,
    t: int,
)
    requires
        0 <= t < s.len(),
    ensures
        topics_count_for(s.take(t + 1), tbl, kind, c) == topics_count_for(s.take(t), tbl, kind, c)
            + (if s[t].kind == kind {
            mesh_count_for(tbl, s[t].mesh_peers@, c)
        } else {
            0int
        }),
{
    assert(s.take(t + 1).drop_last() =~= s.take(t));
    assert(s.take(t + 1).last() == s[t]);
}

proof fn lemma_mesh_count_take_step(
    tbl: Seq<(u64, ClientKind)>,
    mesh: Seq<u64>,
    c: ClientKind,
    p: int,
)
    requires
        0 <= p < mesh.len(),
    ensures
        mesh_count_for(tbl, mesh.take(p + 1), c) == mesh_count_for(tbl, mesh.take(p), c) + (
        if resolve_client(tbl, mesh[p]) == c {
            1int
        } else {
            0int
        }),
{
    assert(mesh.take(p + 1).drop_last() =~= mesh.take(p));
    assert(mesh.take(p + 1).last() == mesh[p]);
}

/// The repopulation phase for one gauge family: walks every subscribed
/// topic of the tracked kind and, for each of its mesh peers, increments
/// the bucket of the peer's resolved client kind. Starting from the reset
/// state, each client kind's bucket ends exactly at its peer count.
pub fn repopulate_mesh_gauge(
    gauge: &mut IntGaugeVec,
    topics: &Vec<MeshTopic>,
    peers: &PeerTable,
    kind: TopicKind,
)
    requires
        old(gauge).wf(),
        old(gauge).arity() == 1,
        old(gauge).is_live() ==> forall|c: ClientKind| #![trigger client_key(c)]
            old(gauge).map_view().contains_key(client_key(c)) && old(gauge).map_view()[client_key(
                c,
            )] == 0,
        topics_peer_total(topics@, kind) <= i64::MAX,
    ensures
        final(gauge).wf(),
        final(gauge).arity() == 1,
        final(gauge).is_live() == old(gauge).is_live(),
        old(gauge).is_live() ==> mesh_gauges_recomputed(
            final(gauge).map_view(),
            topics@,
            peers.view_seq(),
            kind,
        ),
        forall|k: Seq<Seq<char>>| #![auto]
            !is_client_key(k) ==> (final(gauge).map_view().contains_key(k) <==> old(gauge).map_view().contains_key(k)) && (old(gauge).map_view().contains_key(k) ==> final(gauge).map_view()[k] == old(gauge).map_view()[k]),
        !old(gauge).is_live() ==> final(gauge).map_view() == old(gauge).map_view(),
{
    let ghost tbl = peers.view_seq();
    let n = topics.len();
    let mut t: usize = 0;
    proof {
        assert(topics@.take(0) =~= Seq::<MeshTopic>::empty());
        if old(gauge).is_live() {
            assert forall|c: ClientKind| #![trigger client_key(c)]
                gauge.map_view().contains_key(client_key(c)) && gauge.map_view()[client_key(c)]
                    == topics_count_for(topics@.take(0), tbl, kind, c) by {
                assert(old(gauge).map_view().contains_key(client_key(c)) && old(
                    gauge,
                ).map_view()[client_key(c)] == 0);
            }
        }
    }
    while t < n
        invariant
            t <= n,
            n == topics@.len(),
            tbl == peers.view_seq(),
            gauge.wf(),
            gauge.arity() == 1,
            gauge.is_live() == old(gauge).is_live(),
            topics_peer_total(topics@, kind) <= i64::MAX,
            old(gauge).is_live() ==> forall|c: ClientKind| #![trigger client_key(c)]
                gauge.map_view().contains_key(client_key(c)) && gauge.map_view()[client_key(c)]
                    == topics_count_for(topics@.take(t as int), tbl, kind, c),
            forall|k: Seq<Seq<char>>| #![auto]
                !is_client_key(k) ==> (gauge.map_view().contains_key(k) <==> old(gauge).map_view().contains_key(k)) && (old(gauge).map_view().contains_key(k)
                    ==> gauge.map_view()[k] == old(gauge).map_view()[k]),
            !old(gauge).is_live() ==> gauge.map_view() == old(gauge).map_view(),
        decreases n - t,
    {
        let topic_matches = topics[t].kind == kind;
        if topic_matches {
            let m = topics[t].mesh_peers.len();
            let mut p: usize = 0;
            proof {
                assert(topics@[t as int].mesh_peers@.take(0) =~= Seq::<u64>::empty());
                if old(gauge).is_live() {
                    assert forall|c: ClientKind| #![trigger client_key(c)]
                        gauge.map_view().contains_key(client_key(c))
                            && gauge.map_view()[client_key(c)] == topics_count_for(
                            topics@.take(t as int),
                            tbl,
                            kind,
                            c,
                        ) + mesh_count_for(
                            tbl,
                            topics@[t as int].mesh_peers@.take(0),
                            c,
                        ) by {
                        assert(gauge.map_view().contains_key(client_key(c))
                            && gauge.map_view()[client_key(c)] == topics_count_for(
                            topics@.take(t as int),
                            tbl,
                            kind,
                            c,
                        ));
                        assert(mesh_count_for(
                            tbl,
                            topics@[t as int].mesh_peers@.take(0),
                            c,
                        ) == 0);
                    }
                }
            }
            while p < m
                invariant
                    p <= m,
                    t < n,
                    n == topics@.len(),
                    m == topics@[t as int].mesh_peers@.len(),
                    topics@[t as int].kind == kind,
                    tbl == peers.view_seq(),
                    gauge.wf(),
                    gauge.arity() == 1,
                    gauge.is_live() == old(gauge).is_live(),
                    topics_peer_total(topics@, kind) <= i64::MAX,
                    old(gauge).is_live() ==> forall|c: ClientKind| #![trigger client_key(c)]
                        gauge.map_view().contains_key(client_key(c)) && gauge.map_view()[client_key(
                            c,
                        )] == topics_count_for(topics@.take(t as int), tbl, kind, c)
                            + mesh_count_for(
                            tbl,
                            topics@[t as int].mesh_peers@.take(p as int),
                            c,
                        ),
                    forall|k: Seq<Seq<char>>| #![auto]
                        !is_client_key(k) ==> (gauge.map_view().contains_key(k) <==> old(gauge).map_view().contains_key(k)) && (old(gauge).map_view().contains_key(k)
                            ==> gauge.map_view()[k] == old(gauge).map_view()[k]),
                    !old(gauge).is_live() ==> gauge.map_view() == old(gauge).map_view(),
                decreases m - p,
            {
                let id = topics[t].mesh_peers[p];
                let ckind = peers.resolve(id);
                let label: Vec<String> = vec![ckind.as_str().to_owned()];
                proof {
                    assert(label.deep_view() =~= client_key(ckind));
                    let ghost mesh = topics@[t as int].mesh_peers@;
                    if old(gauge).is_live() {
                        // the current bucket stays below the grand total, so
                        // one more increment cannot overflow
                        lemma_count_le_total(topics@.take(t as int), tbl, kind, ckind);
                        lemma_mesh_count_le_len(tbl, mesh.take(p as int), ckind);
                        lemma_peer_total_take_step(topics@, t as int, kind);
                        lemma_peer_total_take_le(topics@, t as int + 1, kind);
                        assert(mesh.take(p as int).len() == p);
                        assert(value_or_zero(gauge.map_view(), client_key(ckind)) < i64::MAX);
                    }
                }
                gauge.inc(&label);
                proof {
                    let ghost mesh = topics@[t as int].mesh_peers@;
                    lemma_mesh_count_take_step(tbl, mesh, ckind, p as int);
                    assert(resolve_client(tbl, mesh[p as int]) == ckind);
                    if old(gauge).is_live() {
                        assert forall|c: ClientKind| #![trigger client_key(c)]
                            gauge.map_view().contains_key(client_key(c))
                                && gauge.map_view()[client_key(c)] == topics_count_for(
                                topics@.take(t as int),
                                tbl,
                                kind,
                                c,
                            ) + mesh_count_for(tbl, mesh.take(p as int + 1), c) by {
                            lemma_mesh_count_take_step(tbl, mesh, c, p as int);
                            if c != ckind {
                                lemma_client_labels_injective(c, ckind);
                            }
                        }
                    }
                    assert forall|k: Seq<Seq<char>>| !is_client_key(k) implies k != client_key(
                        ckind,
                    ) by {
                        assert(is_client_key(client_key(ckind)));
                    }
                }
                p = p + 1;
            }
            proof {
                assert(topics@[t as int].mesh_peers@.take(m as int) =~= topics@[t as int].mesh_peers@);
                lemma_count_take_step_all(topics@, tbl, kind, t as int);
                if old(gauge).is_live() {
                    assert forall|c: ClientKind| #![trigger client_key(c)]
                        gauge.map_view().contains_key(client_key(c))
                            && gauge.map_view()[client_key(c)] == topics_count_for(
                            topics@.take(t as int + 1),
                            tbl,
                            kind,
                            c,
                        ) by {
                        assert(gauge.map_view()[client_key(c)] == topics_count_for(
                            topics@.take(t as int),
                            tbl,
                            kind,
                            c,
                        ) + mesh_count_for(tbl, topics@[t as int].mesh_peers@, c));
                    }
                }
            }
        } else {
            proof {
                lemma_count_take_step_all(topics@, tbl, kind, t as int);
                if old(gauge).is_live() {
                    assert forall|c: ClientKind| #![trigger client_key(c)]
                        gauge.map_view().contains_key(client_key(c))
                            && gauge.map_view()[client_key(c)] == topics_count_for(
                            topics@.take(t as int + 1),
                            tbl,
                            kind,
                            c,
                        ) by {
                        assert(gauge.map_view()[client_key(c)] == topics_count_for(
                            topics@.take(t as int),
                            tbl,
                            kind,
                            c,
                        ));
                    }
                }
            }
        }
        t = t + 1;
    }
    proof {
        assert(topics@.take(n as int) =~= topics@);
        if old(gauge).is_live() {
            assert forall|c: ClientKind| #![trigger client_key(c)]
                gauge.map_view().contains_key(client_key(c)) && gauge.map_view()[client_key(c)]
                    == topics_count_for(topics@, tbl, kind, c) by {
                assert(gauge.map_view().contains_key(client_key(c))
                    && gauge.map_view()[client_key(c)] == topics_count_for(
                    topics@.take(n as int),
                    tbl,
                    kind,
                    c,
                ));
            }
            assert(mesh_gauges_recomputed(gauge.map_view(), topics@, tbl, kind));
        }
    }
}

proof fn lemma_count_take_step_all(
    s: Seq<MeshTopic>,
    tbl: Seq<(u64, ClientKind)>,
    kind: TopicKind,
    t: int,
)
    requires
        0 <= t < s.len(),
    ensures
        forall|c: ClientKind| #![trigger topics_count_for(s.take(t + 1), tbl, kind, c)]
            topics_count_for(s.take(t + 1), tbl, kind, c) == topics_count_for(
                s.take(t),
                tbl,
                kind,
                c,
            ) + (if s[t].kind == kind {
                mesh_count_for(tbl, s[t].mesh_peers@, c)
            } else {
                0int
            }),
{
    assert forall|c: ClientKind| #![trigger topics_count_for(s.take(t + 1), tbl, kind, c)]
        topics_count_for(s.take(t + 1), tbl, kind, c) == topics_count_for(s.take(t), tbl, kind, c)
            + (if s[t].kind == kind {
            mesh_count_for(tbl, s[t].mesh_peers@, c)
        } else {
            0int
        }) by {
        lemma_count_take_step(s, tbl, kind, c, t);
    }
}

/// One full mesh-composition recomputation cycle, exactly the reset phase
/// followed by the repopulation phase: first every (tracked topic kind,
/// client kind) bucket is set to zero, then every mesh peer of a
/// block-propagation topic and of an aggregate-attestation topic increments
/// the bucket of its resolved client kind (falling back to `Unknown`).
/// Topics of any other kind are ignored entirely.
pub fn update_gossip_metrics(
    topics: &Vec<MeshTopic>,
    peers: &PeerTable,
    block_mesh: &mut IntGaugeVec,
    aggregate_mesh: &mut IntGaugeVec,
)
    requires
        old(block_mesh).wf(),
        old(aggregate_mesh).wf(),
        old(block_mesh).arity() == 1,
        old(aggregate_mesh).arity() == 1,
        topics_peer_total(topics@, TopicKind::BeaconBlock) <= i64::MAX,
        topics_peer_total(topics@, TopicKind::BeaconAggregateAndProof) <= i64::MAX,
    ensures
        final(block_mesh).wf() && final(aggregate_mesh).wf(),
        final(block_mesh).arity() == 1 && final(aggregate_mesh).arity() == 1,
        final(block_mesh).is_live() == old(block_mesh).is_live(),
        final(aggregate_mesh).is_live() == old(aggregate_mesh).is_live(),
        old(block_mesh).is_live() ==> mesh_gauges_recomputed(
            final(block_mesh).map_view(),
            topics@,
            peers.view_seq(),
            TopicKind::BeaconBlock,
        ),
        old(aggregate_mesh).is_live() ==> mesh_gauges_recomputed(
            final(aggregate_mesh).map_view(),
            topics@,
            peers.view_seq(),
            TopicKind::BeaconAggregateAndProof,
        ),
        forall|k: Seq<Seq<char>>| #![auto]
            !is_client_key(k) ==> (final(block_mesh).map_view().contains_key(k) <==> old(block_mesh).map_view().contains_key(k)) && (old(block_mesh).map_view().contains_key(k)
                ==> final(block_mesh).map_view()[k] == old(block_mesh).map_view()[k]),
        forall|k: Seq<Seq<char>>| #![auto]
            !is_client_key(k) ==> (final(aggregate_mesh).map_view().contains_key(k) <==> old(aggregate_mesh).map_view().contains_key(k)) && (old(aggregate_mesh).map_view().contains_key(k)
                ==> final(aggregate_mesh).map_view()[k] == old(aggregate_mesh).map_view()[k]),
        !old(block_mesh).is_live() ==> final(block_mesh).map_view() == old(block_mesh).map_view(),
        !old(aggregate_mesh).is_live() ==> final(aggregate_mesh).map_view() == old(aggregate_mesh).map_view(),
{
    reset_mesh_gauges(block_mesh, aggregate_mesh);
    repopulate_mesh_gauge(block_mesh, topics, peers, TopicKind::BeaconBlock);
    repopulate_mesh_gauge(aggregate_mesh, topics, peers, TopicKind::BeaconAggregateAndProof);
}

} // verus!
