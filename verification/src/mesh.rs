//! A plain-value model of the live network state that the derived-metric
//! recomputation reads: the closed set of known client kinds, the tracked
//! gossip topic kinds, a peer-to-client lookup table, and a topic's mesh
//! peers. Peers are carried as integer identifiers; a peer whose identity is
//! not in the table resolves to `Unknown`.

use vstd::prelude::*;

verus! {

/// The closed enumeration of client-kind categories: every recognized
/// implementation identity, plus `Unknown` for peers not yet classified.
#[derive(Clone, Copy, PartialEq, Eq, Structural, Debug)]
pub enum ClientKind {
    Lighthouse,
    Lodestar,
    Nimbus,
    Prysm,
    Teku,
    Grandine,
    Unknown,
}

/// The label value under which a client kind is reported.
pub open spec fn client_label(c: ClientKind) -> Seq<char> {
    match c {
        ClientKind::Lighthouse => "Lighthouse"@,
        ClientKind::Lodestar => "Lodestar"@,
        ClientKind::Nimbus => "Nimbus"@,
        ClientKind::Prysm => "Prysm"@,
        ClientKind::Teku => "Teku"@,
        ClientKind::Grandine => "Grandine"@,
        ClientKind::Unknown => "Unknown"@,
    }
}

/// The singleton label tuple for a client kind, the key under which the
/// per-client mesh gauges store their readings.
pub open spec fn client_key(c: ClientKind) -> Seq<Seq<char>> {
    seq![client_label(c)]
}

pub open spec fn is_client_key(k: Seq<Seq<char>>) -> bool {
    exists|c: ClientKind| k == client_key(c)
}

impl ClientKind {
    /// The string form of the label value.
    pub fn as_str(&self) -> (s: &'static str)
        ensures
            s@ == client_label(*self),
    {
        match self {
            ClientKind::Lighthouse => "Lighthouse",
            ClientKind::Lodestar => "Lodestar",
            ClientKind::Nimbus => "Nimbus",
            ClientKind::Prysm => "Prysm",
            ClientKind::Teku => "Teku",
            ClientKind::Grandine => "Grandine",
            ClientKind::Unknown => "Unknown",
        }
    }
}

/// All client kinds, in reporting order.
pub open spec fn all_client_kinds_spec() -> Seq<ClientKind> {
    seq![
        ClientKind::Lighthouse,
        ClientKind::Lodestar,
        ClientKind::Nimbus,
        ClientKind::Prysm,
        ClientKind::Teku,
        ClientKind::Grandine,
        ClientKind::Unknown,
    ]
}

/// The iterable, closed enumeration of client-kind categories.
pub fn all_client_kinds() -> (v: Vec<ClientKind>)
    ensures
        v@ == all_client_kinds_spec(),
{
    let v: Vec<ClientKind> = vec![
        ClientKind::Lighthouse,
        ClientKind::Lodestar,
        ClientKind::Nimbus,
        ClientKind::Prysm,
        ClientKind::Teku,
        ClientKind::Grandine,
        ClientKind::Unknown,
    ];
    proof {
        assert(v@ =~= all_client_kinds_spec());
    }
    v
}

/// Every client kind occurs in the enumeration.
pub proof fn lemma_all_client_kinds_complete(c: ClientKind)
    ensures
        all_client_kinds_spec().contains(c),
{
    match c {
        ClientKind::Lighthouse => assert(all_client_kinds_spec()[0] == c),
        ClientKind::Lodestar => assert(all_client_kinds_spec()[1] == c),
        ClientKind::Nimbus => assert(all_client_kinds_spec()[2] == c),
        ClientKind::Prysm => assert(all_client_kinds_spec()[3] == c),
        ClientKind::Teku => assert(all_client_kinds_spec()[4] == c),
        ClientKind::Grandine => assert(all_client_kinds_spec()[5] == c),
        ClientKind::Unknown => assert(all_client_kinds_spec()[6] == c),
    }
}

/// The length of a client kind's label value.
spec fn label_len(c: ClientKind) -> int {
    match c {
        ClientKind::Lighthouse => 10,
        ClientKind::Lodestar => 8,
        ClientKind::Nimbus => 6,
        ClientKind::Prysm => 5,
        ClientKind::Teku => 4,
        ClientKind::Grandine => 8,
        ClientKind::Unknown => 7,
    }
}

/// The first character of a client kind's label value.
spec fn label_first(c: ClientKind) -> char {
    match c {
        ClientKind::Lighthouse => 'L',
        ClientKind::Lodestar => 'L',
        ClientKind::Nimbus => 'N',
        ClientKind::Prysm => 'P',
        ClientKind::Teku => 'T',
        ClientKind::Grandine => 'G',
        ClientKind::Unknown => 'U',
    }
}

proof fn lemma_label_facts(c: ClientKind)
    ensures
        client_label(c).len() == label_len(c),
        client_label(c)[0] == label_first(c),
{
    reveal_strlit("Lighthouse");
    reveal_strlit("Lodestar");
    reveal_strlit("Nimbus");
    reveal_strlit("Prysm");
    reveal_strlit("Teku");
    reveal_strlit("Grandine");
    reveal_strlit("Unknown");
    match c {
        ClientKind::Lighthouse => assert(client_label(c) == "Lighthouse"@),
        ClientKind::Lodestar => assert(client_label(c) == "Lodestar"@),
        ClientKind::Nimbus => assert(client_label(c) == "Nimbus"@),
        ClientKind::Prysm => assert(client_label(c) == "Prysm"@),
        ClientKind::Teku => assert(client_label(c) == "Teku"@),
        ClientKind::Grandine => assert(client_label(c) == "Grandine"@),
        ClientKind::Unknown => assert(client_label(c) == "Unknown"@),
    }
}

/// Distinct client kinds report under distinct label values, so one kind's
/// update can never land in another kind's bucket.
pub proof fn lemma_client_labels_injective(a: ClientKind, b: ClientKind)
    requires
        a != b,
    ensures
        client_label(a) != client_label(b),
        client_key(a) != client_key(b),
{
    lemma_label_facts(a);
    lemma_label_facts(b);
    assert(label_len(a) != label_len(b) || label_first(a) != label_first(b));
    assert(client_label(a) != client_label(b));
    assert(client_key(a)[0] == client_label(a));
    assert(client_key(b)[0] == client_label(b));
}

/// The kind of a gossip topic; only the block-propagation and
/// aggregate-attestation kinds feed the per-client mesh gauges.
#[derive(Clone, Copy, PartialEq, Eq, Structural, Debug)]
pub enum TopicKind {
    BeaconBlock,
    BeaconAggregateAndProof,
    Attestation,
    SyncCommitteeMessage,
    Other,
}

/// One currently subscribed gossip topic together with its mesh peers.
pub struct MeshTopic {
    pub kind: TopicKind,
    pub mesh_peers: Vec<u64>,
}

/// The peer-identity to client-kind lookup, as a plain table. The earliest
/// entry for an identity wins.
pub struct PeerTable {
    entries: Vec<(u64, ClientKind)>,
}

/// First-match lookup in the table.
pub open spec fn table_lookup(s: Seq<(u64, ClientKind)>, id: u64) -> Option<ClientKind>
    decreases s.len(),
{
    if s.len() == 0 {
        None
    } else if s[0].0 == id {
        Some(s[0].1)
    } else {
        table_lookup(s.drop_first(), id)
    }
}

/// A peer with no table entry falls back to `Unknown`.
pub open spec fn resolve_client(s: Seq<(u64, ClientKind)>, id: u64) -> ClientKind {
    match table_lookup(s, id) {
        Some(c) => c,
        None => ClientKind::Unknown,
    }
}

impl PeerTable {
    pub closed spec fn view_seq(&self) -> Seq<(u64, ClientKind)> {
        self.entries@
    }

    pub fn new() -> (t: PeerTable)
        ensures
            t.view_seq() == Seq::<(u64, ClientKind)>::empty(),
    {
        let t = PeerTable { entries: Vec::new() };
        proof {
            assert(t.view_seq() =~= Seq::<(u64, ClientKind)>::empty());
        }
        t
    }

    /// Records a classification; earlier entries for the same identity keep
    /// precedence.
    pub fn insert(&mut self, id: u64, kind: ClientKind)
        ensures
            final(self).view_seq() == old(self).view_seq().push((id, kind)),
    {
        self.entries.push((id, kind));
    }

    pub fn lookup(&self, id: u64) -> (r: Option<ClientKind>)
        ensures
            r == table_lookup(self.view_seq(), id),
    {
        let n = self.entries.len();
        let mut i: usize = 0;
        proof {
            assert(self.view_seq().skip(0) =~= self.view_seq());
        }
        while i < n
            invariant
                i <= n,
                n == self.view_seq().len(),
                table_lookup(self.view_seq(), id) == table_lookup(self.view_seq().skip(i as int), id),
            decreases n - i,
        {
            let e = self.entries[i];
            proof {
                let rest = self.view_seq().skip(i as int);
                assert(rest[0] == self.view_seq()[i as int]);
                assert(rest.drop_first() =~= self.view_seq().skip(i as int + 1));
            }
            if e.0 == id {
                return Some(e.1);
            }
            i = i + 1;
        }
        proof {
            assert(self.view_seq().skip(n as int) =~= Seq::<(u64, ClientKind)>::empty());
        }
        None
    }

    /// Resolves a peer's client kind, falling back to `Unknown` when the
    /// identity is not yet known.
    pub fn resolve(&self, id: u64) -> (c: ClientKind)
        ensures
            c == resolve_client(self.view_seq(), id),
    {
        match self.lookup(id) {
            Some(c) => c,
            None => ClientKind::Unknown,
        }
    }
}

/// Law: a peer with no resolvable client kind counts towards exactly the
/// `Unknown` bucket and no other.
pub proof fn lemma_unknown_fallback(s: Seq<(u64, ClientKind)>, id: u64, c: ClientKind)
    requires
        table_lookup(s, id) is None,
    ensures
        resolve_client(s, id) == c <==> c == ClientKind::Unknown,
{
}

/// Number of peers of `mesh` that resolve to client kind `c`.
pub open spec fn mesh_count_for(
    tbl: Seq<(u64, ClientKind)>,
    mesh: Seq<u64>,
    c: ClientKind,
) -> int
    decreases mesh.len(),
{
    if mesh.len() == 0 {
        0
    } else {
        mesh_count_for(tbl, mesh.drop_last(), c) + (if resolve_client(tbl, mesh.last()) == c {
            1int
        } else {
            0int
        })
    }
}

/// Number of peers, over every topic of kind `kind`, that resolve to `c`.
pub open spec fn topics_count_for(
    topics: Seq<MeshTopic>,
    tbl: Seq<(u64, ClientKind)>,
    kind: TopicKind,
    c: ClientKind,
) -> int
    decreases topics.len(),
{
    if topics.len() == 0 {
        0
    } else {
        topics_count_for(topics.drop_last(), tbl, kind, c) + (if topics.last().kind == kind {
            mesh_count_for(tbl, topics.last().mesh_peers@, c)
        } else {
            0int
        })
    }
}

/// Total number of mesh peers over every topic of kind `kind`.
pub open spec fn topics_peer_total(topics: Seq<MeshTopic>, kind: TopicKind) -> int
    decreases topics.len(),
{
    if topics.len() == 0 {
        0
    } else {
        topics_peer_total(topics.drop_last(), kind) + (if topics.last().kind == kind {
            topics.last().mesh_peers@.len() as int
        } else {
            0int
        })
    }
}

/// The per-client counts of one mesh, summed over every client kind.
pub open spec fn mesh_count_all_clients(tbl: Seq<(u64, ClientKind)>, mesh: Seq<u64>) -> int {
    mesh_count_for(tbl, mesh, ClientKind::Lighthouse) + mesh_count_for(
        tbl,
        mesh,
        ClientKind::Lodestar,
    ) + mesh_count_for(tbl, mesh, ClientKind::Nimbus) + mesh_count_for(
        tbl,
        mesh,
        ClientKind::Prysm,
    ) + mesh_count_for(tbl, mesh, ClientKind::Teku) + mesh_count_for(
        tbl,
        mesh,
        ClientKind::Grandine,
    ) + mesh_count_for(tbl, mesh, ClientKind::Unknown)
}

/// The per-client topic counts, summed over every client kind.
pub open spec fn topics_count_all_clients(
    topics: Seq<MeshTopic>,
    tbl: Seq<(u64, ClientKind)>,
    kind: TopicKind,
) -> int {
    topics_count_for(topics, tbl, kind, ClientKind::Lighthouse) + topics_count_for(
        topics,
        tbl,
        kind,
        ClientKind::Lodestar,
    ) + topics_count_for(topics, tbl, kind, ClientKind::Nimbus) + topics_count_for(
        topics,
        tbl,
        kind,
        ClientKind::Prysm,
    ) + topics_count_for(topics, tbl, kind, ClientKind::Teku) + topics_count_for(
        topics,
        tbl,
        kind,
        ClientKind::Grandine,
    ) + topics_count_for(topics, tbl, kind, ClientKind::Unknown)
}

/// Every peer of a mesh resolves to exactly one client kind, so the
/// per-client counts of one mesh sum to the mesh size.
pub proof fn lemma_mesh_counts_sum_to_len(tbl: Seq<(u64, ClientKind)>, mesh: Seq<u64>)
    ensures
        mesh_count_all_clients(tbl, mesh) == mesh.len(),
    decreases mesh.len(),
{
    if mesh.len() > 0 {
        lemma_mesh_counts_sum_to_len(tbl, mesh.drop_last());
    }
}

/// Law (sum invariant): for a given topic kind, the per-client-kind counts
/// summed over every client kind equal the total number of mesh peers on
/// the topics of that kind.
pub proof fn lemma_client_counts_sum_to_mesh_total(
    topics: Seq<MeshTopic>,
    tbl: Seq<(u64, ClientKind)>,
    kind: TopicKind,
)
    ensures
        topics_count_all_clients(topics, tbl, kind) == topics_peer_total(topics, kind),
    decreases topics.len(),
{
    if topics.len() > 0 {
        lemma_client_counts_sum_to_mesh_total(topics.drop_last(), tbl, kind);
        if topics.last().kind == kind {
            lemma_mesh_counts_sum_to_len(tbl, topics.last().mesh_peers@);
        }
    }
}

/// A per-client count never exceeds the total number of mesh peers of that
/// topic kind.
pub proof fn lemma_count_le_total(
    topics: Seq<MeshTopic>,
    tbl: Seq<(u64, ClientKind)>,
    kind: TopicKind,
    c: ClientKind,
)
    ensures
        0 <= topics_count_for(topics, tbl, kind, c) <= topics_peer_total(topics, kind),
    decreases topics.len(),
{
    if topics.len() > 0 {
        lemma_count_le_total(topics.drop_last(), tbl, kind, c);
        if topics.last().kind == kind {
            lemma_mesh_count_le_len(tbl, topics.last().mesh_peers@, c);
        }
    }
}

/// A per-client count of one mesh never exceeds the mesh size.
pub proof fn lemma_mesh_count_le_len(tbl: Seq<(u64, ClientKind)>, mesh: Seq<u64>, c: ClientKind)
    ensures
        0 <= mesh_count_for(tbl, mesh, c) <= mesh.len(),
    decreases mesh.len(),
{
    if mesh.len() > 0 {
        lemma_mesh_count_le_len(tbl, mesh.drop_last(), c);
    }
}

} // verus!
