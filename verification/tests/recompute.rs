use network_metrics::defs::NetworkMetrics;
use network_metrics::mesh::{ClientKind, MeshTopic, PeerTable, TopicKind};
use network_metrics::recompute::{update_bandwidth_metrics, update_gossip_metrics};
use network_metrics::registry::{try_create_int_gauge, try_create_int_gauge_vec, Registry};

fn client_key(kind: ClientKind) -> Vec<String> {
    vec![kind.as_str().to_string()]
}

fn all_kinds() -> Vec<ClientKind> {
    vec![
        ClientKind::Lighthouse,
        ClientKind::Lodestar,
        ClientKind::Nimbus,
        ClientKind::Prysm,
        ClientKind::Teku,
        ClientKind::Grandine,
        ClientKind::Unknown,
    ]
}

#[test]
fn bandwidth_total_is_inbound_plus_outbound() {
    let mut reg = Registry::new();
    let mut inbound = try_create_int_gauge(&mut reg, "in_bytes", "In.").unwrap();
    let mut outbound = try_create_int_gauge(&mut reg, "out_bytes", "Out.").unwrap();
    let mut total = try_create_int_gauge(&mut reg, "total_bytes", "Total.").unwrap();
    update_bandwidth_metrics(1000, 250, &mut inbound, &mut outbound, &mut total);
    assert_eq!(inbound.get(), 1000);
    assert_eq!(outbound.get(), 250);
    assert_eq!(total.get(), 1250);
    // a later snapshot overwrites, it does not accumulate
    update_bandwidth_metrics(1500, 400, &mut inbound, &mut outbound, &mut total);
    assert_eq!(total.get(), 1900);
    assert_eq!(total.get(), inbound.get() + outbound.get());
}

fn mesh_fixture() -> (Vec<MeshTopic>, PeerTable) {
    let topics = vec![
        MeshTopic { kind: TopicKind::BeaconBlock, mesh_peers: vec![1, 2, 3] },
        MeshTopic { kind: TopicKind::BeaconAggregateAndProof, mesh_peers: vec![2] },
        MeshTopic { kind: TopicKind::Attestation, mesh_peers: vec![9, 10] },
        MeshTopic { kind: TopicKind::Other, mesh_peers: vec![11] },
    ];
    let mut peers = PeerTable::new();
    peers.insert(1, ClientKind::Lighthouse);
    peers.insert(2, ClientKind::Prysm);
    // peer 3 stays unresolved on purpose
    (topics, peers)
}

#[test]
fn gossip_recomputation_counts_mesh_peers_per_client() {
    let mut reg = Registry::new();
    let mut block = try_create_int_gauge_vec(
        &mut reg,
        "block_mesh_peers_per_client",
        "Block mesh peers.",
        vec!["Client".to_string()],
    )
    .unwrap();
    let mut aggregate = try_create_int_gauge_vec(
        &mut reg,
        "beacon_aggregate_and_proof_mesh_peers_per_client",
        "Aggregate mesh peers.",
        vec!["Client".to_string()],
    )
    .unwrap();
    let (topics, peers) = mesh_fixture();
    update_gossip_metrics(&topics, &peers, &mut block, &mut aggregate);

    assert_eq!(block.get(&client_key(ClientKind::Lighthouse)), Some(1));
    assert_eq!(block.get(&client_key(ClientKind::Prysm)), Some(1));
    assert_eq!(block.get(&client_key(ClientKind::Unknown)), Some(1));
    assert_eq!(block.get(&client_key(ClientKind::Teku)), Some(0));
    assert_eq!(aggregate.get(&client_key(ClientKind::Prysm)), Some(1));
    assert_eq!(aggregate.get(&client_key(ClientKind::Lighthouse)), Some(0));
    assert_eq!(aggregate.get(&client_key(ClientKind::Unknown)), Some(0));

    // sum invariant: per-client readings sum to the topic's mesh size
    let block_sum: i64 = all_kinds().iter().map(|k| block.get(&client_key(*k)).unwrap()).sum();
    assert_eq!(block_sum, 3);
    let agg_sum: i64 = all_kinds().iter().map(|k| aggregate.get(&client_key(*k)).unwrap()).sum();
    assert_eq!(agg_sum, 1);
}

#[test]
fn gossip_recomputation_is_idempotent_per_cycle() {
    let mut reg = Registry::new();
    let mut block =
        try_create_int_gauge_vec(&mut reg, "b", "B.", vec!["Client".to_string()]).unwrap();
    let mut aggregate =
        try_create_int_gauge_vec(&mut reg, "a", "A.", vec!["Client".to_string()]).unwrap();
    let (topics, peers) = mesh_fixture();
    update_gossip_metrics(&topics, &peers, &mut block, &mut aggregate);
    let first: Vec<Option<i64>> =
        all_kinds().iter().map(|k| block.get(&client_key(*k))).collect();
    update_gossip_metrics(&topics, &peers, &mut block, &mut aggregate);
    let second: Vec<Option<i64>> =
        all_kinds().iter().map(|k| block.get(&client_key(*k))).collect();
    assert_eq!(first, second);
}

#[test]
fn recomputation_clears_stale_counts() {
    let mut reg = Registry::new();
    let mut block =
        try_create_int_gauge_vec(&mut reg, "b", "B.", vec!["Client".to_string()]).unwrap();
    let mut aggregate =
        try_create_int_gauge_vec(&mut reg, "a", "A.", vec!["Client".to_string()]).unwrap();
    let (topics, peers) = mesh_fixture();
    update_gossip_metrics(&topics, &peers, &mut block, &mut aggregate);
    assert_eq!(block.get(&client_key(ClientKind::Lighthouse)), Some(1));
    // every mesh peer leaves: the next cycle must report zero, not the
    // stale count from the previous cycle
    let empty: Vec<MeshTopic> = vec![];
    update_gossip_metrics(&empty, &peers, &mut block, &mut aggregate);
    for kind in all_kinds() {
        assert_eq!(block.get(&client_key(kind)), Some(0));
        assert_eq!(aggregate.get(&client_key(kind)), Some(0));
    }
}

#[test]
fn unresolved_peer_counts_only_as_unknown() {
    let mut reg = Registry::new();
    let mut block =
        try_create_int_gauge_vec(&mut reg, "b", "B.", vec!["Client".to_string()]).unwrap();
    let mut aggregate =
        try_create_int_gauge_vec(&mut reg, "a", "A.", vec!["Client".to_string()]).unwrap();
    let topics = vec![MeshTopic { kind: TopicKind::BeaconBlock, mesh_peers: vec![77] }];
    let peers = PeerTable::new();
    update_gossip_metrics(&topics, &peers, &mut block, &mut aggregate);
    for kind in all_kinds() {
        let expected = if kind == ClientKind::Unknown { 1 } else { 0 };
        assert_eq!(block.get(&client_key(kind)), Some(expected));
    }
}

#[test]
fn untracked_topics_are_ignored() {
    let mut reg = Registry::new();
    let mut block =
        try_create_int_gauge_vec(&mut reg, "b", "B.", vec!["Client".to_string()]).unwrap();
    let mut aggregate =
        try_create_int_gauge_vec(&mut reg, "a", "A.", vec!["Client".to_string()]).unwrap();
    let topics = vec![
        MeshTopic { kind: TopicKind::Attestation, mesh_peers: vec![1, 2] },
        MeshTopic { kind: TopicKind::SyncCommitteeMessage, mesh_peers: vec![3] },
        MeshTopic { kind: TopicKind::Other, mesh_peers: vec![4] },
    ];
    let mut peers = PeerTable::new();
    peers.insert(1, ClientKind::Teku);
    update_gossip_metrics(&topics, &peers, &mut block, &mut aggregate);
    for kind in all_kinds() {
        assert_eq!(block.get(&client_key(kind)), Some(0));
        assert_eq!(aggregate.get(&client_key(kind)), Some(0));
    }
}

#[test]
fn peer_table_resolution_falls_back_to_unknown() {
    let mut peers = PeerTable::new();
    peers.insert(5, ClientKind::Nimbus);
    assert_eq!(peers.lookup(5), Some(ClientKind::Nimbus));
    assert_eq!(peers.lookup(6), None);
    assert_eq!(peers.resolve(5), ClientKind::Nimbus);
    assert_eq!(peers.resolve(6), ClientKind::Unknown);
    // the earliest entry for an identity wins
    peers.insert(5, ClientKind::Teku);
    assert_eq!(peers.resolve(5), ClientKind::Nimbus);
}

#[test]
fn client_kind_labels() {
    assert_eq!(ClientKind::Lighthouse.as_str(), "Lighthouse");
    assert_eq!(ClientKind::Unknown.as_str(), "Unknown");
}

#[test]
fn registered_metrics_drive_recomputation() {
    let mut reg = Registry::new();
    let mut m = NetworkMetrics::register(&mut reg);
    update_bandwidth_metrics(
        1000,
        250,
        &mut m.inbound_libp2p_bytes,
        &mut m.outbound_libp2p_bytes,
        &mut m.total_libp2p_bandwidth,
    );
    assert_eq!(m.inbound_libp2p_bytes.get(), 1000);
    assert_eq!(m.outbound_libp2p_bytes.get(), 250);
    assert_eq!(m.total_libp2p_bandwidth.get(), 1250);

    let (topics, peers) = mesh_fixture();
    update_gossip_metrics(
        &topics,
        &peers,
        &mut m.beacon_block_mesh_peers_per_client,
        &mut m.beacon_aggregate_and_proof_mesh_peers_per_client,
    );
    assert_eq!(
        m.beacon_block_mesh_peers_per_client.get(&client_key(ClientKind::Lighthouse)),
        Some(1)
    );

    m.beacon_processor_gossip_block_verified_total.inc();
    assert_eq!(m.beacon_processor_gossip_block_verified_total.get(), 1);
    m.beacon_block_gossip_slot_start_delay_time.observe(300000);
    assert_eq!(m.beacon_block_gossip_slot_start_delay_time.get_count(), 1);
}

#[test]
fn second_registration_degrades_to_inert_handles() {
    let mut reg = Registry::new();
    let _first = NetworkMetrics::register(&mut reg);
    let mut second = NetworkMetrics::register(&mut reg);
    // every name is taken, so every handle of the second set is a no-op
    assert!(!second.beacon_processor_gossip_block_verified_total.live());
    second.beacon_processor_gossip_block_verified_total.inc();
    assert_eq!(second.beacon_processor_gossip_block_verified_total.get(), 0);
    update_bandwidth_metrics(
        10,
        20,
        &mut second.inbound_libp2p_bytes,
        &mut second.outbound_libp2p_bytes,
        &mut second.total_libp2p_bandwidth,
    );
    assert_eq!(second.total_libp2p_bandwidth.get(), 0);
    let (topics, peers) = mesh_fixture();
    update_gossip_metrics(
        &topics,
        &peers,
        &mut second.beacon_block_mesh_peers_per_client,
        &mut second.beacon_aggregate_and_proof_mesh_peers_per_client,
    );
    assert_eq!(
        second.beacon_block_mesh_peers_per_client.get(&client_key(ClientKind::Lighthouse)),
        None
    );
}

#[test]
fn slot_delay_buckets_match_the_declared_list() {
    let b = network_metrics::defs::slot_start_delay_buckets();
    assert_eq!(
        b,
        vec![
            100000, 200000, 300000, 400000, 500000, 750000, 1000000, 1250000, 1500000, 1750000,
            2000000, 2500000, 3000000, 3500000, 4000000, 5000000, 6000000, 7000000, 8000000,
            9000000, 10000000, 15000000, 20000000
        ]
    );
}

#[test]
fn register_claims_every_declared_name() {
    let mut reg = Registry::new();
    let m = NetworkMetrics::register(&mut reg);
    // a declared name can no longer be claimed by anyone else
    let taken = network_metrics::registry::try_create_int_counter(
        &mut reg,
        "libp2p_inbound_bytes",
        "Imitation.",
    );
    assert!(taken.is_err());
    assert!(m.inbound_libp2p_bytes.live());
    assert_eq!(m.beacon_processor_gossip_block_verified_total.get(), 0);
}

#[test]
fn pre_claimed_name_leaves_only_that_handle_inert() {
    let mut reg = Registry::new();
    // somebody already owns one of the declared names
    let mut squatter = network_metrics::registry::try_create_int_counter(
        &mut reg,
        "beacon_block_last_delay",
        "Owner.",
    )
    .unwrap();
    let mut m = NetworkMetrics::register(&mut reg);
    assert!(!m.beacon_block_last_delay.live());
    assert!(m.sync_single_block_lookups.live());
    m.beacon_block_last_delay.set(9);
    assert_eq!(m.beacon_block_last_delay.get(), 0);
    m.sync_single_block_lookups.set(9);
    assert_eq!(m.sync_single_block_lookups.get(), 9);
    squatter.inc();
    assert_eq!(squatter.get(), 1);
}
