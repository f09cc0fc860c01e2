//! The fixed set of named instruments this telemetry layer exposes, built
//! once at startup against a registry: each declared name is claimed in
//! order, and each handle degrades to an inert no-op if its name is taken,
//! so a broken metric can never take the node down. Time histograms are
//! declared in integer microseconds.

use vstd::prelude::*;
use crate::histogram::Histogram;
use crate::instruments::IntCounter;
use crate::instruments::IntGauge;
use crate::label_vec::HistogramVec;
use crate::label_vec::IntCounterVec;
use crate::label_vec::IntGaugeVec;
use crate::registry::Registry;
use crate::registry::decimal_buckets;
use crate::registry::decimal_buckets_spec;
use crate::registry::default_buckets;
use crate::registry::default_buckets_spec;
use crate::registry::distinct_strs;

verus! {

/// Every named instrument of the telemetry layer, as live-or-inert handles.
pub struct NetworkMetrics {
    pub beacon_block_mesh_peers_per_client: IntGaugeVec,
    pub beacon_aggregate_and_proof_mesh_peers_per_client: IntGaugeVec,
    pub subnet_subscription_requests: IntCounter,
    pub subnet_subscription_aggregator_requests: IntCounter,
    pub sync_committee_subscription_requests: IntCounter,
    pub beacon_processor_gossip_block_verified_total: IntCounter,
    pub beacon_processor_gossip_block_imported_total: IntCounter,
    pub beacon_processor_gossip_block_requeued_total: IntCounter,
    pub beacon_processor_gossip_block_early_seconds: Histogram,
    pub beacon_processor_exit_verified_total: IntCounter,
    pub beacon_processor_exit_imported_total: IntCounter,
    pub beacon_processor_proposer_slashing_verified_total: IntCounter,
    pub beacon_processor_proposer_slashing_imported_total: IntCounter,
    pub beacon_processor_attester_slashing_verified_total: IntCounter,
    pub beacon_processor_attester_slashing_imported_total: IntCounter,
    pub beacon_processor_bls_to_execution_change_verified_total: IntCounter,
    pub beacon_processor_bls_to_execution_change_imported_total: IntCounter,
    pub beacon_processor_rpc_block_imported_total: IntCounter,
    pub beacon_processor_chain_segment_success_total: IntCounter,
    pub beacon_processor_backfill_chain_segment_success_total: IntCounter,
    pub beacon_processor_chain_segment_failed_total: IntCounter,
    pub beacon_processor_backfill_chain_segment_failed_total: IntCounter,
    pub beacon_processor_unaggregated_attestation_verified_total: IntCounter,
    pub beacon_processor_unaggregated_attestation_imported_total: IntCounter,
    pub beacon_processor_unaggregated_attestation_requeued_total: IntCounter,
    pub beacon_processor_aggregated_attestation_verified_total: IntCounter,
    pub beacon_processor_aggregated_attestation_imported_total: IntCounter,
    pub beacon_processor_aggregated_attestation_requeued_total: IntCounter,
    pub beacon_processor_sync_message_verified_total: IntCounter,
    pub beacon_processor_sync_message_imported_total: IntCounter,
    pub beacon_processor_sync_contribution_verified_total: IntCounter,
    pub beacon_processor_sync_contribution_imported_total: IntCounter,
    pub gossip_attestation_errors_per_type: IntCounterVec,
    pub gossip_sync_committee_errors_per_type: IntCounterVec,
    pub gossip_finality_update_errors_per_type: IntCounterVec,
    pub gossip_optimistic_update_errors_per_type: IntCounterVec,
    pub network_receive_events: IntCounterVec,
    pub network_receive_times: HistogramVec,
    pub inbound_libp2p_bytes: IntGauge,
    pub outbound_libp2p_bytes: IntGauge,
    pub total_libp2p_bandwidth: IntGauge,
    pub peers_per_sync_type: IntGaugeVec,
    pub syncing_chains_count: IntGaugeVec,
    pub sync_single_block_lookups: IntGauge,
    pub sync_parent_block_lookups: IntGauge,
    pub beacon_block_gossip_propagation_verification_delay_time: Histogram,
    pub beacon_block_gossip_slot_start_delay_time: Histogram,
    pub beacon_block_last_delay: IntGauge,
    pub beacon_block_gossip_arrived_late_total: IntCounter,
    pub beacon_processor_reprocessing_queue_sent_optimistic_updates: IntCounter,
}

/// The instrument names this layer declares, in registration order.
pub open spec fn declared_names() -> Seq<Seq<char>> {
    seq![
        "block_mesh_peers_per_client"@,
        "beacon_aggregate_and_proof_mesh_peers_per_client"@,
        "validator_attestation_subnet_subscriptions_total"@,
        "validator_subnet_subscriptions_aggregator_total"@,
        "validator_sync_committee_subnet_subscriptions_total"@,
        "beacon_processor_gossip_block_verified_total"@,
        "beacon_processor_gossip_block_imported_total"@,
        "beacon_processor_gossip_block_requeued_total"@,
        "beacon_processor_gossip_block_early_seconds"@,
        "beacon_processor_exit_verified_total"@,
        "beacon_processor_exit_imported_total"@,
        "beacon_processor_proposer_slashing_verified_total"@,
        "beacon_processor_proposer_slashing_imported_total"@,
        "beacon_processor_attester_slashing_verified_total"@,
        "beacon_processor_attester_slashing_imported_total"@,
        "beacon_processor_bls_to_execution_change_verified_total"@,
        "beacon_processor_bls_to_execution_change_imported_total"@,
        "beacon_processor_rpc_block_imported_total"@,
        "beacon_processor_chain_segment_success_total"@,
        "beacon_processor_backfill_chain_segment_success_total"@,
        "beacon_processor_chain_segment_failed_total"@,
        "beacon_processor_backfill_chain_segment_failed_total"@,
        "beacon_processor_unaggregated_attestation_verified_total"@,
        "beacon_processor_unaggregated_attestation_imported_total"@,
        "beacon_processor_unaggregated_attestation_requeued_total"@,
        "beacon_processor_aggregated_attestation_verified_total"@,
        "beacon_processor_aggregated_attestation_imported_total"@,
        "beacon_processor_aggregated_attestation_requeued_total"@,
        "beacon_processor_sync_message_verified_total"@,
        "beacon_processor_sync_message_imported_total"@,
        "beacon_processor_sync_contribution_verified_total"@,
        "beacon_processor_sync_contribution_imported_total"@,
        "gossipsub_attestation_errors_per_type"@,
        "gossipsub_sync_committee_errors_per_type"@,
        "gossipsub_light_client_finality_update_errors_per_type"@,
        "gossipsub_light_client_optimistic_update_errors_per_type"@,
        "network_receive_events"@,
        "network_receive_times"@,
        "libp2p_inbound_bytes"@,
        "libp2p_outbound_bytes"@,
        "libp2p_total_bandwidth"@,
        "sync_peers_per_status"@,
        "sync_range_chains"@,
        "sync_single_block_lookups"@,
        "sync_parent_block_lookups"@,
        "beacon_block_gossip_propagation_verification_delay_time"@,
        "beacon_block_gossip_slot_start_delay_time"@,
        "beacon_block_last_delay"@,
        "beacon_block_gossip_arrived_late_total"@,
        "beacon_processor_reprocessing_queue_sent_optimistic_updates"@,
    ]
}

fn declared_name_list() -> (v: Vec<String>)
    ensures
        v@.len() == declared_names().len(),
        v.deep_view() == declared_names(),
{
    let v: Vec<String> = vec![
        "block_mesh_peers_per_client".to_owned(),
        "beacon_aggregate_and_proof_mesh_peers_per_client".to_owned(),
        "validator_attestation_subnet_subscriptions_total".to_owned(),
        "validator_subnet_subscriptions_aggregator_total".to_owned(),
        "validator_sync_committee_subnet_subscriptions_total".to_owned(),
        "beacon_processor_gossip_block_verified_total".to_owned(),
        "beacon_processor_gossip_block_imported_total".to_owned(),
        "beacon_processor_gossip_block_requeued_total".to_owned(),
        "beacon_processor_gossip_block_early_seconds".to_owned(),
        "beacon_processor_exit_verified_total".to_owned(),
        "beacon_processor_exit_imported_total".to_owned(),
        "beacon_processor_proposer_slashing_verified_total".to_owned(),
        "beacon_processor_proposer_slashing_imported_total".to_owned(),
        "beacon_processor_attester_slashing_verified_total".to_owned(),
        "beacon_processor_attester_slashing_imported_total".to_owned(),
        "beacon_processor_bls_to_execution_change_verified_total".to_owned(),
        "beacon_processor_bls_to_execution_change_imported_total".to_owned(),
        "beacon_processor_rpc_block_imported_total".to_owned(),
        "beacon_processor_chain_segment_success_total".to_owned(),
        "beacon_processor_backfill_chain_segment_success_total".to_owned(),
        "beacon_processor_chain_segment_failed_total".to_owned(),
        "beacon_processor_backfill_chain_segment_failed_total".to_owned(),
        "beacon_processor_unaggregated_attestation_verified_total".to_owned(),
        "beacon_processor_unaggregated_attestation_imported_total".to_owned(),
        "beacon_processor_unaggregated_attestation_requeued_total".to_owned(),
        "beacon_processor_aggregated_attestation_verified_total".to_owned(),
        "beacon_processor_aggregated_attestation_imported_total".to_owned(),
        "beacon_processor_aggregated_attestation_requeued_total".to_owned(),
        "beacon_processor_sync_message_verified_total".to_owned(),
        "beacon_processor_sync_message_imported_total".to_owned(),
        "beacon_processor_sync_contribution_verified_total".to_owned(),
        "beacon_processor_sync_contribution_imported_total".to_owned(),
        "gossipsub_attestation_errors_per_type".to_owned(),
        "gossipsub_sync_committee_errors_per_type".to_owned(),
        "gossipsub_light_client_finality_update_errors_per_type".to_owned(),
        "gossipsub_light_client_optimistic_update_errors_per_type".to_owned(),
        "network_receive_events".to_owned(),
        "network_receive_times".to_owned(),
        "libp2p_inbound_bytes".to_owned(),
        "libp2p_outbound_bytes".to_owned(),
        "libp2p_total_bandwidth".to_owned(),
        "sync_peers_per_status".to_owned(),
        "sync_range_chains".to_owned(),
        "sync_single_block_lookups".to_owned(),
        "sync_parent_block_lookups".to_owned(),
        "beacon_block_gossip_propagation_verification_delay_time".to_owned(),
        "beacon_block_gossip_slot_start_delay_time".to_owned(),
        "beacon_block_last_delay".to_owned(),
        "beacon_block_gossip_arrived_late_total".to_owned(),
        "beacon_processor_reprocessing_queue_sent_optimistic_updates".to_owned(),
    ];
    proof {
        assert(v.deep_view() =~= declared_names());
    }
    v
}

/// `declared_names()` read by position; used to settle pairwise
/// distinctness by direct case analysis.
spec fn declared_name_at(i: int) -> Seq<char> {
    if i == 0 {
        "block_mesh_peers_per_client"@
    } else if i == 1 {
        "beacon_aggregate_and_proof_mesh_peers_per_client"@
    } else if i == 2 {
        "validator_attestation_subnet_subscriptions_total"@
    } else if i == 3 {
        "validator_subnet_subscriptions_aggregator_total"@
    } else if i == 4 {
        "validator_sync_committee_subnet_subscriptions_total"@
    } else if i == 5 {
        "beacon_processor_gossip_block_verified_total"@
    } else if i == 6 {
        "beacon_processor_gossip_block_imported_total"@
    } else if i == 7 {
        "beacon_processor_gossip_block_requeued_total"@
    } else if i == 8 {
        "beacon_processor_gossip_block_early_seconds"@
    } else if i == 9 {
        "beacon_processor_exit_verified_total"@
    } else if i == 10 {
        "beacon_processor_exit_imported_total"@
    } else if i == 11 {
        "beacon_processor_proposer_slashing_verified_total"@
    } else if i == 12 {
        "beacon_processor_proposer_slashing_imported_total"@
    } else if i == 13 {
        "beacon_processor_attester_slashing_verified_total"@
    } else if i == 14 {
        "beacon_processor_attester_slashing_imported_total"@
    } else if i == 15 {
        "beacon_processor_bls_to_execution_change_verified_total"@
    } else if i == 16 {
        "beacon_processor_bls_to_execution_change_imported_total"@
    } else if i == 17 {
        "beacon_processor_rpc_block_imported_total"@
    } else if i == 18 {
        "beacon_processor_chain_segment_success_total"@
    } else if i == 19 {
        "beacon_processor_backfill_chain_segment_success_total"@
    } else if i == 20 {
        "beacon_processor_chain_segment_failed_total"@
    } else if i == 21 {
        "beacon_processor_backfill_chain_segment_failed_total"@
    } else if i == 22 {
        "beacon_processor_unaggregated_attestation_verified_total"@
    } else if i == 23 {
        "beacon_processor_unaggregated_attestation_imported_total"@
    } else if i == 24 {
        "beacon_processor_unaggregated_attestation_requeued_total"@
    } else if i == 25 {
        "beacon_processor_aggregated_attestation_verified_total"@
    } else if i == 26 {
        "beacon_processor_aggregated_attestation_imported_total"@
    } else if i == 27 {
        "beacon_processor_aggregated_attestation_requeued_total"@
    } else if i == 28 {
        "beacon_processor_sync_message_verified_total"@
    } else if i == 29 {
        "beacon_processor_sync_message_imported_total"@
    } else if i == 30 {
        "beacon_processor_sync_contribution_verified_total"@
    } else if i == 31 {
        "beacon_processor_sync_contribution_imported_total"@
    } else if i == 32 {
        "gossipsub_attestation_errors_per_type"@
    } else if i == 33 {
        "gossipsub_sync_committee_errors_per_type"@
    } else if i == 34 {
        "gossipsub_light_client_finality_update_errors_per_type"@
    } else if i == 35 {
        "gossipsub_light_client_optimistic_update_errors_per_type"@
    } else if i == 36 {
        "network_receive_events"@
    } else if i == 37 {
        "network_receive_times"@
    } else if i == 38 {
        "libp2p_inbound_bytes"@
    } else if i == 39 {
        "libp2p_outbound_bytes"@
    } else if i == 40 {
        "libp2p_total_bandwidth"@
    } else if i == 41 {
        "sync_peers_per_status"@
    } else if i == 42 {
        "sync_range_chains"@
    } else if i == 43 {
        "sync_single_block_lookups"@
    } else if i == 44 {
        "sync_parent_block_lookups"@
    } else if i == 45 {
        "beacon_block_gossip_propagation_verification_delay_time"@
    } else if i == 46 {
        "beacon_block_gossip_slot_start_delay_time"@
    } else if i == 47 {
        "beacon_block_last_delay"@
    } else if i == 48 {
        "beacon_block_gossip_arrived_late_total"@
    } else if i == 49 {
        "beacon_processor_reprocessing_queue_sent_optimistic_updates"@
    } else {
        Seq::empty()
    }
}

/// The declared instrument names are pairwise distinct, so each claims a
/// registry slot of its own.
#[verifier::rlimit(100)]
#[verifier::spinoff_prover]
proof fn lemma_declared_names_distinct()
    ensures
        distinct_strs(declared_names()),
{
    reveal_strlit("beacon_aggregate_and_proof_mesh_peers_per_client");
    reveal_strlit("beacon_block_gossip_arrived_late_total");
    reveal_strlit("beacon_block_gossip_propagation_verification_delay_time");
    reveal_strlit("beacon_block_gossip_slot_start_delay_time");
    reveal_strlit("beacon_block_last_delay");
    reveal_strlit("beacon_processor_aggregated_attestation_imported_total");
    reveal_strlit("beacon_processor_aggregated_attestation_requeued_total");
    reveal_strlit("beacon_processor_aggregated_attestation_verified_total");
    reveal_strlit("beacon_processor_attester_slashing_imported_total");
    reveal_strlit("beacon_processor_attester_slashing_verified_total");
    reveal_strlit("beacon_processor_backfill_chain_segment_failed_total");
    reveal_strlit("beacon_processor_backfill_chain_segment_success_total");
    reveal_strlit("beacon_processor_bls_to_execution_change_imported_total");
    reveal_strlit("beacon_processor_bls_to_execution_change_verified_total");
    reveal_strlit("beacon_processor_chain_segment_failed_total");
    reveal_strlit("beacon_processor_chain_segment_success_total");
    reveal_strlit("beacon_processor_exit_imported_total");
    reveal_strlit("beacon_processor_exit_verified_total");
    reveal_strlit("beacon_processor_gossip_block_early_seconds");
    reveal_strlit("beacon_processor_gossip_block_imported_total");
    reveal_strlit("beacon_processor_gossip_block_requeued_total");
    reveal_strlit("beacon_processor_gossip_block_verified_total");
    reveal_strlit("beacon_processor_proposer_slashing_imported_total");
    reveal_strlit("beacon_processor_proposer_slashing_verified_total");
    reveal_strlit("beacon_processor_reprocessing_queue_sent_optimistic_updates");
    reveal_strlit("beacon_processor_rpc_block_imported_total");
    reveal_strlit("beacon_processor_sync_contribution_imported_total");
    reveal_strlit("beacon_processor_sync_contribution_verified_total");
    reveal_strlit("beacon_processor_sync_message_imported_total");
    reveal_strlit("beacon_processor_sync_message_verified_total");
    reveal_strlit("beacon_processor_unaggregated_attestation_imported_total");
    reveal_strlit("beacon_processor_unaggregated_attestation_requeued_total");
    reveal_strlit("beacon_processor_unaggregated_attestation_verified_total");
    reveal_strlit("block_mesh_peers_per_client");
    reveal_strlit("gossipsub_attestation_errors_per_type");
    reveal_strlit("gossipsub_light_client_finality_update_errors_per_type");
    reveal_strlit("gossipsub_light_client_optimistic_update_errors_per_type");
    reveal_strlit("gossipsub_sync_committee_errors_per_type");
    reveal_strlit("libp2p_inbound_bytes");
    reveal_strlit("libp2p_outbound_bytes");
    reveal_strlit("libp2p_total_bandwidth");
    reveal_strlit("network_receive_events");
    reveal_strlit("network_receive_times");
    reveal_strlit("sync_parent_block_lookups");
    reveal_strlit("sync_peers_per_status");
    reveal_strlit("sync_range_chains");
    reveal_strlit("sync_single_block_lookups");
    reveal_strlit("validator_attestation_subnet_subscriptions_total");
    reveal_strlit("validator_subnet_subscriptions_aggregator_total");
    reveal_strlit("validator_sync_committee_subnet_subscriptions_total");
    // each name's length, then a differing position for names of equal length
    assert("block_mesh_peers_per_client"@.len() == 27);
    assert("beacon_aggregate_and_proof_mesh_peers_per_client"@.len() == 48);
    assert("validator_attestation_subnet_subscriptions_total"@.len() == 48);
    assert("validator_subnet_subscriptions_aggregator_total"@.len() == 47);
    assert("validator_sync_committee_subnet_subscriptions_total"@.len() == 51);
    assert("beacon_processor_gossip_block_verified_total"@.len() == 44);
    assert("beacon_processor_gossip_block_imported_total"@.len() == 44);
    assert("beacon_processor_gossip_block_requeued_total"@.len() == 44);
    assert("beacon_processor_gossip_block_early_seconds"@.len() == 43);
    assert("beacon_processor_exit_verified_total"@.len() == 36);
    assert("beacon_processor_exit_imported_total"@.len() == 36);
    assert("beacon_processor_proposer_slashing_verified_total"@.len() == 49);
    assert("beacon_processor_proposer_slashing_imported_total"@.len() == 49);
    assert("beacon_processor_attester_slashing_verified_total"@.len() == 49);
    assert("beacon_processor_attester_slashing_imported_total"@.len() == 49);
    assert("beacon_processor_bls_to_execution_change_verified_total"@.len() == 55);
    assert("beacon_processor_bls_to_execution_change_imported_total"@.len() == 55);
    assert("beacon_processor_rpc_block_imported_total"@.len() == 41);
    assert("beacon_processor_chain_segment_success_total"@.len() == 44);
    assert("beacon_processor_backfill_chain_segment_success_total"@.len() == 53);
    assert("beacon_processor_chain_segment_failed_total"@.len() == 43);
    assert("beacon_processor_backfill_chain_segment_failed_total"@.len() == 52);
    assert("beacon_processor_unaggregated_attestation_verified_total"@.len() == 56);
    assert("beacon_processor_unaggregated_attestation_imported_total"@.len() == 56);
    assert("beacon_processor_unaggregated_attestation_requeued_total"@.len() == 56);
    assert("beacon_processor_aggregated_attestation_verified_total"@.len() == 54);
    assert("beacon_processor_aggregated_attestation_imported_total"@.len() == 54);
    assert("beacon_processor_aggregated_attestation_requeued_total"@.len() == 54);
    assert("beacon_processor_sync_message_verified_total"@.len() == 44);
    assert("beacon_processor_sync_message_imported_total"@.len() == 44);
    assert("beacon_processor_sync_contribution_verified_total"@.len() == 49);
    assert("beacon_processor_sync_contribution_imported_total"@.len() == 49);
    assert("gossipsub_attestation_errors_per_type"@.len() == 37);
    assert("gossipsub_sync_committee_errors_per_type"@.len() == 40);
    assert("gossipsub_light_client_finality_update_errors_per_type"@.len() == 54);
    assert("gossipsub_light_client_optimistic_update_errors_per_type"@.len() == 56);
    assert("network_receive_events"@.len() == 22);
    assert("network_receive_times"@.len() == 21);
    assert("libp2p_inbound_bytes"@.len() == 20);
    assert("libp2p_outbound_bytes"@.len() == 21);
    assert("libp2p_total_bandwidth"@.len() == 22);
    assert("sync_peers_per_status"@.len() == 21);
    assert("sync_range_chains"@.len() == 17);
    assert("sync_single_block_lookups"@.len() == 25);
    assert("sync_parent_block_lookups"@.len() == 25);
    assert("beacon_block_gossip_propagation_verification_delay_time"@.len() == 55);
    assert("beacon_block_gossip_slot_start_delay_time"@.len() == 41);
    assert("beacon_block_last_delay"@.len() == 23);
    assert("beacon_block_gossip_arrived_late_total"@.len() == 38);
    assert("beacon_processor_reprocessing_queue_sent_optimistic_updates"@.len() == 59);
    // names of equal length differ at a witness position
    assert("beacon_aggregate_and_proof_mesh_peers_per_client"@[0] != "validator_attestation_subnet_subscriptions_total"@[0]);
    assert("beacon_processor_gossip_block_verified_total"@[30] != "beacon_processor_gossip_block_imported_total"@[30]);
    assert("beacon_processor_gossip_block_verified_total"@[30] != "beacon_processor_gossip_block_requeued_total"@[30]);
    assert("beacon_processor_gossip_block_verified_total"@[17] != "beacon_processor_chain_segment_success_total"@[17]);
    assert("beacon_processor_gossip_block_verified_total"@[17] != "beacon_processor_sync_message_verified_total"@[17]);
    assert("beacon_processor_gossip_block_verified_total"@[17] != "beacon_processor_sync_message_imported_total"@[17]);
    assert("beacon_processor_gossip_block_imported_total"@[30] != "beacon_processor_gossip_block_requeued_total"@[30]);
    assert("beacon_processor_gossip_block_imported_total"@[17] != "beacon_processor_chain_segment_success_total"@[17]);
    assert("beacon_processor_gossip_block_imported_total"@[17] != "beacon_processor_sync_message_verified_total"@[17]);
    assert("beacon_processor_gossip_block_imported_total"@[17] != "beacon_processor_sync_message_imported_total"@[17]);
    assert("beacon_processor_gossip_block_requeued_total"@[17] != "beacon_processor_chain_segment_success_total"@[17]);
    assert("beacon_processor_gossip_block_requeued_total"@[17] != "beacon_processor_sync_message_verified_total"@[17]);
    assert("beacon_processor_gossip_block_requeued_total"@[17] != "beacon_processor_sync_message_imported_total"@[17]);
    assert("beacon_processor_gossip_block_early_seconds"@[17] != "beacon_processor_chain_segment_failed_total"@[17]);
    assert("beacon_processor_exit_verified_total"@[22] != "beacon_processor_exit_imported_total"@[22]);
    assert("beacon_processor_proposer_slashing_verified_total"@[35] != "beacon_processor_proposer_slashing_imported_total"@[35]);
    assert("beacon_processor_proposer_slashing_verified_total"@[17] != "beacon_processor_attester_slashing_verified_total"@[17]);
    assert("beacon_processor_proposer_slashing_verified_total"@[17] != "beacon_processor_attester_slashing_imported_total"@[17]);
    assert("beacon_processor_proposer_slashing_verified_total"@[17] != "beacon_processor_sync_contribution_verified_total"@[17]);
    assert("beacon_processor_proposer_slashing_verified_total"@[17] != "beacon_processor_sync_contribution_imported_total"@[17]);
    assert("beacon_processor_proposer_slashing_imported_total"@[17] != "beacon_processor_attester_slashing_verified_total"@[17]);
    assert("beacon_processor_proposer_slashing_imported_total"@[17] != "beacon_processor_attester_slashing_imported_total"@[17]);
    assert("beacon_processor_proposer_slashing_imported_total"@[17] != "beacon_processor_sync_contribution_verified_total"@[17]);
    assert("beacon_processor_proposer_slashing_imported_total"@[17] != "beacon_processor_sync_contribution_imported_total"@[17]);
    assert("beacon_processor_attester_slashing_verified_total"@[35] != "beacon_processor_attester_slashing_imported_total"@[35]);
    assert("beacon_processor_attester_slashing_verified_total"@[17] != "beacon_processor_sync_contribution_verified_total"@[17]);
    assert("beacon_processor_attester_slashing_verified_total"@[17] != "beacon_processor_sync_contribution_imported_total"@[17]);
    assert("beacon_processor_attester_slashing_imported_total"@[17] != "beacon_processor_sync_contribution_verified_total"@[17]);
    assert("beacon_processor_attester_slashing_imported_total"@[17] != "beacon_processor_sync_contribution_imported_total"@[17]);
    assert("beacon_processor_bls_to_execution_change_verified_total"@[41] != "beacon_processor_bls_to_execution_change_imported_total"@[41]);
    assert("beacon_processor_bls_to_execution_change_verified_total"@[7] != "beacon_block_gossip_propagation_verification_delay_time"@[7]);
    assert("beacon_processor_bls_to_execution_change_imported_total"@[7] != "beacon_block_gossip_propagation_verification_delay_time"@[7]);
    assert("beacon_processor_rpc_block_imported_total"@[7] != "beacon_block_gossip_slot_start_delay_time"@[7]);
    assert("beacon_processor_chain_segment_success_total"@[17] != "beacon_processor_sync_message_verified_total"@[17]);
    assert("beacon_processor_chain_segment_success_total"@[17] != "beacon_processor_sync_message_imported_total"@[17]);
    assert("beacon_processor_unaggregated_attestation_verified_total"@[42] != "beacon_processor_unaggregated_attestation_imported_total"@[42]);
    assert("beacon_processor_unaggregated_attestation_verified_total"@[42] != "beacon_processor_unaggregated_attestation_requeued_total"@[42]);
    assert("beacon_processor_unaggregated_attestation_verified_total"@[0] != "gossipsub_light_client_optimistic_update_errors_per_type"@[0]);
    assert("beacon_processor_unaggregated_attestation_imported_total"@[42] != "beacon_processor_unaggregated_attestation_requeued_total"@[42]);
    assert("beacon_processor_unaggregated_attestation_imported_total"@[0] != "gossipsub_light_client_optimistic_update_errors_per_type"@[0]);
    assert("beacon_processor_unaggregated_attestation_requeued_total"@[0] != "gossipsub_light_client_optimistic_update_errors_per_type"@[0]);
    assert("beacon_processor_aggregated_attestation_verified_total"@[40] != "beacon_processor_aggregated_attestation_imported_total"@[40]);
    assert("beacon_processor_aggregated_attestation_verified_total"@[40] != "beacon_processor_aggregated_attestation_requeued_total"@[40]);
    assert("beacon_processor_aggregated_attestation_verified_total"@[0] != "gossipsub_light_client_finality_update_errors_per_type"@[0]);
    assert("beacon_processor_aggregated_attestation_imported_total"@[40] != "beacon_processor_aggregated_attestation_requeued_total"@[40]);
    assert("beacon_processor_aggregated_attestation_imported_total"@[0] != "gossipsub_light_client_finality_update_errors_per_type"@[0]);
    assert("beacon_processor_aggregated_attestation_requeued_total"@[0] != "gossipsub_light_client_finality_update_errors_per_type"@[0]);
    assert("beacon_processor_sync_message_verified_total"@[30] != "beacon_processor_sync_message_imported_total"@[30]);
    assert("beacon_processor_sync_contribution_verified_total"@[35] != "beacon_processor_sync_contribution_imported_total"@[35]);
    assert("network_receive_events"@[0] != "libp2p_total_bandwidth"@[0]);
    assert("network_receive_times"@[0] != "libp2p_outbound_bytes"@[0]);
    assert("network_receive_times"@[0] != "sync_peers_per_status"@[0]);
    assert("libp2p_outbound_bytes"@[0] != "sync_peers_per_status"@[0]);
    assert("sync_single_block_lookups"@[5] != "sync_parent_block_lookups"@[5]);
    assert forall|i: int| 0 <= i < declared_names().len() implies declared_names()[i]
        == declared_name_at(i) by {}
    assert forall|i: int, j: int|
        0 <= i < j < declared_names().len() implies declared_names()[i]
        != declared_names()[j] by {
        assert(declared_name_at(i) != declared_name_at(j));
    }
}

/// Slot-relative block delay buckets, in microseconds: a finer list up to
/// twenty seconds for greater granularity in block delay.
pub open spec fn slot_start_delay_buckets_spec() -> Seq<u64> {
    seq![
        100000u64,
        200000u64,
        300000u64,
        400000u64,
        500000u64,
        750000u64,
        1000000u64,
        1250000u64,
        1500000u64,
        1750000u64,
        2000000u64,
        2500000u64,
        3000000u64,
        3500000u64,
        4000000u64,
        5000000u64,
        6000000u64,
        7000000u64,
        8000000u64,
        9000000u64,
        10000000u64,
        15000000u64,
        20000000u64,
    ]
}

pub fn slot_start_delay_buckets() -> (b: Vec<u64>)
    ensures
        b@ == slot_start_delay_buckets_spec(),
        crate::histogram::valid_buckets(b@),
{
    let b: Vec<u64> = vec![
        100000u64,
        200000u64,
        300000u64,
        400000u64,
        500000u64,
        750000u64,
        1000000u64,
        1250000u64,
        1500000u64,
        1750000u64,
        2000000u64,
        2500000u64,
        3000000u64,
        3500000u64,
        4000000u64,
        5000000u64,
        6000000u64,
        7000000u64,
        8000000u64,
        9000000u64,
        10000000u64,
        15000000u64,
        20000000u64,
    ];
    proof {
        assert(b@ =~= slot_start_delay_buckets_spec());
    }
    b
}

fn client_label_names() -> (v: Vec<String>)
    ensures
        v@.len() == 1,
        v.deep_view() == seq!["Client"@],
{
    let v: Vec<String> = vec!["Client".to_owned()];
    proof {
        assert(v.deep_view() =~= seq!["Client"@]);
    }
    v
}

fn type_label_names() -> (v: Vec<String>)
    ensures
        v@.len() == 1,
        v.deep_view() == seq!["type"@],
{
    let v: Vec<String> = vec!["type".to_owned()];
    proof {
        assert(v.deep_view() =~= seq!["type"@]);
    }
    v
}

fn sync_label_names() -> (v: Vec<String>)
    ensures
        v@.len() == 1,
        v.deep_view() == seq!["sync_status"@],
{
    let v: Vec<String> = vec!["sync_status".to_owned()];
    proof {
        assert(v.deep_view() =~= seq!["sync_status"@]);
    }
    v
}

fn range_label_names() -> (v: Vec<String>)
    ensures
        v@.len() == 1,
        v.deep_view() == seq!["range_type"@],
{
    let v: Vec<String> = vec!["range_type".to_owned()];
    proof {
        assert(v.deep_view() =~= seq!["range_type"@]);
    }
    v
}

impl NetworkMetrics {
    /// Registers the whole instrument set against `registry`: each declared
    /// name is claimed in order, and each handle is live exactly when its
    /// name was still free, with fresh (zero or empty) readings and the
    /// declared label names and bucket boundaries; a handle whose name was
    /// taken is inert and every update on it is a silent no-op.
    #[verifier::rlimit(100)]
    #[verifier::spinoff_prover]
    pub fn register(registry: &mut Registry) -> (m: NetworkMetrics)
        ensures
            forall|n: Seq<char>| #![auto]
                final(registry).is_registered(n) <==> old(registry).is_registered(n)
                    || declared_names().contains(n),
            (forall|i: int| #![auto]
                0 <= i < declared_names().len() ==> !old(registry).is_registered(
                    declared_names()[i],
                )) ==> final(registry).names_view() == old(registry).names_view()
                + declared_names(),
            m.beacon_block_mesh_peers_per_client.is_live() <==> !old(registry).is_registered("block_mesh_peers_per_client"@),
            m.beacon_block_mesh_peers_per_client.wf(),
            m.beacon_block_mesh_peers_per_client.arity() == 1,
            m.beacon_block_mesh_peers_per_client.names() == seq!["Client"@],
            m.beacon_block_mesh_peers_per_client.map_view() == Map::<Seq<Seq<char>>, int>::empty(),
            m.beacon_aggregate_and_proof_mesh_peers_per_client.is_live() <==> !old(registry).is_registered("beacon_aggregate_and_proof_mesh_peers_per_client"@),
            m.beacon_aggregate_and_proof_mesh_peers_per_client.wf(),
            m.beacon_aggregate_and_proof_mesh_peers_per_client.arity() == 1,
            m.beacon_aggregate_and_proof_mesh_peers_per_client.names() == seq!["Client"@],
            m.beacon_aggregate_and_proof_mesh_peers_per_client.map_view() == Map::<Seq<Seq<char>>, int>::empty(),
            m.subnet_subscription_requests.is_live() <==> !old(registry).is_registered("validator_attestation_subnet_subscriptions_total"@),
            m.subnet_subscription_requests.val() == 0,
            m.subnet_subscription_aggregator_requests.is_live() <==> !old(registry).is_registered("validator_subnet_subscriptions_aggregator_total"@),
            m.subnet_subscription_aggregator_requests.val() == 0,
            m.sync_committee_subscription_requests.is_live() <==> !old(registry).is_registered("validator_sync_committee_subnet_subscriptions_total"@),
            m.sync_committee_subscription_requests.val() == 0,
            m.beacon_processor_gossip_block_verified_total.is_live() <==> !old(registry).is_registered("beacon_processor_gossip_block_verified_total"@),
            m.beacon_processor_gossip_block_verified_total.val() == 0,
            m.beacon_processor_gossip_block_imported_total.is_live() <==> !old(registry).is_registered("beacon_processor_gossip_block_imported_total"@),
            m.beacon_processor_gossip_block_imported_total.val() == 0,
            m.beacon_processor_gossip_block_requeued_total.is_live() <==> !old(registry).is_registered("beacon_processor_gossip_block_requeued_total"@),
            m.beacon_processor_gossip_block_requeued_total.val() == 0,
            m.beacon_processor_gossip_block_early_seconds.is_live() <==> !old(registry).is_registered("beacon_processor_gossip_block_early_seconds"@),
            m.beacon_processor_gossip_block_early_seconds.wf(),
            m.beacon_processor_gossip_block_early_seconds.total() == 0,
            m.beacon_processor_gossip_block_early_seconds.sum_value() == 0,
            forall|i: int| 0 <= i < m.beacon_processor_gossip_block_early_seconds.counts().len() ==> m.beacon_processor_gossip_block_early_seconds.counts()[i] == 0,
            m.beacon_processor_gossip_block_early_seconds.is_live() ==> m.beacon_processor_gossip_block_early_seconds.bounds() == default_buckets_spec(),
            m.beacon_processor_exit_verified_total.is_live() <==> !old(registry).is_registered("beacon_processor_exit_verified_total"@),
            m.beacon_processor_exit_verified_total.val() == 0,
            m.beacon_processor_exit_imported_total.is_live() <==> !old(registry).is_registered("beacon_processor_exit_imported_total"@),
            m.beacon_processor_exit_imported_total.val() == 0,
            m.beacon_processor_proposer_slashing_verified_total.is_live() <==> !old(registry).is_registered("beacon_processor_proposer_slashing_verified_total"@),
            m.beacon_processor_proposer_slashing_verified_total.val() == 0,
            m.beacon_processor_proposer_slashing_imported_total.is_live() <==> !old(registry).is_registered("beacon_processor_proposer_slashing_imported_total"@),
            m.beacon_processor_proposer_slashing_imported_total.val() == 0,
            m.beacon_processor_attester_slashing_verified_total.is_live() <==> !old(registry).is_registered("beacon_processor_attester_slashing_verified_total"@),
            m.beacon_processor_attester_slashing_verified_total.val() == 0,
            m.beacon_processor_attester_slashing_imported_total.is_live() <==> !old(registry).is_registered("beacon_processor_attester_slashing_imported_total"@),
            m.beacon_processor_attester_slashing_imported_total.val() == 0,
            m.beacon_processor_bls_to_execution_change_verified_total.is_live() <==> !old(registry).is_registered("beacon_processor_bls_to_execution_change_verified_total"@),
            m.beacon_processor_bls_to_execution_change_verified_total.val() == 0,
            m.beacon_processor_bls_to_execution_change_imported_total.is_live() <==> !old(registry).is_registered("beacon_processor_bls_to_execution_change_imported_total"@),
            m.beacon_processor_bls_to_execution_change_imported_total.val() == 0,
            m.beacon_processor_rpc_block_imported_total.is_live() <==> !old(registry).is_registered("beacon_processor_rpc_block_imported_total"@),
            m.beacon_processor_rpc_block_imported_total.val() == 0,
            m.beacon_processor_chain_segment_success_total.is_live() <==> !old(registry).is_registered("beacon_processor_chain_segment_success_total"@),
            m.beacon_processor_chain_segment_success_total.val() == 0,
            m.beacon_processor_backfill_chain_segment_success_total.is_live() <==> !old(registry).is_registered("beacon_processor_backfill_chain_segment_success_total"@),
            m.beacon_processor_backfill_chain_segment_success_total.val() == 0,
            m.beacon_processor_chain_segment_failed_total.is_live() <==> !old(registry).is_registered("beacon_processor_chain_segment_failed_total"@),
            m.beacon_processor_chain_segment_failed_total.val() == 0,
            m.beacon_processor_backfill_chain_segment_failed_total.is_live() <==> !old(registry).is_registered("beacon_processor_backfill_chain_segment_failed_total"@),
            m.beacon_processor_backfill_chain_segment_failed_total.val() == 0,
            m.beacon_processor_unaggregated_attestation_verified_total.is_live() <==> !old(registry).is_registered("beacon_processor_unaggregated_attestation_verified_total"@),
            m.beacon_processor_unaggregated_attestation_verified_total.val() == 0,
            m.beacon_processor_unaggregated_attestation_imported_total.is_live() <==> !old(registry).is_registered("beacon_processor_unaggregated_attestation_imported_total"@),
            m.beacon_processor_unaggregated_attestation_imported_total.val() == 0,
            m.beacon_processor_unaggregated_attestation_requeued_total.is_live() <==> !old(registry).is_registered("beacon_processor_unaggregated_attestation_requeued_total"@),
            m.beacon_processor_unaggregated_attestation_requeued_total.val() == 0,
            m.beacon_processor_aggregated_attestation_verified_total.is_live() <==> !old(registry).is_registered("beacon_processor_aggregated_attestation_verified_total"@),
            m.beacon_processor_aggregated_attestation_verified_total.val() == 0,
            m.beacon_processor_aggregated_attestation_imported_total.is_live() <==> !old(registry).is_registered("beacon_processor_aggregated_attestation_imported_total"@),
            m.beacon_processor_aggregated_attestation_imported_total.val() == 0,
            m.beacon_processor_aggregated_attestation_requeued_total.is_live() <==> !old(registry).is_registered("beacon_processor_aggregated_attestation_requeued_total"@),
            m.beacon_processor_aggregated_attestation_requeued_total.val() == 0,
            m.beacon_processor_sync_message_verified_total.is_live() <==> !old(registry).is_registered("beacon_processor_sync_message_verified_total"@),
            m.beacon_processor_sync_message_verified_total.val() == 0,
            m.beacon_processor_sync_message_imported_total.is_live() <==> !old(registry).is_registered("beacon_processor_sync_message_imported_total"@),
            m.beacon_processor_sync_message_imported_total.val() == 0,
            m.beacon_processor_sync_contribution_verified_total.is_live() <==> !old(registry).is_registered("beacon_processor_sync_contribution_verified_total"@),
            m.beacon_processor_sync_contribution_verified_total.val() == 0,
            m.beacon_processor_sync_contribution_imported_total.is_live() <==> !old(registry).is_registered("beacon_processor_sync_contribution_imported_total"@),
            m.beacon_processor_sync_contribution_imported_total.val() == 0,
            m.gossip_attestation_errors_per_type.is_live() <==> !old(registry).is_registered("gossipsub_attestation_errors_per_type"@),
            m.gossip_attestation_errors_per_type.wf(),
            m.gossip_attestation_errors_per_type.arity() == 1,
            m.gossip_attestation_errors_per_type.names() == seq!["type"@],
            m.gossip_attestation_errors_per_type.map_view() == Map::<Seq<Seq<char>>, int>::empty(),
            m.gossip_sync_committee_errors_per_type.is_live() <==> !old(registry).is_registered("gossipsub_sync_committee_errors_per_type"@),
            m.gossip_sync_committee_errors_per_type.wf(),
            m.gossip_sync_committee_errors_per_type.arity() == 1,
            m.gossip_sync_committee_errors_per_type.names() == seq!["type"@],
            m.gossip_sync_committee_errors_per_type.map_view() == Map::<Seq<Seq<char>>, int>::empty(),
            m.gossip_finality_update_errors_per_type.is_live() <==> !old(registry).is_registered("gossipsub_light_client_finality_update_errors_per_type"@),
            m.gossip_finality_update_errors_per_type.wf(),
            m.gossip_finality_update_errors_per_type.arity() == 1,
            m.gossip_finality_update_errors_per_type.names() == seq!["type"@],
            m.gossip_finality_update_errors_per_type.map_view() == Map::<Seq<Seq<char>>, int>::empty(),
            m.gossip_optimistic_update_errors_per_type.is_live() <==> !old(registry).is_registered("gossipsub_light_client_optimistic_update_errors_per_type"@),
            m.gossip_optimistic_update_errors_per_type.wf(),
            m.gossip_optimistic_update_errors_per_type.arity() == 1,
            m.gossip_optimistic_update_errors_per_type.names() == seq!["type"@],
            m.gossip_optimistic_update_errors_per_type.map_view() == Map::<Seq<Seq<char>>, int>::empty(),
            m.network_receive_events.is_live() <==> !old(registry).is_registered("network_receive_events"@),
            m.network_receive_events.wf(),
            m.network_receive_events.arity() == 1,
            m.network_receive_events.names() == seq!["type"@],
            m.network_receive_events.map_view() == Map::<Seq<Seq<char>>, int>::empty(),
            m.network_receive_times.is_live() <==> !old(registry).is_registered("network_receive_times"@),
            m.network_receive_times.wf(),
            m.network_receive_times.arity() == 1,
            m.network_receive_times.names() == seq!["type"@],
            m.network_receive_times.keys_view() == Seq::<Seq<Seq<char>>>::empty(),
            m.network_receive_times.is_live() ==> m.network_receive_times.bounds() == default_buckets_spec(),
            m.inbound_libp2p_bytes.is_live() <==> !old(registry).is_registered("libp2p_inbound_bytes"@),
            m.inbound_libp2p_bytes.val() == 0,
            m.outbound_libp2p_bytes.is_live() <==> !old(registry).is_registered("libp2p_outbound_bytes"@),
            m.outbound_libp2p_bytes.val() == 0,
            m.total_libp2p_bandwidth.is_live() <==> !old(registry).is_registered("libp2p_total_bandwidth"@),
            m.total_libp2p_bandwidth.val() == 0,
            m.peers_per_sync_type.is_live() <==> !old(registry).is_registered("sync_peers_per_status"@),
            m.peers_per_sync_type.wf(),
            m.peers_per_sync_type.arity() == 1,
            m.peers_per_sync_type.names() == seq!["sync_status"@],
            m.peers_per_sync_type.map_view() == Map::<Seq<Seq<char>>, int>::empty(),
            m.syncing_chains_count.is_live() <==> !old(registry).is_registered("sync_range_chains"@),
            m.syncing_chains_count.wf(),
            m.syncing_chains_count.arity() == 1,
            m.syncing_chains_count.names() == seq!["range_type"@],
            m.syncing_chains_count.map_view() == Map::<Seq<Seq<char>>, int>::empty(),
            m.sync_single_block_lookups.is_live() <==> !old(registry).is_registered("sync_single_block_lookups"@),
            m.sync_single_block_lookups.val() == 0,
            m.sync_parent_block_lookups.is_live() <==> !old(registry).is_registered("sync_parent_block_lookups"@),
            m.sync_parent_block_lookups.val() == 0,
            m.beacon_block_gossip_propagation_verification_delay_time.is_live() <==> !old(registry).is_registered("beacon_block_gossip_propagation_verification_delay_time"@),
            m.beacon_block_gossip_propagation_verification_delay_time.wf(),
            m.beacon_block_gossip_propagation_verification_delay_time.total() == 0,
            m.beacon_block_gossip_propagation_verification_delay_time.sum_value() == 0,
            forall|i: int| 0 <= i < m.beacon_block_gossip_propagation_verification_delay_time.counts().len() ==> m.beacon_block_gossip_propagation_verification_delay_time.counts()[i] == 0,
            m.beacon_block_gossip_propagation_verification_delay_time.is_live() ==> m.beacon_block_gossip_propagation_verification_delay_time.bounds() == decimal_buckets_spec(-3, -1),
            m.beacon_block_gossip_slot_start_delay_time.is_live() <==> !old(registry).is_registered("beacon_block_gossip_slot_start_delay_time"@),
            m.beacon_block_gossip_slot_start_delay_time.wf(),
            m.beacon_block_gossip_slot_start_delay_time.total() == 0,
            m.beacon_block_gossip_slot_start_delay_time.sum_value() == 0,
            forall|i: int| 0 <= i < m.beacon_block_gossip_slot_start_delay_time.counts().len() ==> m.beacon_block_gossip_slot_start_delay_time.counts()[i] == 0,
            m.beacon_block_gossip_slot_start_delay_time.is_live() ==> m.beacon_block_gossip_slot_start_delay_time.bounds() == slot_start_delay_buckets_spec(),
            m.beacon_block_last_delay.is_live() <==> !old(registry).is_registered("beacon_block_last_delay"@),
            m.beacon_block_last_delay.val() == 0,
            m.beacon_block_gossip_arrived_late_total.is_live() <==> !old(registry).is_registered("beacon_block_gossip_arrived_late_total"@),
            m.beacon_block_gossip_arrived_late_total.val() == 0,
            m.beacon_processor_reprocessing_queue_sent_optimistic_updates.is_live() <==> !old(registry).is_registered("beacon_processor_reprocessing_queue_sent_optimistic_updates"@),
            m.beacon_processor_reprocessing_queue_sent_optimistic_updates.val() == 0,
    {
        let names = declared_name_list();
        proof {
            lemma_declared_names_distinct();
        }
        let live = registry.claim_all(&names);
        proof {
            assert(names.deep_view()[0] == "block_mesh_peers_per_client"@);
            assert(names.deep_view()[1] == "beacon_aggregate_and_proof_mesh_peers_per_client"@);
            assert(names.deep_view()[2] == "validator_attestation_subnet_subscriptions_total"@);
            assert(names.deep_view()[3] == "validator_subnet_subscriptions_aggregator_total"@);
            assert(names.deep_view()[4] == "validator_sync_committee_subnet_subscriptions_total"@);
            assert(names.deep_view()[5] == "beacon_processor_gossip_block_verified_total"@);
            assert(names.deep_view()[6] == "beacon_processor_gossip_block_imported_total"@);
            assert(names.deep_view()[7] == "beacon_processor_gossip_block_requeued_total"@);
            assert(names.deep_view()[8] == "beacon_processor_gossip_block_early_seconds"@);
            assert(names.deep_view()[9] == "beacon_processor_exit_verified_total"@);
            assert(names.deep_view()[10] == "beacon_processor_exit_imported_total"@);
            assert(names.deep_view()[11] == "beacon_processor_proposer_slashing_verified_total"@);
            assert(names.deep_view()[12] == "beacon_processor_proposer_slashing_imported_total"@);
            assert(names.deep_view()[13] == "beacon_processor_attester_slashing_verified_total"@);
            assert(names.deep_view()[14] == "beacon_processor_attester_slashing_imported_total"@);
            assert(names.deep_view()[15] == "beacon_processor_bls_to_execution_change_verified_total"@);
            assert(names.deep_view()[16] == "beacon_processor_bls_to_execution_change_imported_total"@);
            assert(names.deep_view()[17] == "beacon_processor_rpc_block_imported_total"@);
            assert(names.deep_view()[18] == "beacon_processor_chain_segment_success_total"@);
            assert(names.deep_view()[19] == "beacon_processor_backfill_chain_segment_success_total"@);
            assert(names.deep_view()[20] == "beacon_processor_chain_segment_failed_total"@);
            assert(names.deep_view()[21] == "beacon_processor_backfill_chain_segment_failed_total"@);
            assert(names.deep_view()[22] == "beacon_processor_unaggregated_attestation_verified_total"@);
            assert(names.deep_view()[23] == "beacon_processor_unaggregated_attestation_imported_total"@);
            assert(names.deep_view()[24] == "beacon_processor_unaggregated_attestation_requeued_total"@);
            assert(names.deep_view()[25] == "beacon_processor_aggregated_attestation_verified_total"@);
            assert(names.deep_view()[26] == "beacon_processor_aggregated_attestation_imported_total"@);
            assert(names.deep_view()[27] == "beacon_processor_aggregated_attestation_requeued_total"@);
            assert(names.deep_view()[28] == "beacon_processor_sync_message_verified_total"@);
            assert(names.deep_view()[29] == "beacon_processor_sync_message_imported_total"@);
            assert(names.deep_view()[30] == "beacon_processor_sync_contribution_verified_total"@);
            assert(names.deep_view()[31] == "beacon_processor_sync_contribution_imported_total"@);
            assert(names.deep_view()[32] == "gossipsub_attestation_errors_per_type"@);
            assert(names.deep_view()[33] == "gossipsub_sync_committee_errors_per_type"@);
            assert(names.deep_view()[34] == "gossipsub_light_client_finality_update_errors_per_type"@);
            assert(names.deep_view()[35] == "gossipsub_light_client_optimistic_update_errors_per_type"@);
            assert(names.deep_view()[36] == "network_receive_events"@);
            assert(names.deep_view()[37] == "network_receive_times"@);
            assert(names.deep_view()[38] == "libp2p_inbound_bytes"@);
            assert(names.deep_view()[39] == "libp2p_outbound_bytes"@);
            assert(names.deep_view()[40] == "libp2p_total_bandwidth"@);
            assert(names.deep_view()[41] == "sync_peers_per_status"@);
            assert(names.deep_view()[42] == "sync_range_chains"@);
            assert(names.deep_view()[43] == "sync_single_block_lookups"@);
            assert(names.deep_view()[44] == "sync_parent_block_lookups"@);
            assert(names.deep_view()[45] == "beacon_block_gossip_propagation_verification_delay_time"@);
            assert(names.deep_view()[46] == "beacon_block_gossip_slot_start_delay_time"@);
            assert(names.deep_view()[47] == "beacon_block_last_delay"@);
            assert(names.deep_view()[48] == "beacon_block_gossip_arrived_late_total"@);
            assert(names.deep_view()[49] == "beacon_processor_reprocessing_queue_sent_optimistic_updates"@);
        }
        let beacon_block_mesh_peers_per_client = if live[0] {
            IntGaugeVec::new(client_label_names())
        } else {
            IntGaugeVec::inert(client_label_names())
        };
        let beacon_aggregate_and_proof_mesh_peers_per_client = if live[1] {
            IntGaugeVec::new(client_label_names())
        } else {
            IntGaugeVec::inert(client_label_names())
        };
        let subnet_subscription_requests = if live[2] {
            IntCounter::new()
        } else {
            IntCounter::inert()
        };
        let subnet_subscription_aggregator_requests = if live[3] {
            IntCounter::new()
        } else {
            IntCounter::inert()
        };
        let sync_committee_subscription_requests = if live[4] {
            IntCounter::new()
        } else {
            IntCounter::inert()
        };
        let beacon_processor_gossip_block_verified_total = if live[5] {
            IntCounter::new()
        } else {
            IntCounter::inert()
        };
        let beacon_processor_gossip_block_imported_total = if live[6] {
            IntCounter::new()
        } else {
            IntCounter::inert()
        };
        let beacon_processor_gossip_block_requeued_total = if live[7] {
            IntCounter::new()
        } else {
            IntCounter::inert()
        };
        let beacon_processor_gossip_block_early_seconds = if live[8] {
            Histogram::new(default_buckets())
        } else {
            Histogram::inert()
        };
        let beacon_processor_exit_verified_total = if live[9] {
            IntCounter::new()
        } else {
            IntCounter::inert()
        };
        let beacon_processor_exit_imported_total = if live[10] {
            IntCounter::new()
        } else {
            IntCounter::inert()
        };
        let beacon_processor_proposer_slashing_verified_total = if live[11] {
            IntCounter::new()
        } else {
            IntCounter::inert()
        };
        let beacon_processor_proposer_slashing_imported_total = if live[12] {
            IntCounter::new()
        } else {
            IntCounter::inert()
        };
        let beacon_processor_attester_slashing_verified_total = if live[13] {
            IntCounter::new()
        } else {
            IntCounter::inert()
        };
        let beacon_processor_attester_slashing_imported_total = if live[14] {
            IntCounter::new()
        } else {
            IntCounter::inert()
        };
        let beacon_processor_bls_to_execution_change_verified_total = if live[15] {
            IntCounter::new()
        } else {
            IntCounter::inert()
        };
        let beacon_processor_bls_to_execution_change_imported_total = if live[16] {
            IntCounter::new()
        } else {
            IntCounter::inert()
        };
        let beacon_processor_rpc_block_imported_total = if live[17] {
            IntCounter::new()
        } else {
            IntCounter::inert()
        };
        let beacon_processor_chain_segment_success_total = if live[18] {
            IntCounter::new()
        } else {
            IntCounter::inert()
        };
        let beacon_processor_backfill_chain_segment_success_total = if live[19] {
            IntCounter::new()
        } else {
            IntCounter::inert()
        };
        let beacon_processor_chain_segment_failed_total = if live[20] {
            IntCounter::new()
        } else {
            IntCounter::inert()
        };
        let beacon_processor_backfill_chain_segment_failed_total = if live[21] {
            IntCounter::new()
        } else {
            IntCounter::inert()
        };
        let beacon_processor_unaggregated_attestation_verified_total = if live[22] {
            IntCounter::new()
        } else {
            IntCounter::inert()
        };
        let beacon_processor_unaggregated_attestation_imported_total = if live[23] {
            IntCounter::new()
        } else {
            IntCounter::inert()
        };
        let beacon_processor_unaggregated_attestation_requeued_total = if live[24] {
            IntCounter::new()
        } else {
            IntCounter::inert()
        };
        let beacon_processor_aggregated_attestation_verified_total = if live[25] {
            IntCounter::new()
        } else {
            IntCounter::inert()
        };
        let beacon_processor_aggregated_attestation_imported_total = if live[26] {
            IntCounter::new()
        } else {
            IntCounter::inert()
        };
        let beacon_processor_aggregated_attestation_requeued_total = if live[27] {
            IntCounter::new()
        } else {
            IntCounter::inert()
        };
        let beacon_processor_sync_message_verified_total = if live[28] {
            IntCounter::new()
        } else {
            IntCounter::inert()
        };
        let beacon_processor_sync_message_imported_total = if live[29] {
            IntCounter::new()
        } else {
            IntCounter::inert()
        };
        let beacon_processor_sync_contribution_verified_total = if live[30] {
            IntCounter::new()
        } else {
            IntCounter::inert()
        };
        let beacon_processor_sync_contribution_imported_total = if live[31] {
            IntCounter::new()
        } else {
            IntCounter::inert()
        };
        let gossip_attestation_errors_per_type = if live[32] {
            IntCounterVec::new(type_label_names())
        } else {
            IntCounterVec::inert(type_label_names())
        };
        let gossip_sync_committee_errors_per_type = if live[33] {
            IntCounterVec::new(type_label_names())
        } else {
            IntCounterVec::inert(type_label_names())
        };
        let gossip_finality_update_errors_per_type = if live[34] {
            IntCounterVec::new(type_label_names())
        } else {
            IntCounterVec::inert(type_label_names())
        };
        let gossip_optimistic_update_errors_per_type = if live[35] {
            IntCounterVec::new(type_label_names())
        } else {
            IntCounterVec::inert(type_label_names())
        };
        let network_receive_events = if live[36] {
            IntCounterVec::new(type_label_names())
        } else {
            IntCounterVec::inert(type_label_names())
        };
        let network_receive_times = if live[37] {
            HistogramVec::new(type_label_names(), default_buckets())
        } else {
            HistogramVec::inert(type_label_names())
        };
        let inbound_libp2p_bytes = if live[38] {
            IntGauge::new()
        } else {
            IntGauge::inert()
        };
        let outbound_libp2p_bytes = if live[39] {
            IntGauge::new()
        } else {
            IntGauge::inert()
        };
        let total_libp2p_bandwidth = if live[40] {
            IntGauge::new()
        } else {
            IntGauge::inert()
        };
        let peers_per_sync_type = if live[41] {
            IntGaugeVec::new(sync_label_names())
        } else {
            IntGaugeVec::inert(sync_label_names())
        };
        let syncing_chains_count = if live[42] {
            IntGaugeVec::new(range_label_names())
        } else {
            IntGaugeVec::inert(range_label_names())
        };
        let sync_single_block_lookups = if live[43] {
            IntGauge::new()
        } else {
            IntGauge::inert()
        };
        let sync_parent_block_lookups = if live[44] {
            IntGauge::new()
        } else {
            IntGauge::inert()
        };
        let beacon_block_gossip_propagation_verification_delay_time = if live[45] {
            Histogram::new(decimal_buckets(-3, -1))
        } else {
            Histogram::inert()
        };
        let beacon_block_gossip_slot_start_delay_time = if live[46] {
            Histogram::new(slot_start_delay_buckets())
        } else {
            Histogram::inert()
        };
        let beacon_block_last_delay = if live[47] {
            IntGauge::new()
        } else {
            IntGauge::inert()
        };
        let beacon_block_gossip_arrived_late_total = if live[48] {
            IntCounter::new()
        } else {
            IntCounter::inert()
        };
        let beacon_processor_reprocessing_queue_sent_optimistic_updates = if live[49] {
            IntCounter::new()
        } else {
            IntCounter::inert()
        };
        NetworkMetrics {
            beacon_block_mesh_peers_per_client,
            beacon_aggregate_and_proof_mesh_peers_per_client,
            subnet_subscription_requests,
            subnet_subscription_aggregator_requests,
            sync_committee_subscription_requests,
            beacon_processor_gossip_block_verified_total,
            beacon_processor_gossip_block_imported_total,
            beacon_processor_gossip_block_requeued_total,
            beacon_processor_gossip_block_early_seconds,
            beacon_processor_exit_verified_total,
            beacon_processor_exit_imported_total,
            beacon_processor_proposer_slashing_verified_total,
            beacon_processor_proposer_slashing_imported_total,
            beacon_processor_attester_slashing_verified_total,
            beacon_processor_attester_slashing_imported_total,
            beacon_processor_bls_to_execution_change_verified_total,
            beacon_processor_bls_to_execution_change_imported_total,
            beacon_processor_rpc_block_imported_total,
            beacon_processor_chain_segment_success_total,
            beacon_processor_backfill_chain_segment_success_total,
            beacon_processor_chain_segment_failed_total,
            beacon_processor_backfill_chain_segment_failed_total,
            beacon_processor_unaggregated_attestation_verified_total,
            beacon_processor_unaggregated_attestation_imported_total,
            beacon_processor_unaggregated_attestation_requeued_total,
            beacon_processor_aggregated_attestation_verified_total,
            beacon_processor_aggregated_attestation_imported_total,
            beacon_processor_aggregated_attestation_requeued_total,
            beacon_processor_sync_message_verified_total,
            beacon_processor_sync_message_imported_total,
            beacon_processor_sync_contribution_verified_total,
            beacon_processor_sync_contribution_imported_total,
            gossip_attestation_errors_per_type,
            gossip_sync_committee_errors_per_type,
            gossip_finality_update_errors_per_type,
            gossip_optimistic_update_errors_per_type,
            network_receive_events,
            network_receive_times,
            inbound_libp2p_bytes,
            outbound_libp2p_bytes,
            total_libp2p_bandwidth,
            peers_per_sync_type,
            syncing_chains_count,
            sync_single_block_lookups,
            sync_parent_block_lookups,
            beacon_block_gossip_propagation_verification_delay_time,
            beacon_block_gossip_slot_start_delay_time,
            beacon_block_last_delay,
            beacon_block_gossip_arrived_late_total,
            beacon_processor_reprocessing_queue_sent_optimistic_updates,
        }
    }
}

} // verus!
