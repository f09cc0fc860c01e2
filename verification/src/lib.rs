//! Telemetry core for a peer-to-peer consensus-network node: a typed metrics
//! registry (counters, gauges, histograms, and label-vector variants) and the
//! recomputation routines that refresh derived gauges from a snapshot of live
//! network state (bandwidth totals, gossip mesh composition per client kind).
//!
//! Time-valued observations are carried as integer microseconds so that every
//! instrument stays in plain integer arithmetic. The verified model is
//! sequential: each contract describes one update at a time, and sharing the
//! registry's handles across threads is the embedding's concern.

pub mod defs;
pub mod histogram;
pub mod instruments;
pub mod label_vec;
pub mod mesh;
pub mod recompute;
pub mod registry;

pub use histogram::Histogram;
pub use instruments::IntCounter;
pub use instruments::IntGauge;
pub use recompute::update_bandwidth_metrics;
pub use recompute::update_gossip_metrics;
