//! Verified core of a Raft cluster-management library.
//!
//! The modules hold the decision logic of the cluster library: health
//! aggregation, maintenance thresholds, configuration validation, access
//! control, circuit breaking, wire framing and the example key-value state
//! machine.  Durations and timestamps are carried as plain millisecond counts.

pub mod actor_patterns;
pub mod admin;
pub mod backpressure;
pub mod circuit_breaker;
mod clock;
pub mod cluster;
pub mod cluster_api;
pub mod config;
pub mod error;
pub mod lock_free;
pub mod management;
pub mod metrics;
pub mod named;
pub mod node;
pub mod parse;
pub mod raft;
pub mod seqs;
pub mod storage;
pub mod tally;
pub mod test_helpers;
pub mod text;
pub mod timeout_manager;
pub mod transport;
