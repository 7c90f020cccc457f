use iroh_raft::config::{env_failure_step, EnvOverrides};
use iroh_raft::error::RaftError;
use iroh_raft::lock_free::HistogramSnapshot;
use iroh_raft::management::schemas::{HealthCheck, HealthResponse, HealthStatus};
use iroh_raft::raft::messages::{deserialize_message, serialize_message, MessageRoute};
use iroh_raft::timeout_manager::TimeoutStats;
use raft_proto::eraftpb::{Message, MessageType as ProtoType};

fn no_overrides() -> EnvOverrides {
    EnvOverrides {
        node_id: None,
        data_dir: None,
        debug: None,
        bind_address: None,
        peers: None,
        election_timeout_ms: None,
        heartbeat_interval_ms: None,
        log_level: None,
        metrics_enabled: None,
        otlp_endpoint: None,
    }
}

fn check(name: &str, status: HealthStatus) -> HealthCheck {
    HealthCheck { name: name.to_string(), status, message: None, duration_ms: 1 }
}

#[test]
fn message_survives_the_wire() {
    let mut m = Message::default();
    m.set_msg_type(ProtoType::MsgAppend);
    m.from = 7;
    m.to = 9;
    m.term = 4;
    let bytes = serialize_message(&m).unwrap();
    assert!(!bytes.is_empty());
    let back = deserialize_message(&bytes).unwrap();
    assert_eq!(back, m);
    assert_eq!(MessageRoute::from_message(&back), MessageRoute::from_parts(7, 9, 3));
}

#[test]
fn default_message_encodes_to_nothing() {
    let m = Message::default();
    let bytes = serialize_message(&m).unwrap();
    assert!(bytes.is_empty());
    let back = deserialize_message(&bytes).unwrap();
    assert_eq!(back.from, 0);
    assert_eq!(back.to, 0);
}

#[test]
fn truncated_bytes_are_a_serialization_error() {
    match deserialize_message(&[0x08]) {
        Err(RaftError::Serialization { message_type, details }) => {
            assert_eq!(message_type, "Message");
            assert!(!details.is_empty());
        }
        other => panic!("unexpected result: {:?}", other.map(|m| m.from)),
    }
}

#[test]
fn failure_step_of_environment_overrides() {
    let env = no_overrides();
    assert_eq!(env_failure_step(&env), 6);
    let mut env = no_overrides();
    env.node_id = Some("abc".to_string());
    assert_eq!(env_failure_step(&env), 1);
    let mut env = no_overrides();
    env.bind_address = Some(Err("bad".to_string()));
    assert_eq!(env_failure_step(&env), 2);
    let mut env = no_overrides();
    env.election_timeout_ms = Some("soon".to_string());
    assert_eq!(env_failure_step(&env), 4);
    let mut env = no_overrides();
    env.heartbeat_interval_ms = Some("".to_string());
    assert_eq!(env_failure_step(&env), 5);
}

#[test]
fn percentiles_are_zero_or_a_boundary() {
    let s = HistogramSnapshot { buckets: vec![0, 3, 0, 1], boundaries: vec![10, 20, 30] };
    assert_eq!(s.p50(), Some(10));
    assert_eq!(s.p99(), Some(30));
    let s = HistogramSnapshot { buckets: vec![5, 0, 0, 0], boundaries: vec![10, 20, 30] };
    assert_eq!(s.p95(), Some(0));
}

#[test]
fn health_status_is_worst_of_checks_added() {
    let r = HealthResponse::healthy(5).with_check(check("a", HealthStatus::Healthy));
    assert_eq!(r.status, HealthStatus::Healthy);
    let r = r.with_check(check("b", HealthStatus::Degraded));
    assert_eq!(r.status, HealthStatus::Degraded);
    let r = r.with_check(check("c", HealthStatus::Unhealthy));
    assert_eq!(r.status, HealthStatus::Unhealthy);
    let r = r.with_check(check("d", HealthStatus::Healthy));
    assert_eq!(r.status, HealthStatus::Unhealthy);
    assert_eq!(r.checks.len(), 4);
    assert_eq!(r.uptime_ms, 5);
}

#[test]
fn operations_add_up_after_recording() {
    let mut s = TimeoutStats::default();
    s.record_success(10);
    s.record_timeout();
    s.record_adjustment(500);
    s.record_success(30);
    assert_eq!(s.total_operations, 3);
    assert_eq!(s.total_operations, s.success_count + s.timeout_count);
    assert_eq!(s.timeout_count, 1);
    assert_eq!(s.adjustment_count, 1);
    assert_eq!(s.current_timeout_ms, 500);
}

#[test]
fn all_counters_are_listed_once() {
    let mut stats = iroh_raft::lock_free::LockFreeStatsAggregator::new();
    stats.increment_counter("a");
    stats.increment_counter("b");
    stats.increment_counter("a");
    stats.set_gauge("g", 7);
    let mut counters = stats.get_all_counters();
    counters.sort();
    assert_eq!(counters, vec![("a".to_string(), 2), ("b".to_string(), 1)]);
    assert_eq!(stats.get_all_gauges(), vec![("g".to_string(), 7)]);
    assert_eq!(stats.get_counter("c"), None);
}
