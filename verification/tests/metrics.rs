use iroh_raft::metrics::{LatencyTimer, MetricsRegistry};

#[test]
fn test_metrics_registry_creation() {
    let registry = MetricsRegistry::new("test-service").unwrap();
    let _raft = registry.raft_metrics();
    let _storage = registry.storage_metrics();
    let _transport = registry.transport_metrics();
    let _node = registry.node_metrics();
}

#[test]
fn test_raft_metrics() {
    let registry = MetricsRegistry::new("test-raft").unwrap();
    let raft_metrics = registry.raft_metrics();
    raft_metrics.record_leader_election(1, 42);
    raft_metrics.record_log_append(5, 150_000);
    raft_metrics.increment_consensus_errors("timeout");
}

#[test]
fn test_storage_metrics() {
    let registry = MetricsRegistry::new("test-storage").unwrap();
    let storage_metrics = registry.storage_metrics();
    storage_metrics.record_operation("read", 10);
    storage_metrics.record_operation("write", 25);
    storage_metrics.update_disk_usage(1024000);
}

#[test]
fn test_transport_metrics() {
    let registry = MetricsRegistry::new("test-transport").unwrap();
    let transport_metrics = registry.transport_metrics();
    transport_metrics.update_active_connections(5);
    transport_metrics.record_message_sent("append_entries", "peer-1");
    transport_metrics.record_message_received("vote_request", "peer-2");
    transport_metrics.record_network_error("connection_timeout");
}

#[test]
fn test_node_metrics() {
    let registry = MetricsRegistry::new("test-node").unwrap();
    let node_metrics = registry.node_metrics();
    node_metrics.update_node_status(1, true);
    node_metrics.update_resource_usage(1024000, 4550);
    node_metrics.update_uptime(3600 * 1000);
}

#[test]
fn test_latency_timer() {
    let timer = LatencyTimer::start_at("test_operation", 1_000);
    let elapsed = timer.elapsed_at(1_010);
    assert!(elapsed >= 10);
    assert_eq!(timer.operation(), "test_operation");
    assert_eq!(timer.elapsed_at(900), 0);
    let live = LatencyTimer::start("op");
    assert!(live.elapsed() < 60_000);
}

#[test]
fn test_prometheus_export() {
    let registry = MetricsRegistry::new("test-export").unwrap();
    let export_result = registry.export_prometheus().unwrap();
    assert!(export_result.contains("test-export"));
    assert_eq!(
        export_result,
        "# Metrics collection disabled - enable 'metrics-otel' feature\n# Service: test-export\n"
    );
}

#[test]
fn test_custom_metrics_registration() {
    let mut registry = MetricsRegistry::new("test-custom").unwrap();
    let result = registry.register_custom_counter("my_custom_counter", "A custom counter for testing");
    assert!(result.is_ok());
}
