use iroh_raft::admin::{ClusterMonitor, HealthChecker, MaintenanceOps};
use iroh_raft::cluster::Health;
use std::time::{SystemTime, UNIX_EPOCH};

fn now_ms() -> u64 {
    SystemTime::now().duration_since(UNIX_EPOCH).unwrap().as_millis() as u64
}

#[test]
fn test_health_checker() {
    let checker = HealthChecker::new();

    let now = now_ms();
    assert!(checker.is_timestamp_fresh(now, 60 * 1000));

    let old_time = now - 120 * 1000;
    assert!(!checker.is_timestamp_fresh(old_time, 60 * 1000));
}

#[test]
fn test_health_aggregation() {
    let checker = HealthChecker::new();

    let components = vec![
        ("consensus".to_string(), Health::Healthy),
        ("storage".to_string(), Health::Healthy),
    ];
    assert!(matches!(checker.aggregate_health(&components), Health::Healthy));

    let components = vec![
        ("consensus".to_string(), Health::Healthy),
        ("storage".to_string(), Health::Degraded),
    ];
    assert!(matches!(checker.aggregate_health(&components), Health::Degraded));

    let components = vec![
        ("consensus".to_string(), Health::Healthy),
        ("storage".to_string(), Health::Unhealthy),
    ];
    assert!(matches!(checker.aggregate_health(&components), Health::Unhealthy));

    let components: Vec<(String, Health)> = vec![];
    assert!(matches!(checker.aggregate_health(&components), Health::Unhealthy));
}

#[test]
fn test_maintenance_ops() {
    let maintenance = MaintenanceOps::new();

    assert!(!maintenance.should_compact(5000, 50 * 1024 * 1024));
    assert!(maintenance.should_compact(15000, 50 * 1024 * 1024));
    assert!(maintenance.should_compact(5000, 150 * 1024 * 1024));

    assert!(!maintenance.should_snapshot(25000));
    assert!(maintenance.should_snapshot(75000));
}

#[test]
fn test_cluster_monitor() {
    let monitor = ClusterMonitor::new();

    let maintenance_needed = monitor.needs_maintenance(5000, 50 * 1024 * 1024, 25000);
    assert!(!maintenance_needed.any_needed());

    let maintenance_needed = monitor.needs_maintenance(15000, 150 * 1024 * 1024, 75000);
    assert!(maintenance_needed.any_needed());
    assert!(maintenance_needed.compact_log);
    assert!(maintenance_needed.take_snapshot);
}

#[test]
fn test_maintenance_ops_custom() {
    let maintenance = MaintenanceOps::with_thresholds(1000, 10 * 1024 * 1024, 5000)
        .disable_auto_maintenance();

    assert!(!maintenance.auto_compact);
    assert!(!maintenance.auto_snapshot);
    assert!(!maintenance.should_compact(2000, 20 * 1024 * 1024));
    assert!(!maintenance.should_snapshot(10000));
}

#[test]
fn health_checker_freshness_at_fixed_clock() {
    let checker = HealthChecker::with_timeouts(1000, 2000);
    assert_eq!(checker.check_timeout_ms, 1000);
    assert_eq!(checker.check_interval_ms, 2000);
    assert!(checker.is_timestamp_fresh_at(10_000, 9_000, 1_000));
    assert!(!checker.is_timestamp_fresh_at(10_000, 8_999, 1_000));
    assert!(!checker.is_timestamp_fresh_at(10_000, 10_001, 1_000));
}

#[test]
fn admin_defaults_match_new() {
    let m = MaintenanceOps::default();
    assert!(m.auto_compact && m.auto_snapshot);
    assert_eq!(m.compact_threshold_entries, 10000);
    assert_eq!(m.compact_threshold_bytes, 100 * 1024 * 1024);
    assert_eq!(m.snapshot_threshold_entries, 50000);
    let h = HealthChecker::default();
    assert_eq!(h.check_timeout_ms, 5000);
    assert_eq!(h.check_interval_ms, 30000);
    let c = ClusterMonitor::default();
    assert_eq!(c.maintenance.snapshot_threshold_entries, 50000);
}
