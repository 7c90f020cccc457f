use iroh_raft::circuit_breaker::{CircuitBreaker, CircuitBreakerConfig, CircuitBreakerManager, CircuitBreakerMetrics, CircuitBreakerState};

#[test]
fn metrics_counters() {
    let mut m = CircuitBreaker::new(CircuitBreakerConfig::default()).metrics();
    m.record_request();
    m.record_request();
    m.record_success();
    m.record_failure();
    m.record_rejection();
    m.record_circuit_opened();
    m.record_circuit_closed();
    let s = m.get_snapshot();
    assert_eq!(s.total_requests, 2);
    assert_eq!(s.total_successes, 1);
    assert_eq!(s.total_failures, 1);
    assert_eq!(s.rejected_requests, 1);
    assert_eq!(s.circuit_opened_count, 1);
    assert_eq!(s.circuit_closed_count, 1);
    let mut w = CircuitBreakerMetrics { total_requests: u64::MAX, ..s };
    w.record_request();
    assert_eq!(w.total_requests, 0);
}

#[test]
fn old_failures_leave_the_window() {
    let config = CircuitBreakerConfig { failure_threshold: 2, timeout_ms: 100, success_threshold: 2, ..Default::default() };
    let mut b = CircuitBreaker::new(config);
    b.on_failure(1_000);
    // Long after, the old failure no longer counts: one more does not open.
    b.clean_old_failures(1_000_000);
    b.on_failure(1_000_000);
    assert_eq!(b.state(), CircuitBreakerState::Closed);
    b.on_failure(1_000_001);
    assert_eq!(b.state(), CircuitBreakerState::Open);
    // After the timeout a probe is let through; two successes close it again.
    assert!(!b.allow_request(1_000_050));
    assert!(b.allow_request(1_000_200));
    assert_eq!(b.state(), CircuitBreakerState::HalfOpen);
    b.on_success(1_000_201);
    assert_eq!(b.state(), CircuitBreakerState::HalfOpen);
    b.on_success(1_000_202);
    assert_eq!(b.state(), CircuitBreakerState::Closed);
    assert_eq!(b.metrics().circuit_closed_count, 1);
    assert_eq!(b.metrics().circuit_opened_count, 1);
}

#[test]
fn manager_reports_metrics_per_service() {
    let mut m = CircuitBreakerManager::new(CircuitBreakerConfig::default());
    let a = m.get_breaker("a");
    let b = m.get_breaker("b");
    assert_eq!(m.get_breaker("a"), a);
    m.force_open(b, 10);
    let all = m.get_all_metrics();
    assert_eq!(all.len(), 2);
    let (_, mb) = all.iter().find(|(n, _)| n == "b").unwrap();
    assert_eq!(mb.circuit_opened_count, 1);
    let (_, ma) = all.iter().find(|(n, _)| n == "a").unwrap();
    assert_eq!(ma.circuit_opened_count, 0);
}
