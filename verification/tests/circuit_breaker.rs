use iroh_raft::circuit_breaker::{CircuitBreaker, CircuitBreakerConfig, CircuitBreakerManager, CircuitBreakerState};
use iroh_raft::error::RaftError;

fn call(breaker: &mut CircuitBreaker, outcome: Result<&'static str, String>, now_ms: u64) -> Result<&'static str, RaftError> {
    breaker.begin_call(now_ms)?;
    breaker.finish_call(outcome, now_ms)
}

#[test]
fn test_circuit_breaker_basic() {
    let config = CircuitBreakerConfig {
        failure_threshold: 2,
        timeout_ms: 100,
        success_threshold: 1,
        ..Default::default()
    };
    let mut breaker = CircuitBreaker::new(config);

    assert_eq!(breaker.state(), CircuitBreakerState::Closed);

    let result = call(&mut breaker, Ok("success"), 1000);
    assert!(result.is_ok());

    let _ = call(&mut breaker, Err("failure1".to_string()), 1001);
    let _ = call(&mut breaker, Err("failure2".to_string()), 1002);

    assert_eq!(breaker.state(), CircuitBreakerState::Open);

    let result = call(&mut breaker, Ok("success"), 1003);
    assert!(result.is_err());

    let result = call(&mut breaker, Ok("success"), 1002 + 150);
    assert!(result.is_ok());

    assert_eq!(breaker.state(), CircuitBreakerState::Closed);
}

#[test]
fn test_circuit_breaker_manager() {
    let config = CircuitBreakerConfig::default();
    let mut manager = CircuitBreakerManager::new(config);

    let breaker1 = manager.get_breaker("service1");
    let breaker2 = manager.get_breaker("service2");

    assert_ne!(breaker1, breaker2);

    let breaker1_again = manager.get_breaker("service1");
    assert_eq!(breaker1, breaker1_again);

    manager.force_open(breaker1, 0);
    let states = manager.get_all_states();
    let state_of = |name: &str| states.iter().find(|(n, _)| n == name).map(|(_, s)| *s);
    assert_eq!(state_of("service1"), Some(CircuitBreakerState::Open));
    assert_eq!(state_of("service2"), Some(CircuitBreakerState::Closed));
}

#[test]
fn half_open_failure_reopens() {
    let config = CircuitBreakerConfig { failure_threshold: 1, timeout_ms: 10, success_threshold: 2, ..Default::default() };
    let mut breaker = CircuitBreaker::new(config);
    let _ = call(&mut breaker, Err("boom".to_string()), 0);
    assert_eq!(breaker.state(), CircuitBreakerState::Open);
    assert!(breaker.allow_request(20));
    assert_eq!(breaker.state(), CircuitBreakerState::HalfOpen);
    breaker.on_failure(21);
    assert_eq!(breaker.state(), CircuitBreakerState::Open);
}

#[test]
fn rejected_calls_are_counted() {
    let mut breaker = CircuitBreaker::new(CircuitBreakerConfig::default());
    breaker.force_open(0);
    assert!(breaker.begin_call(1).is_err());
    let m = breaker.metrics();
    assert_eq!(m.rejected_requests, 1);
    breaker.force_close();
    assert_eq!(breaker.state(), CircuitBreakerState::Closed);
    assert!(breaker.begin_call(2).is_ok());
}
