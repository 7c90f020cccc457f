use iroh_raft::error::RaftError;
use iroh_raft::timeout_manager::{OperationOutcome, OperationType, TimeoutConfig, TimeoutManager};

#[test]
fn test_timeout_manager_basic() {
    let mut manager = TimeoutManager::new_at(0);

    let result = manager.record_outcome(OperationType::RaftMessage, OperationOutcome::Completed { duration_ms: 3 }, 10);
    assert!(result.is_ok());

    let result = manager.record_outcome(OperationType::RaftMessage, OperationOutcome::TimedOut, 1000);
    assert!(result.is_err());

    let stats = manager.get_stats(OperationType::RaftMessage).unwrap();
    assert!(stats.total_operations >= 2);
    assert!(stats.timeout_count >= 1);
}

#[test]
fn test_retry_with_backoff() {
    let manager = TimeoutManager::new_at(0);
    let op = OperationType::Network;
    let mut attempt_count = 0;
    let mut failures = 0u32;
    let mut delay = manager.initial_retry_delay(op);
    let result = loop {
        attempt_count += 1;
        let outcome: Result<&str, &str> = if attempt_count < 3 { Err("temporary failure") } else { Ok("success") };
        match outcome {
            Ok(v) => break Ok(v),
            Err(e) => {
                failures += 1;
                if !manager.retry_allowed(op, failures) {
                    break Err(e);
                }
                delay = manager.next_retry_delay(op, delay, 0);
            }
        }
    };
    assert!(result.is_ok());
    assert_eq!(attempt_count, 3);
    assert_eq!(delay, 12000);
}

#[test]
fn test_adaptive_timeout() {
    let mut manager = TimeoutManager::new_at(0);
    let mut config = OperationType::RaftMessage.default_config();
    config.base_timeout_ms = 100;
    config.enable_adaptive = true;
    manager.update_config(OperationType::RaftMessage, config);

    for i in 0..5u64 {
        let _ = manager.record_outcome(OperationType::RaftMessage, OperationOutcome::TimedOut, 10 + i);
    }

    let stats = manager.get_stats(OperationType::RaftMessage).unwrap();
    assert!(stats.timeout_count > 0);
}

#[test]
fn default_settings_per_kind() {
    let c = OperationType::ConfigChange.default_config();
    assert_eq!(c.base_timeout_ms, 5000);
    assert_eq!(c.max_timeout_ms, 30000);
    assert_eq!(c.min_timeout_ms, 1000);
    assert_eq!(c.max_retries, 1);
    assert_eq!(c.backoff_multiplier_permille, 2000);
    assert_eq!(TimeoutConfig::default().jitter_factor_permille, 100);
}

#[test]
fn timeouts_raise_the_timeout_after_the_interval() {
    let mut manager = TimeoutManager::new_at(0);
    let op = OperationType::Proposal;
    assert_eq!(manager.get_current_timeout(op), 2000);
    match manager.record_outcome(op, OperationOutcome::TimedOut, 1000) {
        Err(RaftError::Timeout { operation, duration_ms }) => {
            assert_eq!(operation, "Proposal");
            assert_eq!(duration_ms, 2000);
        }
        other => panic!("unexpected {:?}", other),
    }
    assert_eq!(manager.get_current_timeout(op), 2000);
    let _ = manager.record_outcome(op, OperationOutcome::TimedOut, 30_000);
    assert_eq!(manager.get_current_timeout(op), 3000);
    let stats = manager.get_stats(op).unwrap();
    assert_eq!(stats.adjustment_count, 1);
    assert_eq!(stats.current_timeout_ms, 3000);
}

#[test]
fn fast_successes_lower_the_timeout_but_not_below_the_minimum() {
    let mut manager = TimeoutManager::new_at(0);
    let op = OperationType::Storage;
    for t in 0..60u64 {
        let _ = manager.record_outcome(op, OperationOutcome::Completed { duration_ms: 10 }, t);
    }
    let _ = manager.record_outcome(op, OperationOutcome::Completed { duration_ms: 10 }, 40_000);
    assert_eq!(manager.get_current_timeout(op), 800);
    let _ = manager.record_outcome(op, OperationOutcome::Completed { duration_ms: 10 }, 80_000);
    assert_eq!(manager.get_current_timeout(op), 640);
    let mut later = 120_000;
    for _ in 0..10 {
        let _ = manager.record_outcome(op, OperationOutcome::Completed { duration_ms: 10 }, later);
        later += 30_000;
    }
    assert_eq!(manager.get_current_timeout(op), 200);
}

#[test]
fn failed_operation_is_reported_with_its_message() {
    let mut manager = TimeoutManager::new_at(0);
    match manager.record_outcome(
        OperationType::Network,
        OperationOutcome::Failed { duration_ms: 4, message: "refused".to_string() },
        1,
    ) {
        Err(RaftError::Internal { message }) => assert_eq!(message, "Operation failed: refused"),
        other => panic!("unexpected {:?}", other),
    }
    let stats = manager.get_stats(OperationType::Network).unwrap();
    assert_eq!(stats.success_count, 1);
    assert_eq!(stats.avg_duration_ms, 4);
    assert_eq!(manager.get_all_stats().len(), 7);
}

#[test]
fn backoff_is_capped() {
    let manager = TimeoutManager::new_at(0);
    let op = OperationType::HealthCheck;
    assert_eq!(manager.next_retry_delay(op, 1000, 50), 2050);
    assert_eq!(manager.next_retry_delay(op, 4000, 0), 5000);
}
