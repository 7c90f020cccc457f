use iroh_raft::timeout_manager::{OperationOutcome, OperationType, TimeoutManager, TimeoutStats};

#[test]
fn statistics_counters() {
    let mut s = TimeoutStats::default();
    assert!(!s.timeout_rate_above_tenth());
    assert!(s.timeout_rate_below_fiftieth());
    assert_eq!(s.get_avg_duration(), 0);
    s.record_success(10);
    s.record_success(20);
    assert_eq!(s.total_operations, 2);
    assert_eq!(s.success_count, 2);
    assert_eq!(s.get_avg_duration(), 15);
    s.record_timeout();
    assert_eq!(s.timeout_count, 1);
    assert!(s.timeout_rate_above_tenth());
    assert!(!s.timeout_rate_below_fiftieth());
    s.record_adjustment(900);
    assert_eq!(s.current_timeout_ms, 900);
    assert_eq!(s.adjustment_count, 1);
    let mut w = TimeoutStats { total_operations: u64::MAX, ..TimeoutStats::default() };
    w.record_timeout();
    assert_eq!(w.total_operations, 0);
}

#[test]
fn timeouts_grow_after_many_time_outs_at_most_every_thirty_seconds() {
    let mut m = TimeoutManager::new_at(0);
    let op = OperationType::RaftMessage;
    let _ = m.record_outcome(op, OperationOutcome::TimedOut, 100);
    assert_eq!(m.get_current_timeout(op), 500);
    m.adjust_timeout_if_needed(op, 10_000);
    assert_eq!(m.get_current_timeout(op), 500);
    m.adjust_timeout_if_needed(op, 30_000);
    assert_eq!(m.get_current_timeout(op), 750);
    m.adjust_timeout_if_needed(op, 40_000);
    assert_eq!(m.get_current_timeout(op), 750);
    m.adjust_timeout_if_needed(op, 60_000);
    assert_eq!(m.get_current_timeout(op), 1125);
    for k in 3..12u64 {
        m.adjust_timeout_if_needed(op, k * 30_000);
    }
    assert_eq!(m.get_current_timeout(op), 5000);
    let s = m.get_stats(op).unwrap();
    assert!(s.adjustment_count >= 3);
    // Other kinds are untouched.
    assert_eq!(m.get_current_timeout(OperationType::Storage), 1000);
}

#[test]
fn timeouts_shrink_when_operations_are_quick() {
    let mut m = TimeoutManager::new_at(0);
    let op = OperationType::Proposal;
    for _ in 0..100 {
        m.record_outcome(op, OperationOutcome::Completed { duration_ms: 100 }, 1).unwrap();
    }
    m.adjust_timeout_if_needed(op, 30_000);
    assert_eq!(m.get_current_timeout(op), 1600);
    let all = m.get_all_stats();
    assert_eq!(all.len(), 7);
    let (_, snap) = all.iter().find(|(o, _)| *o == op).unwrap();
    assert_eq!(snap.success_count, 100);
    assert_eq!(snap.avg_duration_ms, 100);
    assert_eq!(snap.current_timeout_ms, 1600);
}
