use iroh_raft::backpressure::{
    aggregate_metrics, per_priority_capacity, recv_error, select_priority, send_error, BackpressureMetrics,
    Priority, RecvFailure, SendFailure,
};
use iroh_raft::error::RaftError;

#[test]
fn backpressure_test_priority_ordering() {
    let first = select_priority(true, true, true, true);
    assert_eq!(first, Some(Priority::Critical));
    let second = select_priority(false, true, true, true);
    assert_eq!(second, Some(Priority::High));
    assert_eq!(select_priority(false, false, false, true), Some(Priority::Low));
    assert_eq!(select_priority(false, false, false, false), None);
    assert!(Priority::Low.level() < Priority::Normal.level());
    assert!(Priority::High.level() < Priority::Critical.level());
}

#[test]
fn latency_average_moves_by_an_eighth() {
    let mut m = BackpressureMetrics::default();
    m.record_latency(80);
    assert_eq!(m.get_snapshot().avg_latency_ms, 80);
    m.record_latency(160);
    assert_eq!(m.get_snapshot().avg_latency_ms, (80 * 7 + 160) / 8);
}

#[test]
fn pending_and_counters() {
    let mut m = BackpressureMetrics::default();
    m.record_pending(3);
    m.record_pending(1);
    m.record_sent();
    m.record_received();
    m.record_dropped();
    m.record_timeout();
    let s = m.get_snapshot();
    assert_eq!(s.max_pending_reached, 3);
    assert_eq!(s.current_pending, usize::MAX);
    assert_eq!(s.total_sent, 1);
    assert_eq!(s.total_received, 1);
    assert_eq!(s.total_dropped, 1);
    assert_eq!(s.total_timeouts, 1);
    assert_eq!(per_priority_capacity(10), 2);
}

#[test]
fn aggregate_sums_and_takes_the_largest_peak() {
    let mut a = BackpressureMetrics::default();
    a.record_sent();
    a.record_pending(4);
    let mut b = BackpressureMetrics::default();
    b.record_sent();
    b.record_sent();
    b.record_pending(2);
    let total = aggregate_metrics(&vec![a.get_snapshot(), b.get_snapshot()]);
    assert_eq!(total.total_sent, 3);
    assert_eq!(total.current_pending, 6);
    assert_eq!(total.max_pending_reached, 4);
}

#[test]
fn send_and_receive_failures_have_their_errors() {
    match send_error(SendFailure::PermitTimeout, 100) {
        RaftError::Timeout { operation, duration_ms } => {
            assert_eq!(operation, "acquire send permit");
            assert_eq!(duration_ms, 100);
        }
        e => panic!("unexpected {:?}", e),
    }
    match send_error(SendFailure::ChannelFull, 5) {
        RaftError::Internal { message } => assert_eq!(message, "Channel full"),
        e => panic!("unexpected {:?}", e),
    }
    match recv_error(RecvFailure::Disconnected) {
        RaftError::Internal { message } => assert_eq!(message, "Channel disconnected"),
        e => panic!("unexpected {:?}", e),
    }
}
