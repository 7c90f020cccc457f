use iroh_raft::actor_patterns::{request_error, ConnectionPoolState, PoolRequest, RequestFailure};
use iroh_raft::error::RaftError;

#[test]
fn pool_actor_counts_its_work() {
    let mut pool = ConnectionPoolState::new();
    pool.add_connection(1, "c1", 0);
    pool.add_connection(1, "c1b", 10);
    pool.add_connection(2, "c2", 400_000);
    assert_eq!(pool.get_connection(1), Some(&"c1b"));
    assert_eq!(pool.get_stale_connections(400_011), vec![1]);
    pool.perform_health_check(400_011);
    assert_eq!(pool.get_connection(1), None);
    assert_eq!(pool.remove_connection(2), Some("c2"));
    assert_eq!(pool.remove_connection(2), None);
    let m = pool.get_metrics();
    assert_eq!(m.active_connections, 0);
    assert_eq!(m.total_created, 3);
    assert_eq!(m.total_removed, 1);
    assert_eq!(m.health_check_failures, 1);
}

#[test]
fn failed_requests_have_their_errors() {
    match request_error(PoolRequest::GetMetrics, RequestFailure::TimedOut) {
        RaftError::Timeout { operation, duration_ms } => {
            assert_eq!(operation, "get connection metrics");
            assert_eq!(duration_ms, 100);
        }
        other => panic!("unexpected {:?}", other),
    }
    match request_error(PoolRequest::AddConnection, RequestFailure::ReplyDropped) {
        RaftError::Internal { message } => assert_eq!(message, "Add connection response channel closed"),
        other => panic!("unexpected {:?}", other),
    }
    match request_error(PoolRequest::GetConnection, RequestFailure::ActorClosed) {
        RaftError::Internal { message } => assert_eq!(message, "Connection pool actor is closed"),
        other => panic!("unexpected {:?}", other),
    }
}
