use iroh_raft::error::RaftError;
use iroh_raft::management::handlers::{
    add_member, cluster_status_at, get_metrics, health_check, health_check_at, readiness_check,
    readiness_check_at, remove_member, transfer_leadership, ApiError, AppState, ClusterHandle,
    ClusterStatusQuery,
};
use iroh_raft::management::schemas::{
    AddMemberRequest, ClusterHealth, HealthStatus, NodeRole, NodeState, RemoveMemberRequest,
    TransferLeadershipRequest,
};

fn state() -> AppState {
    AppState { cluster: ClusterHandle::new(), start_time_ms: 0 }
}

#[test]
fn test_health_endpoint() {
    let (status, _body) = health_check(&state());
    assert_eq!(status, 200);
}

#[test]
fn test_readiness_endpoint() {
    let (status, _body) = readiness_check();
    assert_eq!(status, 200);
}

#[test]
fn test_cluster_status_endpoint() {
    let status = cluster_status_at(ClusterStatusQuery::default(), 5);
    assert_eq!(status.leader_id, Some(1));
    assert_eq!(status.term, 42);
    assert_eq!(status.cluster_size, 3);
    assert_eq!(status.state, NodeState::Leader);
    assert_eq!(status.last_log_index, 1000);
    assert_eq!(status.health, ClusterHealth::Unknown);
    let with_health = cluster_status_at(ClusterStatusQuery { detailed: false, include_health: true }, 5);
    assert_eq!(with_health.health, ClusterHealth::Healthy);
    assert_eq!(with_health.members[2].address, "127.0.0.1:8082");
}

#[test]
fn health_answer_lists_three_checks() {
    let (code, body) = health_check_at(1_000, 61_000);
    assert_eq!(code, 200);
    assert_eq!(body.uptime_ms, 60_000);
    assert_eq!(body.status, HealthStatus::Healthy);
    let names: Vec<&str> = body.checks.iter().map(|c| c.name.as_str()).collect();
    assert_eq!(names, vec!["storage", "raft", "transport"]);
    assert_eq!(body.checks[0].duration_ms, 5);
    let (_, early) = health_check_at(5_000, 1_000);
    assert_eq!(early.uptime_ms, 0);
    let (code, ready) = readiness_check_at(9);
    assert_eq!(code, 200);
    assert!(ready.ready);
    assert_eq!(ready.checks.len(), 3);
}

#[test]
fn member_requests_are_validated() {
    let bad = AddMemberRequest { node_id: 0, address: "a".to_string(), role: NodeRole::Voter, metadata: vec![] };
    match add_member(&bad) {
        Err(ApiError::ValidationError(m)) => assert_eq!(m, "Node ID must be greater than 0"),
        other => panic!("unexpected {:?}", other),
    }
    let empty = AddMemberRequest { node_id: 4, address: String::new(), role: NodeRole::Voter, metadata: vec![] };
    match add_member(&empty) {
        Err(ApiError::ValidationError(m)) => assert_eq!(m, "Address cannot be empty"),
        other => panic!("unexpected {:?}", other),
    }
    let good = AddMemberRequest { node_id: 4, address: "h:1".to_string(), role: NodeRole::Learner, metadata: vec![] };
    let resp = add_member(&good).unwrap();
    assert!(resp.success);
    assert_eq!(resp.message, "Member 4 added successfully");
    let removed = remove_member(9, Some(RemoveMemberRequest { node_id: 9, force: true })).unwrap();
    assert_eq!(removed.message, "Member 9 removed successfully");
    assert!(remove_member(0, None).is_err());
    let moved = transfer_leadership(&TransferLeadershipRequest { target_node_id: 2, timeout_ms: 10 }).unwrap();
    assert_eq!(moved.message, "Leadership transfer to node 2 initiated");
    assert!(transfer_leadership(&TransferLeadershipRequest { target_node_id: 0, timeout_ms: 10 }).is_err());
}

#[test]
fn errors_are_answered_by_category() {
    let v = ApiError::ValidationError("bad".to_string()).response_parts();
    assert_eq!(v, (400, "validation_error".to_string(), "bad".to_string()));
    let t = ApiError::RaftError(RaftError::transport_error("down")).response_parts();
    assert_eq!(t, (503, "transport".to_string(), "P2P transport error: down".to_string()));
    let n = ApiError::RaftError(RaftError::NotLeader { operation: "x".to_string(), current_leader: None }).response_parts();
    assert_eq!(n.0, 500);
    let c = ApiError::RaftError(RaftError::Consensus { operation: "not leader".to_string(), details: "d".to_string() })
        .response_parts();
    assert_eq!(c.0, 409);
    let i = ApiError::from(RaftError::InvalidInput { parameter: "p".to_string(), message: "m".to_string() });
    let (code, body) = i.error_response_at(77);
    assert_eq!(code, 400);
    assert_eq!(body.error, "validation");
    assert_eq!(body.timestamp_ms, 77);
}

#[test]
fn metrics_answer_is_prometheus_text() {
    let (code, content_type, text) = get_metrics();
    assert_eq!(code, 200);
    assert_eq!(content_type, "text/plain; version=0.0.4");
    assert!(text.contains("raft_term 42\n"));
    assert!(text.ends_with("management_api_requests_total{method=\"GET\",path=\"/v1/metrics\"} 1\n"));
}
