use iroh_raft::error::RaftError;
use iroh_raft::management::client::{
    backup_list_result, backup_operation_result, cluster_status_result, configuration_result, health_result,
    leadership_result, member_key, member_operation_result, metrics_result, no_endpoint, request_timed_out,
    request_timeout, success_result, RequestRouter,
};
use iroh_raft::management::{
    BackupListResponse, BackupOperationResponse, ClusterConfig, ClusterHealthStatus, ClusterStatusResponse,
    ConfigurationResponse, HealthResponse, HealthStatus, LeadershipResponse, ManagementOperation, ManagementResponse,
    MemberOperationResponse, MetricsResponse, RaftState,
};

#[test]
fn answers_of_the_expected_kind_pass() {
    let ok = ManagementResponse::MemberOperation(MemberOperationResponse { success: true, member_id: Some(3), error: None });
    let r = member_operation_result(ok).unwrap();
    assert_eq!(r.member_id, Some(3));
    match member_operation_result(ManagementResponse::Error { message: "denied".to_string() }) {
        Err(RaftError::Internal { message }) => assert_eq!(message, "denied"),
        other => panic!("unexpected {:?}", other),
    }
    match cluster_status_result(ManagementResponse::Success) {
        Err(RaftError::Internal { message }) => assert_eq!(message, "Unexpected response type"),
        other => panic!("unexpected {:?}", other),
    }
    assert!(success_result(ManagementResponse::Success).is_ok());
}

#[test]
fn request_timeouts_by_operation() {
    assert_eq!(request_timeout(&ManagementOperation::TransferLeadership { target_node: None }, 30_000), 60_000);
    assert_eq!(request_timeout(&ManagementOperation::GetClusterStatus, 1234), 1234);
}

#[test]
fn router_learns_members_and_forgets_a_failed_leader() {
    let mut router = RequestRouter::new().with_timeout(10);
    router.add_member(2);
    router.add_member(1);
    router.add_member(2);
    assert_eq!(router.fallback_order(), vec![2, 1]);
    router.current_leader = Some(2);
    router.leader_failed();
    assert_eq!(router.current_leader, None);
    match router.no_member_answered() {
        RaftError::Internal { message } => assert_eq!(message, "No available cluster members"),
        other => panic!("unexpected {:?}", other),
    }
}

#[test]
fn client_errors_name_the_node() {
    match request_timed_out(5) {
        RaftError::Internal { message } => assert_eq!(message, "Request to node 5 timed out"),
        other => panic!("unexpected {:?}", other),
    }
    match no_endpoint(12) {
        RaftError::Internal { message } => assert_eq!(message, "No endpoint found for node 12"),
        other => panic!("unexpected {:?}", other),
    }
    let key = member_key(0x0102_0304_0506_0708);
    assert_eq!(&key[..8], &[1, 2, 3, 4, 5, 6, 7, 8]);
    assert!(key[8..].iter().all(|b| *b == 0));
}

fn status_answer(leader: Option<u64>) -> ManagementResponse {
    ManagementResponse::ClusterStatus(ClusterStatusResponse {
        cluster_id: "c".to_string(),
        leader,
        term: 3,
        members: vec![],
        health: ClusterHealthStatus {
            status: HealthStatus::Healthy,
            healthy_members: 1,
            total_members: 1,
            quorum_available: true,
            leader_available: leader.is_some(),
        },
        raft_state: RaftState { term: 3, vote: None, leader, commit_index: 0, last_applied: 0, log_length: 0 },
    })
}

#[test]
fn answering_members_reveal_the_leader() {
    let mut router = RequestRouter::new();
    router.add_member(1);
    router.member_answered(&status_answer(Some(4)));
    assert_eq!(router.current_leader, Some(4));
    router.member_answered(&status_answer(None));
    assert_eq!(router.current_leader, Some(4));
    router.member_answered(&ManagementResponse::Success);
    assert_eq!(router.current_leader, Some(4));
}

#[test]
fn each_answer_kind_has_its_result() {
    let l = LeadershipResponse { success: true, new_leader: Some(2), transfer_duration_ms: Some(5), error: None };
    assert_eq!(leadership_result(ManagementResponse::Leadership(l)).unwrap().new_leader, Some(2));
    let c = ConfigurationResponse {
        config: ClusterConfig {
            cluster_id: "c".to_string(),
            heartbeat_interval_ms: 1,
            election_timeout_ms: 2,
            max_log_entries: 3,
            snapshot_threshold: 4,
            compaction_threshold: 5,
        },
        version: 9,
    };
    assert_eq!(configuration_result(ManagementResponse::Configuration(c)).unwrap().version, 9);
    let m = MetricsResponse { metrics: vec![("a".to_string(), 1.5f64.to_bits())], timestamp_ms: 8 };
    assert_eq!(metrics_result(ManagementResponse::Metrics(m)).unwrap().metrics.len(), 1);
    let h = HealthResponse {
        overall_health: HealthStatus::Degraded,
        cluster_health: ClusterHealthStatus {
            status: HealthStatus::Degraded,
            healthy_members: 1,
            total_members: 2,
            quorum_available: false,
            leader_available: true,
        },
        node_health: vec![(1, HealthStatus::Healthy)],
    };
    assert_eq!(health_result(ManagementResponse::Health(h)).unwrap().overall_health, HealthStatus::Degraded);
    let b = BackupOperationResponse { success: true, backup_id: Some("b1".to_string()), size_bytes: Some(10), error: None };
    assert_eq!(backup_operation_result(ManagementResponse::BackupOperation(b)).unwrap().backup_id.as_deref(), Some("b1"));
    let list = BackupListResponse { backups: vec![] };
    assert!(backup_list_result(ManagementResponse::BackupList(list)).unwrap().backups.is_empty());
    for r in [
        leadership_result(ManagementResponse::Success).map(|_| ()),
        configuration_result(ManagementResponse::Success).map(|_| ()),
        metrics_result(ManagementResponse::Success).map(|_| ()),
        health_result(ManagementResponse::Success).map(|_| ()),
        backup_operation_result(ManagementResponse::Success).map(|_| ()),
        backup_list_result(ManagementResponse::Error { message: "nope".to_string() }).map(|_| ()),
    ] {
        match r {
            Err(RaftError::Internal { message }) => assert!(message == "Unexpected response type" || message == "nope"),
            other => panic!("unexpected {:?}", other),
        }
    }
}
