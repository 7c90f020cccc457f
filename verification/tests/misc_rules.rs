use iroh_raft::actor_patterns::{status_request_error, NodeRole, NodeStatus, NodeStatusState, RequestFailure, StatusRequest, StatusUpdate};
use iroh_raft::admin::{ClusterMonitor, HealthChecker, MaintenanceOps};
use iroh_raft::error::RaftError;
use iroh_raft::management::config::ManagementConfigBuilder;
use iroh_raft::management::events::ClusterEvent;
use iroh_raft::management::handlers::{added_member, get_cluster_status, ClusterStatusQuery};
use iroh_raft::management::schemas::{AddMemberRequest, ClusterHealth, NodeRole as SchemaRole, NodeState};
use iroh_raft::node::{KeyValueOp, KeyValueStateMachine};
use iroh_raft::raft::kv_example::{KeyValueStore, KvCommand};
use iroh_raft::raft::proposals::{BatchProposalBuilder, GenericProposal, ProposalMetadata};

fn status() -> NodeStatus {
    NodeStatus {
        node_id: 1,
        role: NodeRole::Follower,
        term: 0,
        leader_id: None,
        last_log_index: 0,
        committed_index: 0,
        applied_index: 0,
        connected_peers: vec![2, 3],
        uptime_seconds: 9,
    }
}

#[test]
fn node_status_updates() {
    let mut s = NodeStatusState::new(status());
    s.apply(StatusUpdate::Role { role: NodeRole::Leader, term: 4, leader_id: Some(1) });
    s.apply(StatusUpdate::Indexes { last_log_index: 10, committed_index: 8, applied_index: 7 });
    let st = s.get_status();
    assert_eq!(st.role, NodeRole::Leader);
    assert_eq!(st.term, 4);
    assert_eq!(st.leader_id, Some(1));
    assert_eq!((st.last_log_index, st.committed_index, st.applied_index), (10, 8, 7));
    assert_eq!(st.connected_peers, vec![2, 3]);
    assert_eq!(st.uptime_seconds, 9);
    match status_request_error(StatusRequest::UpdateRole, RequestFailure::TimedOut) {
        RaftError::Timeout { operation, duration_ms } => {
            assert_eq!(operation, "update node role");
            assert_eq!(duration_ms, 100);
        }
        other => panic!("unexpected {:?}", other),
    }
    match status_request_error(StatusRequest::UpdateIndexes, RequestFailure::ReplyDropped) {
        RaftError::Internal { message } => assert_eq!(message, "Node indexes response channel closed"),
        other => panic!("unexpected {:?}", other),
    }
    match status_request_error(StatusRequest::GetStatus, RequestFailure::ActorClosed) {
        RaftError::Internal { message } => assert_eq!(message, "Node status actor is closed"),
        other => panic!("unexpected {:?}", other),
    }
}

#[test]
fn monitor_keeps_its_parts() {
    let m = ClusterMonitor::with_components(HealthChecker::new(), MaintenanceOps::new());
    let d = ClusterMonitor::new();
    assert_eq!(m.needs_maintenance(10, 10, 10).compact_log, d.needs_maintenance(10, 10, 10).compact_log);
    assert_eq!(m.needs_maintenance(10, 10, 10).take_snapshot, d.needs_maintenance(10, 10, 10).take_snapshot);
}

#[test]
fn management_builder_extras() {
    let c = ManagementConfigBuilder::new().max_request_size(4096).detailed_errors(true).build();
    assert_eq!(c.max_request_size, 4096);
    assert!(c.detailed_errors);
}

#[test]
fn events_and_handler_answers() {
    match ClusterEvent::leader_elected(3, 7, Some(2)) {
        ClusterEvent::LeaderElected { new_leader, term, previous_leader, .. } => {
            assert_eq!((new_leader, term, previous_leader), (3, 7, Some(2)));
        }
        other => panic!("unexpected {:?}", other),
    }
    let s = get_cluster_status(ClusterStatusQuery { include_health: true, ..ClusterStatusQuery::default() });
    assert_eq!(s.leader_id, Some(1));
    assert_eq!(s.term, 42);
    assert_eq!(s.cluster_size, 3);
    assert_eq!(s.state, NodeState::Leader);
    assert_eq!(s.health, ClusterHealth::Healthy);
    let s = get_cluster_status(ClusterStatusQuery::default());
    assert_eq!(s.health, ClusterHealth::Unknown);
    let m = added_member(&AddMemberRequest { node_id: 5, address: "a:5".to_string(), role: SchemaRole::Learner, metadata: vec![] });
    assert_eq!(m.id, 5);
    assert_eq!(m.address, "a:5");
    assert_eq!(m.role, SchemaRole::Learner);
    assert!(!m.online);
}

#[test]
fn state_machine_operations_and_copies() {
    let mut sm = KeyValueStateMachine::new();
    assert_eq!(sm.apply_op(&KeyValueOp::SetValue { key: "k".to_string(), value: "v".to_string() }), b"ok".to_vec());
    assert_eq!(sm.apply_op(&KeyValueOp::Get { key: "k".to_string() }), b"v".to_vec());
    assert_eq!(sm.apply_op(&KeyValueOp::Delete { key: "k".to_string() }), b"deleted".to_vec());
    assert_eq!(sm.apply_op(&KeyValueOp::Delete { key: "k".to_string() }), b"not_found".to_vec());

    let mut kv = KeyValueStore::new();
    kv.apply_command(KvCommand::SetValue { key: "a".to_string(), value: "1".to_string() }).unwrap();
    let copy = kv.get_current_state().duplicate();
    kv.apply_command(KvCommand::SetValue { key: "a".to_string(), value: "2".to_string() }).unwrap();
    assert_eq!(copy.get(&"a".to_string()), Some(&"1".to_string()));
    assert_eq!(kv.get_current_state().get(&"a".to_string()), Some(&"2".to_string()));
}

#[test]
fn proposals_with_metadata_gather_in_order() {
    let meta = ProposalMetadata {
        proposal_id: "p1".to_string(),
        timestamp_ms: 5,
        originator: Some("me".to_string()),
        correlation_id: None,
        priority: 3,
    };
    let p = GenericProposal::with_metadata(10u32, meta);
    assert_eq!(p.metadata.proposal_id, "p1");
    assert_eq!(p.metadata.priority, 3);
    let batch = BatchProposalBuilder::new()
        .add_proposal(p)
        .add_proposal(GenericProposal::new(11u32))
        .build();
    let commands: Vec<u32> = batch.proposals.iter().map(|p| p.command).collect();
    assert_eq!(commands, vec![10, 11]);
}
