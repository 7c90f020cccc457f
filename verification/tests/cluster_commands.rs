use iroh_raft::cluster::{
    cluster_node_id, command_channel_closed, command_reply, response_channel_closed, ClusterCommandKind,
    ClusterInfo, ClusterReply, ClusterStatus, Health, HealthStatus, MemberConfig, NodeRole,
};
use iroh_raft::config::Config;
use iroh_raft::error::RaftError;

fn feature_of(r: ClusterReply) -> String {
    match r {
        ClusterReply::Failed(RaftError::NotImplemented { feature }) => feature,
        other => panic!("expected a not-implemented failure, got {:?}", other),
    }
}

#[test]
fn changing_commands_are_not_implemented() {
    let member = MemberConfig { node_id: 4, address: "a".to_string(), metadata: None };
    assert_eq!(feature_of(command_reply(&ClusterCommandKind::Propose, 1, 0)), "cluster proposals");
    assert_eq!(feature_of(command_reply(&ClusterCommandKind::Query, 1, 0)), "cluster queries");
    assert_eq!(feature_of(command_reply(&ClusterCommandKind::AddMember(member), 1, 0)), "add member");
    assert_eq!(feature_of(command_reply(&ClusterCommandKind::RemoveMember(2), 1, 0)), "remove member");
    assert_eq!(feature_of(command_reply(&ClusterCommandKind::TransferLeadership(2), 1, 0)), "transfer leadership");
    assert_eq!(feature_of(command_reply(&ClusterCommandKind::TakeSnapshot, 1, 0)), "take snapshot");
    assert_eq!(feature_of(command_reply(&ClusterCommandKind::CompactLog(10), 1, 0)), "compact log");
}

#[test]
fn status_health_and_info_replies() {
    match command_reply(&ClusterCommandKind::GetStatus, 1, 1234) {
        ClusterReply::Status(s) => {
            assert_eq!(s.node_id, 1);
            assert_eq!(s.role, NodeRole::Follower);
            assert_eq!(s.term, 0);
            assert!(s.members.is_empty());
            assert!(s.leader_id.is_none());
            assert_eq!(s.health.overall, Health::Healthy);
            assert_eq!(s.health.last_check_ms, 1234);
            assert_eq!(s.metrics.total_proposals, 0);
        }
        other => panic!("unexpected {:?}", other),
    }
    match command_reply(&ClusterCommandKind::HealthCheck, 1, 9) {
        ClusterReply::Health(h) => {
            assert_eq!(h.overall, Health::Healthy);
            assert!(h.components.is_empty());
            assert_eq!(h.last_check_ms, 9);
        }
        other => panic!("unexpected {:?}", other),
    }
    match command_reply(&ClusterCommandKind::GetClusterInfo, 1, 9) {
        ClusterReply::Info(i) => {
            assert!(i.config.name.is_none());
            assert_eq!(i.config.node_count, 0);
            assert!(i.membership.members.is_empty());
            assert!(i.membership.leader.is_none());
            assert_eq!(i.statistics.total_operations, 0);
        }
        other => panic!("unexpected {:?}", other),
    }
    let d = ClusterInfo::default();
    assert_eq!(d.config.heartbeat_interval_ms, 0);
}

#[test]
fn unreachable_status_is_unhealthy() {
    let s = ClusterStatus::unreachable(5, 77);
    assert_eq!(s.node_id, 5);
    assert_eq!(s.health.overall, Health::Unhealthy);
    assert_eq!(s.health.last_check_ms, 77);
    let s = ClusterStatus::initial(3, Health::Degraded, 1);
    assert_eq!(s.health.overall, Health::Degraded);
    let h = HealthStatus::overall_only(Health::Unhealthy, 2);
    assert!(h.components.is_empty());
}

#[test]
fn node_id_comes_from_configuration() {
    let mut c = Config::default();
    c.node.id = None;
    match cluster_node_id(&c) {
        Err(RaftError::MissingConfiguration { parameter, component }) => {
            assert_eq!(parameter, "node_id");
            assert_eq!(component, "cluster");
        }
        other => panic!("unexpected {:?}", other),
    }
    c.node.id = Some(8);
    assert_eq!(cluster_node_id(&c).unwrap(), 8);
}

#[test]
fn channel_errors() {
    match command_channel_closed() {
        RaftError::ServiceUnavailable { service, reason } => {
            assert_eq!(service, "cluster");
            assert_eq!(reason, "cluster command channel closed");
        }
        other => panic!("unexpected {:?}", other),
    }
    match response_channel_closed("proposal") {
        RaftError::Internal { message } => assert_eq!(message, "proposal response channel closed"),
        other => panic!("unexpected {:?}", other),
    }
}

#[test]
fn status_reply_names_the_configured_node() {
    match command_reply(&ClusterCommandKind::GetStatus, 7, 5) {
        ClusterReply::Status(s) => assert_eq!(s.node_id, 7),
        other => panic!("unexpected {:?}", other),
    }
}
