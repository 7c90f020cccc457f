use iroh_raft::test_helpers::{ClusterStatus, NodeStatus};

fn node(id: u64, leader: bool) -> NodeStatus {
    NodeStatus { node_id: id, is_running: true, is_leader: leader, is_isolated: false, current_term: 1, committed_entries_count: 0 }
}

#[test]
fn test_cluster_status_helpers() {
    let mut status = ClusterStatus { total_nodes: 5, active_nodes: 3, leader_id: Some(1), nodes: vec![] };

    assert!(status.has_leader());
    assert!(status.has_majority());

    status.active_nodes = 2;
    assert!(!status.has_majority());
}

#[test]
fn leader_status_is_found_by_id() {
    let status = ClusterStatus {
        total_nodes: 3,
        active_nodes: 2,
        leader_id: Some(2),
        nodes: vec![(1, node(1, false)), (2, node(2, true))],
    };
    assert_eq!(status.leader_status().map(|s| s.node_id), Some(2));
    let no_leader = ClusterStatus { total_nodes: 4, active_nodes: 2, leader_id: None, nodes: vec![] };
    assert!(!no_leader.has_leader());
    assert!(no_leader.leader_status().is_none());
}
