use iroh_raft::management::events::{ClusterEvent, EventFilter, EventHistory};
use iroh_raft::management::{HealthStatus, MemberRole};

fn added(id: u64, t: u64) -> ClusterEvent {
    ClusterEvent::MemberAdded { node_id: id, role: MemberRole::Voter, address: "x".to_string(), timestamp_ms: t }
}

#[test]
fn filters_select_by_type_node_and_time() {
    let all = EventFilter::default();
    assert!(all.matches(&added(1, 10)));
    let f = EventFilter { event_types: vec!["member_added".to_string()], node_ids: vec![2], since_ms: Some(5), until_ms: Some(20) };
    assert!(f.matches(&added(2, 10)));
    assert!(!f.matches(&added(1, 10)));
    assert!(!f.matches(&added(2, 30)));
    let other = ClusterEvent::LeaderElected { new_leader: 2, term: 1, previous_leader: None, timestamp_ms: 10 };
    assert!(!f.matches(&other));
    assert_eq!(added(3, 4).event_type(), "member_added");
    assert_eq!(added(3, 4).node_id(), Some(3));
    assert_eq!(added(3, 4).timestamp(), 4);
}

#[test]
fn history_keeps_the_newest_events() {
    let mut h = EventHistory::new(2);
    h.add_event(added(1, 1));
    h.add_event(added(2, 2));
    h.add_event(added(3, 3));
    assert_eq!(h.event_count(), 2);
    let recent = h.recent_events(1);
    assert_eq!(recent.len(), 1);
    assert_eq!(recent[0].node_id(), Some(3));
    let picked = h.query(&EventFilter { event_types: vec![], node_ids: vec![2], since_ms: None, until_ms: None });
    assert_eq!(picked.len(), 1);
    h.clear();
    assert_eq!(h.event_count(), 0);
    let e = ClusterEvent::health_changed(4, HealthStatus::Healthy, HealthStatus::Degraded);
    assert_eq!(e.node_id(), Some(4));
}
