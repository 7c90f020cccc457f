use iroh_raft::management::discovery::{ClusterDiscovery, DiscoveryConfig, DiscoveryMessage};
use iroh_raft::management::{ClusterMember, HealthStatus, MemberRole};

fn member(id: u64, addr: &str, seen: u64) -> ClusterMember {
    ClusterMember {
        node_id: id,
        address: addr.to_string(),
        role: MemberRole::Voter,
        health: HealthStatus::Healthy,
        last_seen_ms: seen,
        version: "0.1.0".to_string(),
    }
}

fn members_of(d: &ClusterDiscovery, cluster: &str) -> Vec<ClusterMember> {
    d.get_known_clusters()
        .into_iter()
        .find(|c| c.cluster_id == cluster)
        .map(|c| c.members)
        .unwrap_or_default()
}

#[test]
fn discovery_defaults() {
    let c = DiscoveryConfig::default();
    assert!(c.enabled);
    assert_eq!(c.discovery_timeout_ms, 30_000);
    assert_eq!(c.heartbeat_interval_ms, 10_000);
    assert!(c.bootstrap_nodes.is_empty());
    assert_eq!(c.member_cache_ttl_ms, 300_000);
    let d = ClusterDiscovery::new().unwrap();
    assert!(d.get_known_clusters().is_empty());
    assert!(d.heartbeat_message(5).is_none());
}

#[test]
fn active_discovery_reports_three_local_voters_and_is_cached() {
    let mut d = ClusterDiscovery::new().unwrap();
    let info = d.perform_cluster_discovery("c1", 1_000).unwrap();
    assert_eq!(info.cluster_id, "c1");
    assert_eq!(info.leader, Some(1));
    assert_eq!(info.version, "0.1.0");
    assert_eq!(info.discovered_at_ms, 1_000);
    let addrs: Vec<&str> = info.members.iter().map(|m| m.address.as_str()).collect();
    assert_eq!(addrs, vec!["127.0.0.1:8080", "127.0.0.1:8081", "127.0.0.1:8082"]);
    assert_eq!(d.get_known_clusters().len(), 1);
    // Within a minute the cached entry is reused; after it, discovery runs again.
    let again = d.discover_cluster_at("c1", 30_000).unwrap();
    assert_eq!(again.discovered_at_ms, 1_000);
    let later = d.discover_cluster_at("c1", 61_000).unwrap();
    assert_eq!(later.discovered_at_ms, 61_000);
    assert_eq!(d.get_known_clusters().len(), 1);
    d.clear_cache();
    assert!(d.get_known_clusters().is_empty());
}

#[test]
fn announcements_heartbeats_and_departures_update_members() {
    let mut d = ClusterDiscovery::new_for_node(9, "c".to_string()).unwrap();
    let ann = d
        .announce_presence(4, "c".to_string(), MemberRole::Learner, vec!["10.0.0.4:1".to_string()], HealthStatus::Degraded, None)
        .unwrap();
    assert!(d.process_discovery_message_at(ann, 100).unwrap().is_none());
    let ms = members_of(&d, "c");
    assert_eq!(ms.len(), 1);
    assert_eq!(ms[0].node_id, 4);
    assert_eq!(ms[0].address, "10.0.0.4:1");
    assert_eq!(ms[0].role, MemberRole::Learner);
    assert_eq!(ms[0].health, HealthStatus::Degraded);
    assert_eq!(ms[0].last_seen_ms, 100);

    // An announcement without endpoints keeps the address.
    let ann2 = DiscoveryMessage::Announce {
        node_id: 4,
        cluster_id: "c".to_string(),
        role: MemberRole::Voter,
        version: "x".to_string(),
        endpoints: vec![],
        health: HealthStatus::Healthy,
        raft_state: None,
    };
    d.process_discovery_message_at(ann2, 200).unwrap();
    let ms = members_of(&d, "c");
    assert_eq!(ms[0].address, "10.0.0.4:1");
    assert_eq!(ms[0].role, MemberRole::Voter);

    let hb = DiscoveryMessage::Heartbeat { node_id: 4, cluster_id: "c".to_string(), health: HealthStatus::Unhealthy, timestamp_ms: 1 };
    d.process_discovery_message_at(hb, 300).unwrap();
    let ms = members_of(&d, "c");
    assert_eq!(ms[0].health, HealthStatus::Unhealthy);
    assert_eq!(ms[0].last_seen_ms, 300);

    let dep = DiscoveryMessage::Departure { node_id: 4, cluster_id: "c".to_string(), reason: "bye".to_string() };
    d.process_discovery_message_at(dep, 400).unwrap();
    assert!(members_of(&d, "c").is_empty());
}

#[test]
fn unknown_announcer_without_endpoint_is_unknown_address() {
    let mut d = ClusterDiscovery::new().unwrap();
    let ann = DiscoveryMessage::Announce {
        node_id: 2,
        cluster_id: "z".to_string(),
        role: MemberRole::Observer,
        version: "0.0.9".to_string(),
        endpoints: vec![],
        health: HealthStatus::Unknown,
        raft_state: None,
    };
    d.process_discovery_message_at(ann, 5).unwrap();
    let ms = members_of(&d, "z");
    assert_eq!(ms.len(), 1);
    assert_eq!(ms[0].address, "unknown");
    assert_eq!(ms[0].version, "0.1.0");
}

#[test]
fn queries_and_bootstrap_requests_are_answered_from_the_cache() {
    let mut d = ClusterDiscovery::new_for_node(7, "home".to_string()).unwrap();
    let q = DiscoveryMessage::QueryCluster { cluster_id: "home".to_string(), requesting_node: 1 };
    assert!(d.process_discovery_message_at(q, 0).unwrap().is_none());

    let info = DiscoveryMessage::ClusterInfo {
        cluster_id: "home".to_string(),
        members: vec![member(1, "a", 0), member(2, "b", 0)],
        leader: Some(2),
        responding_node: 1,
    };
    d.process_discovery_message_at(info, 10).unwrap();

    let q = DiscoveryMessage::QueryCluster { cluster_id: "home".to_string(), requesting_node: 1 };
    match d.process_discovery_message_at(q, 20).unwrap() {
        Some(DiscoveryMessage::ClusterInfo { cluster_id, members, leader, responding_node }) => {
            assert_eq!(cluster_id, "home");
            assert_eq!(members.len(), 2);
            assert_eq!(leader, Some(2));
            assert_eq!(responding_node, 7);
        }
        other => panic!("unexpected {:?}", other),
    }

    let b = DiscoveryMessage::BootstrapRequest { node_id: 3, cluster_id: "home".to_string(), endpoints: vec![], version: "0.1.0".to_string() };
    match d.process_discovery_message_at(b, 30).unwrap() {
        Some(DiscoveryMessage::BootstrapResponse { success, initial_members, leader, error }) => {
            assert!(success);
            assert_eq!(initial_members.unwrap().len(), 2);
            assert_eq!(leader, Some(2));
            assert!(error.is_none());
        }
        other => panic!("unexpected {:?}", other),
    }
    let b = DiscoveryMessage::BootstrapRequest { node_id: 3, cluster_id: "other".to_string(), endpoints: vec![], version: "0.1.0".to_string() };
    assert!(d.process_discovery_message_at(b, 30).unwrap().is_none());

    match d.heartbeat_message(77) {
        Some(DiscoveryMessage::Heartbeat { node_id, cluster_id, health, timestamp_ms }) => {
            assert_eq!(node_id, 7);
            assert_eq!(cluster_id, "home");
            assert_eq!(health, HealthStatus::Healthy);
            assert_eq!(timestamp_ms, 77);
        }
        other => panic!("unexpected {:?}", other),
    }
    let r = d.request_bootstrap(3, "home".to_string(), vec![]).unwrap();
    assert!(r.success && r.initial_members.is_none() && r.leader.is_none() && r.error.is_none());
}

#[test]
fn stale_members_are_dropped() {
    let mut d = ClusterDiscovery::new().unwrap();
    let info = DiscoveryMessage::ClusterInfo {
        cluster_id: "s".to_string(),
        members: vec![member(1, "a", 1_000), member(2, "b", 9_500), member(3, "c", 20_000)],
        leader: None,
        responding_node: 1,
    };
    d.process_discovery_message_at(info, 0).unwrap();
    d.cleanup_stale_members(1_000, 10_000).unwrap();
    let ids: Vec<u64> = members_of(&d, "s").iter().map(|m| m.node_id).collect();
    assert_eq!(ids, vec![2, 3]);
}

#[test]
fn discovery_by_the_clock_caches_its_answer() {
    let mut d = ClusterDiscovery::new().unwrap();
    let first = d.discover_cluster("live").unwrap();
    assert_eq!(first.members.len(), 3);
    let again = d.discover_cluster("live").unwrap();
    assert_eq!(again.discovered_at_ms, first.discovered_at_ms);
    assert_eq!(d.get_known_clusters().len(), 1);
}
