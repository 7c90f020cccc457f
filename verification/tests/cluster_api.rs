use iroh_raft::cluster_api::{CheckStatus, ClusterBuilder, HealthStatus, NodeRole, NodeStatus};

#[test]
fn test_node_management() {
    let mut cluster = ClusterBuilder::new(1)
        .bind_address("127.0.0.1:0".to_string())
        .build()
        .expect("Failed to build cluster");

    let result = cluster.add_node(2, "127.0.0.1:8081".to_string());
    assert!(result.success);
    assert_eq!(result.message, "Node 2 added successfully");
    assert_eq!(result.operation_id.len(), 36);

    assert_eq!(cluster.status.nodes.len(), 2);

    let result = cluster.remove_node(2);
    assert!(result.success);

    assert_eq!(cluster.status.nodes.len(), 1);
}

#[test]
fn built_cluster_starts_with_itself() {
    let mut cluster = ClusterBuilder::new(1)
        .bind_address("127.0.0.1:0".to_string())
        .data_dir("/tmp/test-cluster".to_string())
        .debug(true)
        .build()
        .expect("Failed to build cluster");
    assert_eq!(cluster.status.nodes.len(), 1);
    assert_eq!(cluster.status.nodes[0].id, 1);
    assert_eq!(cluster.status.cluster_id.len(), 36);
    let health = cluster.health();
    assert_eq!(health.status, HealthStatus::Healthy);
    let moved = cluster.transfer_leadership(3);
    assert_eq!(moved.message, "Leadership transfer to node 3 initiated");
}

#[test]
fn invalid_builder_settings_are_refused() {
    let r = ClusterBuilder::new(1).election_timeout(100).heartbeat_interval(500).build();
    assert!(r.is_err());
}

#[test]
fn builder_options_reach_the_configuration() {
    let cluster = ClusterBuilder::new(7)
        .bind_address("127.0.0.1:9000".to_string())
        .join_cluster(vec!["10.0.0.2:1".to_string()])
        .max_log_entries(1234)
        .enable_management_api("127.0.0.1:8080".to_string())
        .enable_tracing("http://otel:4317".to_string())
        .tracing_sample_rate(0.25f64.to_bits())
        .build_at(5_000, "cid".to_string())
        .expect("valid settings");
    assert_eq!(cluster.node_id, 7);
    assert_eq!(cluster.config.transport.peers, vec!["10.0.0.2:1".to_string()]);
    assert_eq!(cluster.config.raft.max_uncommitted_entries, 1234);
    assert_eq!(cluster.management_api_addr.as_deref(), Some("127.0.0.1:8080"));
    assert!(cluster.config.observability.tracing.enabled);
    assert_eq!(cluster.config.observability.tracing.otlp_endpoint.as_deref(), Some("http://otel:4317"));
    assert_eq!(f64::from_bits(cluster.config.observability.tracing.sample_rate_bits), 0.25);
    assert_eq!(cluster.status.cluster_id, "cid");
    assert_eq!(cluster.status.last_updated_ms, 5_000);
    assert_eq!(cluster.status.nodes.len(), 1);
    assert_eq!(cluster.status.nodes[0].address, "127.0.0.1:9000");
    assert_eq!(cluster.status.nodes[0].role, NodeRole::Follower);
    assert_eq!(cluster.status.nodes[0].status, NodeStatus::Online);
    assert_eq!(cluster.status.nodes[0].last_contact_ms, Some(5_000));
    assert_eq!(cluster.health.summary, "Cluster starting up");
    assert_eq!(cluster.health.timestamp_ms, 5_000);
}

#[test]
fn node_operations_at_a_given_time() {
    let mut cluster = ClusterBuilder::new(1).build_at(10, "c".to_string()).unwrap();
    let r = cluster.add_node_at(4, "a:4".to_string(), 20, "op-1".to_string());
    assert!(r.success);
    assert_eq!(r.message, "Node 4 added successfully");
    assert_eq!(r.operation_id, "op-1");
    assert_eq!(r.timestamp_ms, 20);
    let n = cluster.status.nodes.last().unwrap();
    assert_eq!(n.role, NodeRole::Learner);
    assert_eq!(n.status, NodeStatus::Unknown);
    assert!(n.last_contact_ms.is_none());
    cluster.add_node_at(4, "b:4".to_string(), 25, "op-2".to_string());
    assert_eq!(cluster.status.nodes.len(), 3);
    let r = cluster.remove_node_at(4, 30, "op-3".to_string());
    assert_eq!(r.message, "Node 4 removed successfully");
    assert_eq!(cluster.status.nodes.len(), 1);
    assert_eq!(cluster.status.last_updated_ms, 30);
    let t = cluster.transfer_leadership_at(9, 40, "op-4".to_string());
    assert_eq!(t.message, "Leadership transfer to node 9 initiated");
    assert_eq!(t.timestamp_ms, 40);
    let h = cluster.health_at(50);
    assert_eq!(h.summary, "All systems operational");
    let names: Vec<&str> = h.checks.iter().map(|c| c.name.as_str()).collect();
    assert_eq!(names, vec!["consensus", "storage", "network"]);
    assert!(h.checks.iter().all(|c| c.status == CheckStatus::Pass));
    assert_eq!(cluster.health.timestamp_ms, 50);
}

#[test]
fn node_endpoint_finds_the_first_node_with_the_id() {
    let mut cluster = ClusterBuilder::new(1).build_at(10, "c".to_string()).unwrap();
    cluster.add_node_at(4, "a:4".to_string(), 20, "op-1".to_string());
    cluster.add_node_at(4, "b:4".to_string(), 25, "op-2".to_string());
    let n = cluster.get_node(4).unwrap();
    assert_eq!(n.address, "a:4");
    assert_eq!(n.role, NodeRole::Learner);
    assert_eq!(cluster.get_node(1).unwrap().status, NodeStatus::Online);
    assert!(cluster.get_node(9).is_none());
}
