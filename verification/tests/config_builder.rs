use iroh_raft::config::{Config, ConfigBuilder, EnvOverrides, ReadOnlyOption, StorageBackend, SyncStrategy};

fn no_env() -> EnvOverrides {
    EnvOverrides {
        node_id: None,
        data_dir: None,
        debug: None,
        bind_address: None,
        peers: None,
        election_timeout_ms: None,
        heartbeat_interval_ms: None,
        log_level: None,
        metrics_enabled: None,
        otlp_endpoint: None,
    }
}

#[test]
fn builder_sets_every_field() {
    let c = ConfigBuilder::new()
        .node_id(3)
        .node_name("n3")
        .node_zone("eu")
        .add_node_tag("rack", "a")
        .add_node_tag("tier", "db")
        .add_node_tag("rack", "b")
        .read_only_option(ReadOnlyOption::LeaderLease)
        .log_compaction(false, 77)
        .snapshots(true, 88, 4)
        .storage_backend(StorageBackend::Memory)
        .sync_strategy(SyncStrategy::OnCommit)
        .cache_size_mb(512)
        .metrics_address(Some("127.0.0.1:9100".to_string()))
        .tracing("http://collector:4317")
        .tracing_sample_rate(0.5f64.to_bits())
        .relay_server("https://relay.example")
        .enable_mdns_discovery(true)
        .build_unchecked();
    assert_eq!(c.node.id, Some(3));
    assert_eq!(c.node.metadata.name.as_deref(), Some("n3"));
    assert_eq!(c.node.metadata.zone.as_deref(), Some("eu"));
    assert_eq!(c.node.metadata.tags.len(), 2);
    assert!(c.node.metadata.tags.iter().any(|(k, v)| k == "rack" && v == "b"));
    assert!(c.node.metadata.tags.iter().any(|(k, v)| k == "tier" && v == "db"));
    assert_eq!(c.raft.read_only_option, ReadOnlyOption::LeaderLease);
    assert!(!c.raft.compaction.enabled);
    assert_eq!(c.raft.compaction.threshold_entries, 77);
    assert!(c.raft.snapshot.enabled);
    assert_eq!(c.raft.snapshot.threshold_entries, 88);
    assert_eq!(c.raft.snapshot.compression_level, 4);
    assert!(matches!(c.storage.backend, StorageBackend::Memory));
    assert_eq!(c.storage.sync_strategy, SyncStrategy::OnCommit);
    assert_eq!(c.storage.cache_size_mb, 512);
    assert_eq!(c.observability.metrics.bind_address.as_deref(), Some("127.0.0.1:9100"));
    assert!(c.observability.tracing.enabled);
    assert_eq!(c.observability.tracing.otlp_endpoint.as_deref(), Some("http://collector:4317"));
    assert_eq!(f64::from_bits(c.observability.tracing.sample_rate_bits), 0.5);
    assert_eq!(c.transport.iroh.relay_url.as_deref(), Some("https://relay.example"));
    assert!(c.transport.iroh.discovery.enable_mdns);

    // An address that did not parse leaves the metrics address alone.
    let d = ConfigBuilder::new().metrics_address(None).build_unchecked();
    let base = Config::default();
    assert_eq!(d.observability.metrics.bind_address, base.observability.metrics.bind_address);
}

#[test]
fn enumerations_parse_ignoring_case() {
    assert_eq!(ReadOnlyOption::from_lowercase("read_index", "Read_Index").unwrap(), ReadOnlyOption::ReadIndex);
    assert!(ReadOnlyOption::from_lowercase("maybe", "Maybe").is_err());
    assert!(matches!(StorageBackend::from_lowercase("redb", "REDB"), StorageBackend::Redb));
    match StorageBackend::from_lowercase("postgres://x", "Postgres://X") {
        StorageBackend::Custom { connection_string } => assert_eq!(connection_string, "Postgres://X"),
        other => panic!("unexpected {:?}", other),
    }
    assert_eq!(SyncStrategy::from_lowercase("none", "NONE").unwrap(), SyncStrategy::NoSync);
    match SyncStrategy::from_lowercase("often", "Often") {
        Err(e) => assert_eq!(e.message(), "Invalid configuration: sync_strategy: Invalid sync strategy: Often"),
        Ok(s) => panic!("unexpected {:?}", s),
    }
}

#[test]
fn environment_overrides_apply_in_order() {
    let mut c = Config::default();
    let mut env = no_env();
    env.debug = Some("true".to_string());
    env.bind_address = Some(Ok("0.0.0.0:7000".to_string()));
    env.peers = Some(vec![Ok("10.0.0.1:1".to_string()), Ok("10.0.0.2:2".to_string())]);
    env.election_timeout_ms = Some("4000".to_string());
    env.heartbeat_interval_ms = Some("500".to_string());
    env.metrics_enabled = Some("false".to_string());
    env.otlp_endpoint = Some("http://otel".to_string());
    c.apply_env_overrides(env).unwrap();
    assert!(c.node.debug);
    assert_eq!(c.transport.bind_address, "0.0.0.0:7000");
    assert_eq!(c.transport.peers, vec!["10.0.0.1:1".to_string(), "10.0.0.2:2".to_string()]);
    assert_eq!(c.raft.election_timeout_min_ms, 4000);
    assert_eq!(c.raft.heartbeat_interval_ms, 500);
    assert!(!c.observability.metrics.enabled);
    assert!(c.observability.tracing.enabled);

    // A bad timing value stops before the observability step.
    let mut c = Config::default();
    let mut env = no_env();
    env.data_dir = Some("/d".to_string());
    env.election_timeout_ms = Some("soon".to_string());
    env.log_level = Some("debug".to_string());
    assert!(c.apply_env_overrides(env).is_err());
    assert_eq!(c.node.data_dir, "/d");
    assert_eq!(c.observability.logging.level, "info");
}
