use iroh_raft::config::{Config, ConfigBuilder, ConfigError, EnvOverrides, ReadOnlyOption, StorageBackend, SyncStrategy};

fn no_env() -> EnvOverrides {
    EnvOverrides {
        node_id: None,
        data_dir: None,
        debug: None,
        bind_address: None,
        peers: None,
        election_timeout_ms: None,
        heartbeat_interval_ms: None,
        log_level: None,
        metrics_enabled: None,
        otlp_endpoint: None,
    }
}

#[test]
fn config_test_default_config() {
    let config = Config::default();

    assert!(config.validate().is_err());

    assert_eq!(config.raft.heartbeat_interval_ms, 1000);
    assert_eq!(config.raft.election_timeout_min_ms, 3000);
    assert!(config.raft.pre_vote);
    assert!(config.raft.compaction.enabled);
    assert!(config.raft.snapshot.enabled);
    assert_eq!(config.observability.logging.level, "info");
    assert!(config.observability.metrics.enabled);
}

#[test]
fn test_config_builder() {
    let config = ConfigBuilder::new()
        .node_id(1)
        .data_dir("/tmp/test")
        .bind_address(Some("127.0.0.1:8080".to_string()))
        .add_peer(Some("127.0.0.1:8081".to_string()))
        .election_timeout(5000)
        .heartbeat_interval(1000)
        .log_level("debug")
        .build()
        .expect("Failed to build config");

    assert_eq!(config.node.id, Some(1));
    assert_eq!(config.node.data_dir, "/tmp/test");
    assert_eq!(config.transport.bind_address, "127.0.0.1:8080");
    assert_eq!(config.transport.peers.len(), 1);
    assert_eq!(config.raft.election_timeout_min_ms, 5000);
    assert_eq!(config.raft.heartbeat_interval_ms, 1000);
    assert_eq!(config.observability.logging.level, "debug");
}

#[test]
fn config_test_validation() {
    let config = Config::default();
    assert!(config.validate().is_err());

    let mut config = Config::default();
    config.node.id = Some(1);
    config.raft.heartbeat_interval_ms = 5000;
    config.raft.election_timeout_min_ms = 3000;
    assert!(config.validate().is_err());

    let mut config = Config::default();
    config.node.id = Some(1);
    config.raft.heartbeat_interval_ms = 1000;
    config.raft.election_timeout_min_ms = 5000;
    config.raft.election_timeout_max_ms = 7000;
    assert!(config.validate().is_ok());
}

#[test]
fn test_env_overrides() {
    let mut env = no_env();
    env.node_id = Some("42".to_string());
    env.data_dir = Some("/custom/data".to_string());
    env.log_level = Some("trace".to_string());

    let config = Config::from_env(env).expect("Failed to load config from env");

    assert_eq!(config.node.id, Some(42));
    assert_eq!(config.node.data_dir, "/custom/data");
    assert_eq!(config.observability.logging.level, "trace");
}

#[test]
fn env_override_with_bad_node_id_is_refused() {
    let mut env = no_env();
    env.node_id = Some("forty-two".to_string());
    let r = Config::from_env(env);
    assert!(r.is_err());
}

#[test]
fn invalid_configuration_message_names_field() {
    let mut config = Config::default();
    config.node.id = Some(1);
    config.raft.heartbeat_interval_ms = 5000;
    config.raft.election_timeout_min_ms = 3000;
    match config.validate() {
        Err(e) => {
            let text = e.message();
            assert!(text.starts_with("Invalid configuration: "));
        }
        Ok(()) => panic!("expected an invalid configuration"),
    }
    let missing = Config::default().validate();
    match missing {
        Err(ConfigError::Missing { field }) => assert_eq!(field, "node.id"),
        other => panic!("unexpected: {:?}", other),
    }
}

#[test]
fn option_names_parse_case_insensitively() {
    assert_eq!(ReadOnlyOption::from_str("Read_Index").unwrap(), ReadOnlyOption::ReadIndex);
    assert!(ReadOnlyOption::from_str("bogus").is_err());
    assert!(matches!(StorageBackend::from_str("MEMORY"), Ok(StorageBackend::Memory)));
    assert!(matches!(SyncStrategy::from_str("NONE"), Ok(SyncStrategy::NoSync)));
}
