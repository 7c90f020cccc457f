use iroh_raft::error::{ErrorCategory, RaftError};
use iroh_raft::config::ConfigError;

#[test]
fn test_error_categorization() {
    let raft_err = RaftError::NotLeader { operation: "propose".to_string(), current_leader: Some(2) };
    assert_eq!(raft_err.category(), "raft");
    assert!(!raft_err.is_transient());
    assert!(!raft_err.should_step_down());

    let transport_err = RaftError::NetworkTimeout {
        operation: "append_entries".to_string(),
        peer_id: "peer1".to_string(),
        duration_ms: 5000,
    };
    assert_eq!(transport_err.category(), "transport");
    assert!(transport_err.is_transient());
    assert!(!transport_err.should_step_down());

    let storage_err = RaftError::StorageCorruption {
        component: "log".to_string(),
        details: "checksum mismatch".to_string(),
    };
    assert_eq!(storage_err.category(), "storage");
    assert!(!storage_err.is_transient());
    assert!(storage_err.should_step_down());
}

#[test]
fn test_multiple_errors() {
    let errors = vec![
        RaftError::NetworkTimeout { operation: "test1".to_string(), peer_id: "peer1".to_string(), duration_ms: 1000 },
        RaftError::ConnectionFailed { peer_id: "peer2".to_string(), reason: "timeout".to_string() },
    ];
    let multi_err = RaftError::Multiple { context: "cluster_operation".to_string(), errors };

    assert_eq!(multi_err.category(), "multiple");
    assert!(multi_err.is_transient());
    assert!(!multi_err.should_step_down());
}

#[test]
fn test_error_constructors() {
    let raft_err = RaftError::storage_error("read_log", "access denied".to_string());
    match raft_err {
        RaftError::Storage { operation, .. } => assert_eq!(operation, "read_log"),
        _ => panic!("Expected Storage error"),
    }

    let transport_err = RaftError::transport_error("connection refused");
    match transport_err {
        RaftError::Transport { details } => assert_eq!(details, "connection refused"),
        _ => panic!("Expected Transport error"),
    }
}

#[test]
fn test_error_display() {
    let err = RaftError::NotLeader { operation: "propose".to_string(), current_leader: Some(2) };
    let display = err.message();
    assert!(display.contains("Not leader"));
    assert!(display.contains("propose"));
    assert!(display.contains("2"));

    let multi_err = RaftError::Multiple {
        context: "test".to_string(),
        errors: vec![
            RaftError::InvalidInput { parameter: "data".to_string(), message: "empty".to_string() },
            RaftError::Timeout { operation: "commit".to_string(), duration_ms: 30 * 1000 },
        ],
    };
    let display = multi_err.message();
    assert!(display.contains("Multiple errors"));

    let detailed = multi_err.detailed_message();
    assert!(detailed.contains("1."));
    assert!(detailed.contains("2."));
}

#[test]
fn test_error_size() {
    let size = std::mem::size_of::<RaftError>();
    println!("RaftError size: {} bytes", size);
}

#[test]
fn error_messages_are_exact() {
    let err = RaftError::NotLeader { operation: "propose".to_string(), current_leader: Some(2) };
    assert_eq!(err.message(), "Not leader for operation 'propose', current leader: Some(2)");
    let err = RaftError::NotLeader { operation: "add".to_string(), current_leader: None };
    assert_eq!(err.message(), "Not leader for operation 'add', current leader: None");
    let err = RaftError::Timeout { operation: "commit".to_string(), duration_ms: 30_000 };
    assert_eq!(err.message(), "Operation 'commit' timed out after 30s");
    let err = RaftError::Timeout { operation: "x".to_string(), duration_ms: 1500 };
    assert_eq!(err.message(), "Operation 'x' timed out after 1.5s");
    let err = RaftError::Timeout { operation: "x".to_string(), duration_ms: 1050 };
    assert_eq!(err.message(), "Operation 'x' timed out after 1.05s");
    let err = RaftError::Timeout { operation: "x".to_string(), duration_ms: 1234 };
    assert_eq!(err.message(), "Operation 'x' timed out after 1.234s");
    let err = RaftError::NetworkTimeout { operation: "a".to_string(), peer_id: "p".to_string(), duration_ms: 250 };
    assert_eq!(err.message(), "Network timeout for operation 'a' with peer p after 250ms");
    let err = RaftError::Timeout { operation: "z".to_string(), duration_ms: 0 };
    assert_eq!(err.message(), "Operation 'z' timed out after 0ns");
    let err = RaftError::InsufficientSpace { operation: "write".to_string(), needed: 10, available: 3 };
    assert_eq!(err.message(), "Insufficient storage space for operation 'write': need 10 bytes, available 3 bytes");
    let err = RaftError::NodeNotFound { node_id: 7 };
    assert_eq!(err.message(), "Node 7 not found in cluster configuration");
    let err = RaftError::Storage { operation: "read".to_string(), details: "gone".to_string() };
    assert_eq!(err.message(), "Storage operation 'read' failed");
}

#[test]
fn detailed_message_numbers_members() {
    let multi_err = RaftError::Multiple {
        context: "ctx".to_string(),
        errors: vec![
            RaftError::Internal { message: "a".to_string() },
            RaftError::ClusterError { message: "b".to_string() },
        ],
    };
    assert_eq!(multi_err.detailed_message(), "Multiple errors in ctx: 1. Internal error: a; 2. Cluster error: b");
    let plain = RaftError::Internal { message: "x".to_string() };
    assert_eq!(plain.detailed_message(), "Internal error: x");
}

#[test]
fn group_transience_needs_every_member() {
    let mixed = RaftError::Multiple {
        context: "c".to_string(),
        errors: vec![
            RaftError::NotReady { node_id: 1, operation: "o".to_string(), reason: "r".to_string() },
            RaftError::Internal { message: "fatal".to_string() },
        ],
    };
    assert!(!mixed.is_transient());
    let stepping = RaftError::Multiple {
        context: "c".to_string(),
        errors: vec![
            RaftError::Internal { message: "fatal".to_string() },
            RaftError::NetworkPartition { details: "split".to_string() },
        ],
    };
    assert!(stepping.should_step_down());
    let empty = RaftError::Multiple { context: "c".to_string(), errors: vec![] };
    assert!(empty.is_transient());
    assert!(!empty.should_step_down());
    assert_eq!(ErrorCategory::CircuitBreaker.as_str(), "circuit_breaker");
}

#[test]
fn config_error_becomes_invalid_configuration() {
    let e = ConfigError::Missing { field: "node.id".to_string() };
    match RaftError::from_config_error(&e) {
        RaftError::InvalidConfiguration { component, message } => {
            assert_eq!(component, "config");
            assert_eq!(message, "Missing required field: node.id");
        }
        _ => panic!("expected an invalid configuration"),
    }
}
