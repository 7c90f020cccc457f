use iroh_raft::config::Config;
use iroh_raft::node::{KeyValueOp, KeyValueStateMachine, NodeStateMachine, ProposalData, RaftNodeBuilder};

fn set(k: &str, v: &str) -> ProposalData {
    ProposalData::KeyValue(KeyValueOp::SetValue { key: k.to_string(), value: v.to_string() })
}

#[test]
fn key_value_machine_answers_operations() {
    let mut sm = KeyValueStateMachine::new();
    assert_eq!(sm.apply(1, &set("a/x", "1")).unwrap(), b"ok".to_vec());
    assert_eq!(sm.apply(2, &set("b/y", "2")).unwrap(), b"ok".to_vec());
    assert_eq!(sm.apply(3, &set("a/z", "3")).unwrap(), b"ok".to_vec());
    let get = ProposalData::KeyValue(KeyValueOp::Get { key: "a/x".to_string() });
    assert_eq!(sm.apply(4, &get).unwrap(), b"1".to_vec());
    let missing = ProposalData::KeyValue(KeyValueOp::Get { key: "nope".to_string() });
    assert_eq!(sm.apply(5, &missing).unwrap(), Vec::<u8>::new());
    let list = ProposalData::KeyValue(KeyValueOp::List { prefix: Some("a/".to_string()) });
    assert_eq!(sm.apply(6, &list).unwrap(), b"a/x\na/z".to_vec());
    let del = ProposalData::KeyValue(KeyValueOp::Delete { key: "a/x".to_string() });
    assert_eq!(sm.apply(7, &del).unwrap(), b"deleted".to_vec());
    assert_eq!(sm.apply(8, &del).unwrap(), b"not_found".to_vec());
    assert_eq!(sm.apply(9, &ProposalData::Raw(vec![1, 2])).unwrap(), b"ack".to_vec());
    assert_eq!(sm.len(), 2);
    assert!(!sm.is_empty());
    assert_eq!(sm.get("b/y"), Some("2".to_string()));
    assert_eq!(sm.list(None), vec!["b/y".to_string(), "a/z".to_string()]);
}

#[test]
fn snapshot_restores_the_same_map() {
    let mut sm = KeyValueStateMachine::new();
    sm.apply(1, &set("k1", "v1")).unwrap();
    sm.apply(2, &set("k2", "v2")).unwrap();
    let bytes = sm.snapshot().unwrap();
    let mut other = KeyValueStateMachine::new();
    other.restore(&bytes).unwrap();
    assert_eq!(other.len(), 2);
    assert_eq!(other.get("k1"), Some("v1".to_string()));
    assert_eq!(other.get("k2"), Some("v2".to_string()));
    assert!(other.restore(&[1, 2, 3]).is_err());
    assert_eq!(other.len(), 2);
}

#[test]
fn builders_keep_what_they_are_given() {
    let b = RaftNodeBuilder::new(Config::default());
    assert!(b.state_machine.is_none());
    let c = RaftNodeBuilder::with_state_machine(Config::default(), KeyValueStateMachine::new());
    assert!(c.state_machine.is_some());
}

#[test]
fn snapshot_bytes_follow_the_fixed_width_layout() {
    let mut sm = KeyValueStateMachine::new();
    sm.apply(1, &set("a", "bc")).unwrap();
    let bytes = sm.snapshot().unwrap();
    let mut expected = Vec::new();
    expected.extend_from_slice(&1u64.to_le_bytes());
    expected.extend_from_slice(&1u64.to_le_bytes());
    expected.extend_from_slice(b"a");
    expected.extend_from_slice(&2u64.to_le_bytes());
    expected.extend_from_slice(b"bc");
    assert_eq!(bytes, expected);
    let empty = KeyValueStateMachine::new().snapshot().unwrap();
    assert_eq!(empty, 0u64.to_le_bytes().to_vec());
}

#[test]
fn election_tick_counts_heartbeats_per_timeout() {
    let mut c = Config::default();
    c.raft.election_timeout_min_ms = 3000;
    c.raft.heartbeat_interval_ms = 1000;
    assert_eq!(iroh_raft::node::election_tick(&c), 3);
    c.raft.heartbeat_interval_ms = 700;
    assert_eq!(iroh_raft::node::election_tick(&c), 4);
}
