use iroh_raft::raft::kv_example::{KeyValueStore, KvCommand, KvQuery, KvQueryResponse, KvState};

fn s(x: &str) -> String {
    x.to_string()
}

#[test]
fn test_kv_store_basic_operations() {
    let mut kv = KeyValueStore::new();

    kv.apply_command(KvCommand::SetValue { key: s("key1"), value: s("value1") }).unwrap();
    assert_eq!(kv.get_current_state().get(&s("key1")), Some(&s("value1")));
    assert_eq!(kv.get_current_state().len(), 1);
    assert_eq!(kv.get_current_state().metadata.operation_count, 1);

    kv.apply_command(KvCommand::SetValue { key: s("key1"), value: s("updated_value") }).unwrap();
    assert_eq!(kv.get_current_state().get(&s("key1")), Some(&s("updated_value")));
    assert_eq!(kv.get_current_state().len(), 1);
    assert_eq!(kv.get_current_state().metadata.operation_count, 2);

    kv.apply_command(KvCommand::Delete { key: s("key1") }).unwrap();
    assert_eq!(kv.get_current_state().get(&s("key1")), None);
    assert_eq!(kv.get_current_state().len(), 0);
    assert_eq!(kv.get_current_state().metadata.operation_count, 3);
}

#[test]
fn test_kv_store_clear() {
    let mut kv = KeyValueStore::new();
    kv.apply_command(KvCommand::SetValue { key: s("key1"), value: s("value1") }).unwrap();
    kv.apply_command(KvCommand::SetValue { key: s("key2"), value: s("value2") }).unwrap();
    assert_eq!(kv.get_current_state().len(), 2);

    kv.apply_command(KvCommand::Clear).unwrap();
    assert_eq!(kv.get_current_state().len(), 0);
    assert!(kv.get_current_state().is_empty());
    assert_eq!(kv.get_current_state().metadata.operation_count, 3);
}

#[test]
fn test_snapshot_and_restore() {
    let mut kv1 = KeyValueStore::new();
    kv1.apply_command(KvCommand::SetValue { key: s("key1"), value: s("value1") }).unwrap();
    kv1.apply_command(KvCommand::SetValue { key: s("key2"), value: s("value2") }).unwrap();

    let snapshot = kv1.create_snapshot().unwrap();
    assert_eq!(snapshot.len(), 2);
    assert_eq!(snapshot.metadata.operation_count, 2);

    let mut kv2 = KeyValueStore::new();
    kv2.restore_from_snapshot(snapshot).unwrap();

    assert_eq!(kv2.get_current_state().len(), 2);
    assert_eq!(kv2.get_current_state().get(&s("key1")), Some(&s("value1")));
    assert_eq!(kv2.get_current_state().get(&s("key2")), Some(&s("value2")));
    assert_eq!(kv2.get_current_state().metadata.operation_count, 2);
}

#[test]
fn test_delete_nonexistent_key() {
    let mut kv = KeyValueStore::new();
    kv.apply_command(KvCommand::Delete { key: s("nonexistent") }).unwrap();
    assert_eq!(kv.get_current_state().len(), 0);
    assert_eq!(kv.get_current_state().metadata.operation_count, 1);
}

#[test]
fn test_example_state_machine_creation() {
    let kv = KeyValueStore::new();
    let state = kv.get_current_state();
    assert_eq!(state.len(), 0);
    assert!(state.is_empty());
    assert_eq!(state.metadata.operation_count, 0);
}

#[test]
fn test_example_state_machine_with_initial_state() {
    let mut initial_state = KvState::new();
    initial_state.metadata.operation_count = 5;
    initial_state.metadata.version = 3;

    let kv = KeyValueStore::with_state(initial_state);
    let state = kv.get_current_state();
    assert_eq!(state.metadata.operation_count, 5);
    assert_eq!(state.metadata.version, 3);
}

#[test]
fn queries_answer_from_the_state() {
    let mut kv = KeyValueStore::new();
    kv.apply_command(KvCommand::SetValue { key: s("app/a"), value: s("1") }).unwrap();
    kv.apply_command(KvCommand::SetValue { key: s("sys/b"), value: s("2") }).unwrap();
    kv.apply_command(KvCommand::SetValue { key: s("app/c"), value: s("3") }).unwrap();
    match kv.execute_query(KvQuery::List { prefix: Some(s("app/")) }).unwrap() {
        KvQueryResponse::Keys(keys) => assert_eq!(keys, vec![s("app/a"), s("app/c")]),
        other => panic!("unexpected {:?}", other),
    }
    match kv.execute_query(KvQuery::Exists { key: s("sys/b") }).unwrap() {
        KvQueryResponse::Boolean(b) => assert!(b),
        other => panic!("unexpected {:?}", other),
    }
    match kv.execute_query(KvQuery::Size).unwrap() {
        KvQueryResponse::Number(n) => assert_eq!(n, 3),
        other => panic!("unexpected {:?}", other),
    }
    match kv.execute_query(KvQuery::Get { key: s("missing") }).unwrap() {
        KvQueryResponse::Value(v) => assert_eq!(v, None),
        other => panic!("unexpected {:?}", other),
    }
}

#[test]
fn set_then_delete_leaves_no_trace_of_the_key() {
    let mut kv = KeyValueStore::new();
    kv.apply_command(KvCommand::SetValue { key: s("k"), value: s("v") }).unwrap();
    kv.apply_command(KvCommand::Delete { key: s("k") }).unwrap();
    assert_eq!(kv.get_current_state().get(&s("k")), None);
    assert!(kv.get_current_state().is_empty());
}
