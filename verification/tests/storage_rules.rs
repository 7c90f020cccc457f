use iroh_raft::storage::{
    applied_index, entries_covered_by_snapshot, entries_to_compact, entries_within_limit, first_index, last_index,
    snapshot_available, term_of, SnapshotMeta, StorageFailure,
};

#[test]
fn reads_stop_before_the_limit() {
    assert_eq!(entries_within_limit(&vec![10, 20, 30], Some(30)), 2);
    assert_eq!(entries_within_limit(&vec![10, 20, 30], Some(29)), 1);
    assert_eq!(entries_within_limit(&vec![50], Some(10)), 0);
    assert_eq!(entries_within_limit(&vec![10, 20, 30], None), 3);
    assert_eq!(entries_within_limit(&vec![], Some(0)), 0);
}

#[test]
fn terms_and_indexes_around_a_snapshot() {
    let snap = Some(SnapshotMeta { index: 10, term: 3 });
    assert_eq!(term_of(0, snap, None), Ok(0));
    assert_eq!(term_of(10, snap, None), Ok(3));
    assert_eq!(term_of(11, snap, Some(4)), Ok(4));
    assert_eq!(term_of(12, snap, None), Err(StorageFailure::Unavailable));
    assert_eq!(first_index(snap, Some(5)), 11);
    assert_eq!(first_index(None, Some(5)), 5);
    assert_eq!(first_index(None, None), 1);
    assert_eq!(last_index(Some(20), snap), 20);
    assert_eq!(last_index(None, snap), 10);
    assert_eq!(last_index(None, None), 0);
    assert_eq!(snapshot_available(10, snap), Ok(()));
    assert_eq!(snapshot_available(11, snap), Err(StorageFailure::SnapshotTemporarilyUnavailable));
    assert_eq!(snapshot_available(0, None), Err(StorageFailure::SnapshotTemporarilyUnavailable));
    assert_eq!(applied_index(Some(7)), 7);
    assert_eq!(applied_index(None), 0);
}

#[test]
fn compaction_and_snapshots_drop_old_entries() {
    let stored = vec![3, 4, 5, 6];
    assert_eq!(entries_to_compact(&stored, 5), vec![3, 4]);
    assert_eq!(entries_covered_by_snapshot(&stored, 5), vec![3, 4, 5]);
}
