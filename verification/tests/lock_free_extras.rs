use iroh_raft::lock_free::{LockFreeBoundedQueue, LockFreeConnectionPool, LockFreeCounter, LockFreeHistogram};

#[test]
fn counter_reset_and_copy() {
    let mut c = LockFreeCounter::new();
    c.increment();
    c.increment();
    let d = c.duplicate();
    assert_eq!(c.reset(), 2);
    assert_eq!(c.get(), 0);
    assert_eq!(d.get(), 2);
}

#[test]
fn histogram_percentiles_report_bucket_lower_bounds() {
    let mut h = LockFreeHistogram::new_exponential();
    assert!(h.snapshot().p50().is_none());
    h.record(500);
    h.record(1500);
    h.record(15000);
    let copy = h.duplicate();
    let s = copy.snapshot();
    assert_eq!(s.total_count(), 3);
    assert_eq!(s.p50(), Some(1000));
    assert_eq!(s.p95(), Some(10000));
    assert_eq!(s.p99(), Some(10000));
    assert_eq!(s.percentile(0, 1), Some(0));
    assert_eq!(s.percentile(1, 1), Some(10000));
    assert_eq!(s.percentile(1, 3), Some(100));
    h.record(0);
    h.record(u64::MAX);
    let s = h.snapshot();
    assert_eq!(s.buckets[0], 1);
    assert_eq!(s.buckets[8], 1);
    assert_eq!(s.percentile(1, 1), Some(10_000_000));
}

#[test]
fn bounded_queue_fills_up() {
    let mut q: LockFreeBoundedQueue<u32> = LockFreeBoundedQueue::new(2);
    assert!(!q.is_full());
    assert!(q.try_push(1).is_ok());
    assert!(q.try_push(2).is_ok());
    assert!(q.is_full());
    assert_eq!(q.try_push(3), Err(3));
    assert_eq!(q.pop(), Some(1));
    assert!(!q.is_full());
}

#[test]
fn pool_entries_by_position() {
    let mut pool = LockFreeConnectionPool::new(1_000);
    pool.insert(7, "a".to_string(), 10);
    pool.insert(9, "b".to_string(), 20);
    let mut seen = vec![pool.entry_at(0), pool.entry_at(1)];
    seen.sort();
    assert_eq!(seen, vec![(7, 10), (9, 20)]);
}
