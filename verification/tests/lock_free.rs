use iroh_raft::lock_free::{
    LockFreeConnectionPool, LockFreeCounter, LockFreeHistogram, LockFreeMessageQueue, LockFreeRingBuffer,
    LockFreeStatsAggregator,
};

#[test]
fn test_lock_free_counter() {
    let mut counter = LockFreeCounter::new();
    for _ in 0..10 {
        for _ in 0..1000 {
            counter.increment();
        }
    }
    assert_eq!(counter.get(), 10000);
}

#[test]
fn test_lock_free_histogram() {
    let mut histogram = LockFreeHistogram::new_exponential();

    histogram.record(500);
    histogram.record(1500);
    histogram.record(15000);

    let snapshot = histogram.snapshot();
    assert_eq!(snapshot.total_count(), 3);

    assert!(snapshot.p50().is_some());
}

#[test]
fn test_lock_free_connection_pool() {
    let mut pool = LockFreeConnectionPool::new(60 * 1000);

    pool.insert(1, "connection1".to_string(), 0);
    pool.insert(2, "connection2".to_string(), 0);

    assert_eq!(pool.len(), 2);

    let conn = pool.get(1);
    assert!(conn.is_some());
    assert_eq!(conn.unwrap().0, "connection1");

    let removed = pool.remove(1);
    assert_eq!(removed, Some("connection1".to_string()));
    assert_eq!(pool.len(), 1);
}

#[test]
fn test_lock_free_message_queue() {
    let mut queue = LockFreeMessageQueue::new(3);

    assert!(queue.try_push("msg1".to_string()).is_ok());
    assert!(queue.try_push("msg2".to_string()).is_ok());
    assert!(queue.try_push("msg3".to_string()).is_ok());

    assert!(queue.try_push("msg4".to_string()).is_err());
    assert_eq!(queue.dropped_count(), 1);

    assert_eq!(queue.pop(), Some("msg1".to_string()));
    assert_eq!(queue.len(), 2);
}

#[test]
fn test_stats_aggregator() {
    let mut stats = LockFreeStatsAggregator::new();

    stats.increment_counter("test_counter");
    stats.increment_counter("test_counter");
    assert_eq!(stats.get_counter("test_counter"), Some(2));

    stats.record_latency("test_latency", 5 * 1000);
    let histogram = stats.get_latency_histogram("test_latency");
    assert!(histogram.is_some());
    assert_eq!(histogram.unwrap().total_count(), 1);

    stats.set_gauge("test_gauge", 42);
    assert_eq!(stats.get_gauge("test_gauge"), Some(42));
}

#[test]
fn histogram_buckets_and_percentiles() {
    let mut h = LockFreeHistogram::new_exponential();
    h.record(0);
    h.record(5);
    h.record(50);
    h.record(20_000_000);
    let snap = h.snapshot();
    assert_eq!(snap.buckets, vec![1, 1, 1, 0, 0, 0, 0, 0, 1]);
    assert_eq!(snap.total_count(), 4);
    let empty = LockFreeHistogram::new_exponential().snapshot();
    assert_eq!(empty.p50(), None);
}

#[test]
fn stale_connections_are_dropped() {
    let mut pool = LockFreeConnectionPool::new(1000);
    pool.insert(1, "a", 0);
    pool.insert(2, "b", 5000);
    let gone = pool.cleanup_stale(5500);
    assert_eq!(gone, vec![1]);
    assert_eq!(pool.len(), 1);
    assert!(pool.get(2).is_some());
}

#[test]
fn ring_buffer_keeps_nothing() {
    let ring = LockFreeRingBuffer::new(2);
    assert_eq!(ring.push(1u64), None);
    assert_eq!(ring.get(0), None);
    assert_eq!(ring.get(5), None);
    assert_eq!(ring.capacity(), 2);
    assert_eq!(ring.current_index(), 0);
}

#[test]
fn stats_aggregator_keeps_names_apart() {
    let mut stats = LockFreeStatsAggregator::default();
    stats.increment_error("e");
    stats.increment_counter("c");
    stats.set_gauge("g", 1);
    stats.set_gauge("g", 2);
    assert_eq!(stats.get_error_count("e"), Some(1));
    assert_eq!(stats.get_counter("e"), None);
    assert_eq!(stats.get_gauge("g"), Some(2));
    let gauges = stats.get_all_gauges();
    assert_eq!(gauges, vec![("g".to_string(), 2)]);
    let counters = stats.get_all_counters();
    assert_eq!(counters, vec![("c".to_string(), 1)]);
}
