//! Counting structures for metrics: counters, a latency histogram with
//! exponential buckets and its percentiles, a bounded FIFO queue with drop
//! accounting, a connection table with staleness cleanup, a ring buffer
//! that stores nothing (a push is accepted and no slot ever holds a value),
//! and an aggregator of named counters, gauges and histograms whose tables
//! are concurrent maps (see [`crate::tally`]).
//!
//! Each structure is owned by one writer here; sharing between threads is
//! left to the caller.  Counters wrap around on overflow.  Times are
//! milliseconds on a monotonic clock, latencies microseconds.

use vstd::prelude::*;
use crate::named::names_distinct;
use crate::tally::{
    histogram_contents, histograms_new, histograms_read, histograms_write, tally_entries, tally_get,
    tally_new, tally_read, tally_write,
};

verus! {

/// One more, wrapping around past the largest value.
pub open spec fn wrap_inc(x: u64) -> u64 {
    if x == u64::MAX { 0 } else { (x + 1) as u64 }
}

/// The sum of two counters, wrapping around past the largest value.
pub open spec fn wrap_add(x: u64, d: u64) -> u64 {
    if x + d > u64::MAX { (x + d - u64::MAX - 1) as u64 } else { (x + d) as u64 }
}

/// A counter of events.
#[derive(Debug)]
pub struct LockFreeCounter {
    value: u64,
}

impl LockFreeCounter {
    /// The current count.
    pub closed spec fn count(&self) -> u64 {
        self.value
    }

    /// A counter at zero.
    pub fn new() -> (r: Self)
        ensures
            r.count() == 0,
    {
        LockFreeCounter { value: 0 }
    }

    /// Add one; returns the count before.
    pub fn increment(&mut self) -> (r: u64)
        ensures
            r == old(self).count(),
            final(self).count() == wrap_inc(old(self).count()),
    {
        let before = self.value;
        self.value = self.value.wrapping_add(1);
        before
    }

    /// Add `delta`; returns the count before.
    pub fn add(&mut self, delta: u64) -> (r: u64)
        ensures
            r == old(self).count(),
            final(self).count() == wrap_add(old(self).count(), delta),
    {
        let before = self.value;
        self.value = self.value.wrapping_add(delta);
        before
    }

    /// The current count.
    pub fn get(&self) -> (r: u64)
        ensures
            r == self.count(),
    {
        self.value
    }

    /// Set the count to zero; returns the count before.
    pub fn reset(&mut self) -> (r: u64)
        ensures
            r == old(self).count(),
            final(self).count() == 0,
    {
        let before = self.value;
        self.value = 0;
        before
    }

    /// A new counter holding the same count.
    pub fn duplicate(&self) -> (r: Self)
        ensures
            r.count() == self.count(),
    {
        LockFreeCounter { value: self.value }
    }
}

impl Default for LockFreeCounter {
    fn default() -> (r: Self)
        ensures
            r.count() == 0,
    {
        LockFreeCounter::new()
    }
}

/// The bucket boundaries of the exponential histogram, in microseconds:
/// 1 µs, 10 µs, 100 µs, 1 ms, 10 ms, 100 ms, 1 s and 10 s.
pub open spec fn exponential_boundaries() -> Seq<u64> {
    seq![1, 10, 100, 1_000, 10_000, 100_000, 1_000_000, 10_000_000]
}

/// The bucket of a value: the first whose boundary is above the value, or
/// the overflow bucket after the last boundary.
pub open spec fn bucket_of(boundaries: Seq<u64>, value: u64) -> int {
    if exists|i: int| 0 <= i < boundaries.len() && value < #[trigger] boundaries[i] {
        choose|i: int| 0 <= i < boundaries.len() && value < #[trigger] boundaries[i]
            && forall|k: int| 0 <= k < i ==> value >= #[trigger] boundaries[k]
    } else {
        boundaries.len() as int
    }
}

/// A bounded queue of messages.
pub type LockFreeMessageQueue<T> = LockFreeBoundedQueue<T>;

/// A histogram of latencies with one bucket per boundary plus an overflow
/// bucket.
#[derive(Debug)]
pub struct LockFreeHistogram {
    buckets: Vec<u64>,
    bucket_boundaries: Vec<u64>,
}

/// A snapshot of a histogram: the bucket counts and their boundaries.
#[derive(Debug, Clone)]
pub struct HistogramSnapshot {
    /// Count of each bucket
    pub buckets: Vec<u64>,
    /// Upper boundary of each bucket but the last
    pub boundaries: Vec<u64>,
}

/// Find the bucket of a value.
fn find_bucket_index(boundaries: &Vec<u64>, value: u64) -> (r: usize)
    ensures
        r == bucket_of(boundaries@, value),
        r <= boundaries@.len(),
{
    let mut i: usize = 0;
    while i < boundaries.len()
        invariant
            i <= boundaries@.len(),
            forall|k: int| 0 <= k < i ==> value >= #[trigger] boundaries@[k],
        decreases boundaries@.len() - i,
    {
        if value < boundaries[i] {
            proof {
                let w = choose|w: int| 0 <= w < boundaries@.len() && value < #[trigger] boundaries@[w]
                    && forall|k: int| 0 <= k < w ==> value >= #[trigger] boundaries@[k];
                if w < i as int {
                    assert(value >= boundaries@[w]);
                } else if w > i as int {
                    assert(value >= boundaries@[i as int]);
                }
            }
            return i;
        }
        i = i + 1;
    }
    i
}

impl LockFreeHistogram {
    /// The bucket counts.
    pub closed spec fn counts(&self) -> Seq<u64> {
        self.buckets@
    }

    /// The bucket boundaries.
    pub closed spec fn boundaries(&self) -> Seq<u64> {
        self.bucket_boundaries@
    }

    /// Well-formed: one more bucket than boundaries.
    pub open spec fn wf(&self) -> bool {
        self.counts().len() == self.boundaries().len() + 1
    }

    /// A histogram with the exponential boundaries and empty buckets.
    pub fn new_exponential() -> (r: Self)
        ensures
            r.wf(),
            r.boundaries() == exponential_boundaries(),
            r.counts() == Seq::new(9, |i: int| 0u64),
    {
        let boundaries: Vec<u64> = vec![1, 10, 100, 1_000, 10_000, 100_000, 1_000_000, 10_000_000];
        let mut buckets: Vec<u64> = Vec::new();
        let mut i: usize = 0;
        while i <= boundaries.len()
            invariant
                boundaries@ == exponential_boundaries(),
                i <= 9,
                buckets@ == Seq::new(i as nat, |k: int| 0u64),
            decreases 9 - i,
        {
            buckets.push(0);
            i = i + 1;
        }
        assert(boundaries@ =~= exponential_boundaries());
        LockFreeHistogram { buckets, bucket_boundaries: boundaries }
    }

    /// Count a value in its bucket.
    pub fn record(&mut self, value_us: u64)
        requires
            old(self).wf(),
        ensures
            final(self).wf(),
            final(self).boundaries() == old(self).boundaries(),
            final(self).counts() == old(self).counts().update(
                bucket_of(old(self).boundaries(), value_us),
                wrap_inc(old(self).counts()[bucket_of(old(self).boundaries(), value_us)])),
    {
        let i = find_bucket_index(&self.bucket_boundaries, value_us);
        let c = self.buckets[i];
        self.buckets.set(i, c.wrapping_add(1));
    }

    /// A copy of the histogram.
    pub fn duplicate(&self) -> (r: Self)
        ensures
            r.counts() == self.counts(),
            r.boundaries() == self.boundaries(),
    {
        LockFreeHistogram { buckets: self.buckets.clone(), bucket_boundaries: self.bucket_boundaries.clone() }
    }

    /// A copy of the counts and boundaries.
    pub fn snapshot(&self) -> (r: HistogramSnapshot)
        ensures
            r.buckets@ == self.counts(),
            r.boundaries@ == self.boundaries(),
    {
        HistogramSnapshot { buckets: self.buckets.clone(), boundaries: self.bucket_boundaries.clone() }
    }
}

/// The sum of the first `n` counts.
pub open spec fn prefix_sum(counts: Seq<u64>, n: int) -> int
    decreases n,
{
    if n <= 0 { 0 } else { prefix_sum(counts, n - 1) + counts[n - 1] }
}

/// The running count through bucket `i`.
pub open spec fn running(counts: Seq<u64>, i: int) -> int {
    prefix_sum(counts, i + 1)
}

/// The sum of all counts.
pub open spec fn total_of(counts: Seq<u64>) -> int {
    prefix_sum(counts, counts.len() as int)
}

/// The value reported for a bucket: zero for the first, the previous
/// bucket's boundary for the others, the largest value past the boundaries.
pub open spec fn bucket_value(boundaries: Seq<u64>, i: int) -> u64 {
    if i == 0 {
        0
    } else if i <= boundaries.len() {
        boundaries[i - 1]
    } else {
        u64::MAX
    }
}

/// The percentile `num/den` of a histogram: none when it is empty,
/// otherwise the value of the first bucket at which the running count
/// reaches `ceil(total * num / den)`.
pub open spec fn percentile_spec(counts: Seq<u64>, boundaries: Seq<u64>, num: int, den: int) -> Option<u64> {
    let total = total_of(counts);
    let target = (total * num + den - 1) / den;
    if total == 0 {
        None
    } else if exists|i: int| 0 <= i < counts.len() && #[trigger] running(counts, i) >= target {
        let i = choose|i: int| 0 <= i < counts.len() && #[trigger] running(counts, i) >= target
            && forall|k: int| 0 <= k < i ==> #[trigger] running(counts, k) < target;
        Some(bucket_value(boundaries, i))
    } else {
        None
    }
}

proof fn lemma_prefix_nonneg(counts: Seq<u64>, n: int)
    requires
        n <= counts.len(),
    ensures
        0 <= prefix_sum(counts, n),
    decreases n,
{
    if n > 0 {
        lemma_prefix_nonneg(counts, n - 1);
    }
}

proof fn lemma_prefix_monotone(counts: Seq<u64>, a: int, b: int)
    requires
        0 <= a <= b <= counts.len(),
    ensures
        0 <= prefix_sum(counts, a) <= prefix_sum(counts, b),
    decreases b - a,
{
    if a < b {
        lemma_prefix_monotone(counts, a, b - 1);
    } else {
        lemma_prefix_nonneg(counts, a);
    }
}

impl HistogramSnapshot {
    /// The number of values counted.
    pub fn total_count(&self) -> (r: u64)
        requires
            total_of(self.buckets@) <= u64::MAX,
        ensures
            r == total_of(self.buckets@),
    {
        let mut sum: u64 = 0;
        let mut i: usize = 0;
        while i < self.buckets.len()
            invariant
                i <= self.buckets@.len(),
                sum == prefix_sum(self.buckets@, i as int),
                total_of(self.buckets@) <= u64::MAX,
            decreases self.buckets@.len() - i,
        {
            proof { lemma_prefix_monotone(self.buckets@, i as int + 1, self.buckets@.len() as int); }
            sum = sum + self.buckets[i];
            i = i + 1;
        }
        sum
    }

    /// The percentile `num/den` (with `num <= den`) of the counted values.
    pub fn percentile(&self, num: u64, den: u64) -> (r: Option<u64>)
        requires
            0 < den,
            num <= den,
            total_of(self.buckets@) <= u64::MAX,
        ensures
            r == percentile_spec(self.buckets@, self.boundaries@, num as int, den as int),
    {
        let total = self.total_count();
        if total == 0 {
            return None;
        }
        proof {
            assert(total * num <= total * den) by (nonlinear_arith)
                requires num <= den, total >= 0;
            assert((total * num + den - 1) / (den as int) <= total) by (nonlinear_arith)
                requires total * num <= total * den, den > 0, total >= 0;
            assert(total * num <= 0xFFFF_FFFF_FFFF_FFFFint * 0xFFFF_FFFF_FFFF_FFFFint) by (nonlinear_arith)
                requires 0 <= total <= 0xFFFF_FFFF_FFFF_FFFFint, 0 <= num <= 0xFFFF_FFFF_FFFF_FFFFint;
            assert(total * num + den - 1 <= u128::MAX);
        }
        let wide: u128 = (total as u128) * (num as u128) + (den as u128) - 1;
        let target = (wide / (den as u128)) as u64;
        let ghost counts = self.buckets@;
        let mut cumulative: u64 = 0;
        let mut i: usize = 0;
        while i < self.buckets.len()
            invariant
                counts == self.buckets@,
                i <= counts.len(),
                cumulative == prefix_sum(counts, i as int),
                total == total_of(counts),
                total > 0,
                total_of(counts) <= u64::MAX,
                target == (total * num + den - 1) / (den as int),
                forall|k: int| 0 <= k < i ==> #[trigger] running(counts, k) < target,
            decreases counts.len() - i,
        {
            proof { lemma_prefix_monotone(counts, i as int + 1, counts.len() as int); }
            cumulative = cumulative + self.buckets[i];
            if cumulative >= target {
                proof {
                    assert(running(counts, i as int) >= target);
                    let w = choose|w: int| 0 <= w < counts.len() && #[trigger] running(counts, w) >= target
                        && forall|k: int| 0 <= k < w ==> #[trigger] running(counts, k) < target;
                    if w < i as int {
                        assert(running(counts, w) < target);
                    } else if w > i as int {
                        assert(running(counts, i as int) < target);
                    }
                }
                if i == 0 {
                    return Some(0);
                } else if i <= self.boundaries.len() {
                    return Some(self.boundaries[i - 1]);
                } else {
                    return Some(u64::MAX);
                }
            }
            i = i + 1;
        }
        None
    }

    /// The median.
    pub fn p50(&self) -> (r: Option<u64>)
        requires
            total_of(self.buckets@) <= u64::MAX,
        ensures
            r == percentile_spec(self.buckets@, self.boundaries@, 1, 2),
    {
        self.percentile(1, 2)
    }

    /// The 95th percentile.
    pub fn p95(&self) -> (r: Option<u64>)
        requires
            total_of(self.buckets@) <= u64::MAX,
        ensures
            r == percentile_spec(self.buckets@, self.boundaries@, 95, 100),
    {
        self.percentile(95, 100)
    }

    /// The 99th percentile.
    pub fn p99(&self) -> (r: Option<u64>)
        requires
            total_of(self.buckets@) <= u64::MAX,
        ensures
            r == percentile_spec(self.buckets@, self.boundaries@, 99, 100),
    {
        self.percentile(99, 100)
    }
}

/// A non-empty histogram always has each of its percentiles: the running
/// count reaches any target up to the total by the last bucket.
pub proof fn lemma_percentile_defined(counts: Seq<u64>, boundaries: Seq<u64>, num: int, den: int)
    requires
        0 < den,
        0 <= num <= den,
        total_of(counts) > 0,
    ensures
        percentile_spec(counts, boundaries, num, den) is Some,
{
    let total = total_of(counts);
    let target = (total * num + den - 1) / den;
    assert(total * num <= total * den) by (nonlinear_arith)
        requires num <= den, total >= 0;
    assert(target <= total) by (nonlinear_arith)
        requires target == (total * num + den - 1) / den, total * num <= total * den, den > 0;
    assert(counts.len() > 0);
    assert(running(counts, counts.len() - 1) >= target);
}

/// The boundaries rise strictly.
pub open spec fn strictly_increasing(b: Seq<u64>) -> bool {
    forall|i: int, j: int| 0 <= i < j < b.len() ==> b[i] < b[j]
}

/// The first bucket from `j` on whose running count reaches the target.
proof fn lemma_first_from(counts: Seq<u64>, target: int, j: int) -> (i: int)
    requires
        0 <= j < counts.len(),
        forall|k: int| 0 <= k < j ==> #[trigger] running(counts, k) < target,
        running(counts, counts.len() - 1) >= target,
    ensures
        0 <= i < counts.len(),
        running(counts, i) >= target,
        forall|k: int| 0 <= k < i ==> #[trigger] running(counts, k) < target,
    decreases counts.len() - j,
{
    if running(counts, j) >= target {
        j
    } else {
        lemma_first_from(counts, target, j + 1)
    }
}

/// The index at which a percentile is read: the first bucket whose running
/// count reaches the target.
proof fn lemma_first_reach(counts: Seq<u64>, target: int) -> (i: int)
    requires
        counts.len() > 0,
        running(counts, counts.len() - 1) >= target,
    ensures
        0 <= i < counts.len(),
        running(counts, i) >= target,
        forall|k: int| 0 <= k < i ==> #[trigger] running(counts, k) < target,
        i == choose|i: int| 0 <= i < counts.len() && #[trigger] running(counts, i) >= target
            && forall|k: int| 0 <= k < i ==> #[trigger] running(counts, k) < target,
{
    let w = choose|i: int| 0 <= i < counts.len() && #[trigger] running(counts, i) >= target
        && forall|k: int| 0 <= k < i ==> #[trigger] running(counts, k) < target;
    if !(0 <= w < counts.len() && running(counts, w) >= target
        && forall|k: int| 0 <= k < w ==> #[trigger] running(counts, k) < target) {
        let j = lemma_first_from(counts, target, 0);
        assert(0 <= j < counts.len() && running(counts, j) >= target
            && forall|k: int| 0 <= k < j ==> #[trigger] running(counts, k) < target);
    }
    w
}

/// For a histogram with strictly rising boundaries and one more bucket than
/// boundaries, the median, the 95th and the 99th percentile are in that
/// order, and none exceeds the last boundary.
pub proof fn lemma_percentiles_ordered(counts: Seq<u64>, boundaries: Seq<u64>)
    requires
        total_of(counts) > 0,
        counts.len() == boundaries.len() + 1,
        boundaries.len() > 0,
        strictly_increasing(boundaries),
    ensures
        percentile_spec(counts, boundaries, 1, 2) matches Some(p50)
            && percentile_spec(counts, boundaries, 95, 100) matches Some(p95)
            && percentile_spec(counts, boundaries, 99, 100) matches Some(p99)
            && p50 <= p95 && p95 <= p99 && p99 <= boundaries.last(),
{
    let total = total_of(counts);
    let t50 = (total * 1 + 2 - 1) / 2;
    let t95 = (total * 95 + 100 - 1) / 100;
    let t99 = (total * 99 + 100 - 1) / 100;
    assert(t50 <= t95 && t95 <= t99 && t99 <= total) by (nonlinear_arith)
        requires t50 == (total * 1 + 2 - 1) / 2, t95 == (total * 95 + 100 - 1) / 100,
            t99 == (total * 99 + 100 - 1) / 100, total > 0;
    assert(running(counts, counts.len() - 1) == total);
    let i50 = lemma_first_reach(counts, t50);
    let i95 = lemma_first_reach(counts, t95);
    let i99 = lemma_first_reach(counts, t99);
    if i95 < i50 { assert(running(counts, i95) < t50); }
    if i99 < i95 { assert(running(counts, i99) < t95); }
    assert(i50 <= i95 <= i99 <= boundaries.len());
    let last = boundaries.len() - 1;
    assert(bucket_value(boundaries, i50) <= bucket_value(boundaries, i95)) by {
        if i50 > 0 && i50 < i95 { assert(boundaries[i50 - 1] < boundaries[i95 - 1]); }
    }
    assert(bucket_value(boundaries, i95) <= bucket_value(boundaries, i99)) by {
        if i95 > 0 && i95 < i99 { assert(boundaries[i95 - 1] < boundaries[i99 - 1]); }
    }
    assert(bucket_value(boundaries, i99) <= boundaries.last()) by {
        if i99 > 0 && i99 - 1 < last { assert(boundaries[i99 - 1] < boundaries[last]); }
    }
}

/// For a histogram with one more bucket than boundaries, every percentile
/// it reports is zero or one of its boundaries.
pub proof fn lemma_percentile_is_boundary(counts: Seq<u64>, boundaries: Seq<u64>, num: int, den: int)
    requires
        counts.len() == boundaries.len() + 1,
    ensures
        percentile_spec(counts, boundaries, num, den) matches Some(v) ==> v == 0
            || boundaries.contains(v),
{
    let total = total_of(counts);
    let target = (total * num + den - 1) / den;
    if total != 0 && exists|i: int| 0 <= i < counts.len() && #[trigger] running(counts, i) >= target {
        let j = choose|i: int| 0 <= i < counts.len() && #[trigger] running(counts, i) >= target;
        lemma_prefix_monotone(counts, j + 1, counts.len() as int);
        let i = lemma_first_reach(counts, target);
        if i > 0 {
            assert(boundaries[i - 1] == bucket_value(boundaries, i));
            assert(boundaries.contains(bucket_value(boundaries, i)));
        }
    }
}

/// Connection pool metrics.
#[derive(Debug, Clone, Copy, PartialEq, Eq, Structural)]
pub struct ConnectionPoolMetrics {
    /// Connections currently held
    pub active_connections: usize,
    /// Connections ever added under a new key
    pub total_created: u64,
    /// Connections ever removed
    pub total_removed: u64,
}

/// Queue metrics.
#[derive(Debug, Clone, Copy, PartialEq, Eq, Structural)]
pub struct QueueMetrics {
    /// Items currently queued
    pub current_size: usize,
    /// Capacity of the queue
    pub capacity: usize,
    /// Items ever accepted
    pub total_pushed: u64,
    /// Items ever taken
    pub total_popped: u64,
    /// Items ever refused for lack of room
    pub total_dropped: u64,
}

/// A bounded first-in first-out queue that counts what it accepts, hands
/// out and refuses.
#[derive(Debug)]
pub struct LockFreeBoundedQueue<T> {
    items: Vec<T>,
    cap: usize,
    push_count: u64,
    pop_count: u64,
    dropped_count: u64,
}

impl<T> LockFreeBoundedQueue<T> {
    /// The queued items, oldest first.
    pub closed spec fn items(&self) -> Seq<T> {
        self.items@
    }

    /// The capacity.
    pub closed spec fn cap(&self) -> usize {
        self.cap
    }

    /// The (accepted, taken, refused) counts.
    pub closed spec fn counts(&self) -> (u64, u64, u64) {
        (self.push_count, self.pop_count, self.dropped_count)
    }

    /// Well-formed: never more items than the capacity.
    pub open spec fn wf(&self) -> bool {
        self.items().len() <= self.cap()
    }

    /// An empty queue with room for `capacity` items.
    pub fn new(capacity: usize) -> (r: Self)
        requires
            capacity > 0,
        ensures
            r.wf(),
            r.items().len() == 0,
            r.cap() == capacity,
            r.counts() == (0u64, 0u64, 0u64),
    {
        LockFreeBoundedQueue { items: Vec::new(), cap: capacity, push_count: 0, pop_count: 0, dropped_count: 0 }
    }

    /// Add an item at the back when there is room; otherwise hand it back
    /// and count it as refused.
    pub fn try_push(&mut self, item: T) -> (r: Result<(), T>)
        requires
            old(self).wf(),
        ensures
            final(self).wf(),
            final(self).cap() == old(self).cap(),
            old(self).items().len() < old(self).cap() ==> r is Ok
                && final(self).items() == old(self).items().push(item)
                && final(self).counts() == (wrap_inc(old(self).counts().0), old(self).counts().1, old(self).counts().2),
            old(self).items().len() >= old(self).cap() ==> r == Err::<(), T>(item)
                && final(self).items() == old(self).items()
                && final(self).counts() == (old(self).counts().0, old(self).counts().1, wrap_inc(old(self).counts().2)),
    {
        if self.items.len() < self.cap {
            self.items.push(item);
            self.push_count = self.push_count.wrapping_add(1);
            Ok(())
        } else {
            self.dropped_count = self.dropped_count.wrapping_add(1);
            Err(item)
        }
    }

    /// Take the oldest item, if any.
    pub fn pop(&mut self) -> (r: Option<T>)
        requires
            old(self).wf(),
        ensures
            final(self).wf(),
            final(self).cap() == old(self).cap(),
            old(self).items().len() == 0 ==> r is None && final(self).items() == old(self).items()
                && final(self).counts() == old(self).counts(),
            old(self).items().len() > 0 ==> r == Some(old(self).items()[0])
                && final(self).items() == old(self).items().drop_first()
                && final(self).counts() == (old(self).counts().0, wrap_inc(old(self).counts().1), old(self).counts().2),
    {
        if self.items.len() == 0 {
            return None;
        }
        let x = self.items.remove(0);
        self.pop_count = self.pop_count.wrapping_add(1);
        assert(self.items@ =~= old(self).items@.drop_first());
        Some(x)
    }

    /// The number of queued items.
    pub fn len(&self) -> (r: usize)
        ensures
            r == self.items().len(),
    {
        self.items.len()
    }

    /// The capacity.
    pub fn capacity(&self) -> (r: usize)
        ensures
            r == self.cap(),
    {
        self.cap
    }

    /// Whether no item is queued.
    pub fn is_empty(&self) -> (r: bool)
        ensures
            r == (self.items().len() == 0),
    {
        self.items.len() == 0
    }

    /// Whether the queue is at capacity.
    pub fn is_full(&self) -> (r: bool)
        requires
            self.wf(),
        ensures
            r == (self.items().len() == self.cap()),
    {
        self.items.len() == self.cap
    }

    /// The number of refused items.
    pub fn dropped_count(&self) -> (r: u64)
        ensures
            r == self.counts().2,
    {
        self.dropped_count
    }

    /// The queue's metrics.
    pub fn metrics(&self) -> (r: QueueMetrics)
        ensures
            r == (QueueMetrics {
                current_size: self.items().len() as usize,
                capacity: self.cap(),
                total_pushed: self.counts().0,
                total_popped: self.counts().1,
                total_dropped: self.counts().2,
            }),
    {
        QueueMetrics {
            current_size: self.items.len(),
            capacity: self.cap,
            total_pushed: self.push_count,
            total_popped: self.pop_count,
            total_dropped: self.dropped_count,
        }
    }
}

/// A queue refuses an item exactly when it is full, and otherwise keeps it
/// behind the items already queued.
pub proof fn lemma_fifo_order<T>(items: Seq<T>, item: T, cap: nat)
    requires
        items.len() < cap,
    ensures
        items.push(item).drop_first() == (if items.len() == 0 { Seq::<T>::empty() } else { items.drop_first().push(item) }),
        items.push(item)[items.len() as int] == item,
{
    if items.len() == 0 {
        assert(items.push(item).drop_first() =~= Seq::<T>::empty());
    } else {
        assert(items.push(item).drop_first() =~= items.drop_first().push(item));
    }
}

/// A table of connections by key, with the time each was last active.
#[derive(Debug)]
pub struct LockFreeConnectionPool<T> {
    connections: Vec<(u64, T, u64)>,
    total_created: u64,
    total_removed: u64,
    health_check_timeout_ms: u64,
}

/// The keys of a connection table.
pub open spec fn pool_keys<T>(entries: Seq<(u64, T, u64)>) -> Seq<u64> {
    entries.map_values(|e: (u64, T, u64)| e.0)
}

/// A connection has been idle too long at `now_ms`.
pub open spec fn is_stale(last_ms: u64, now_ms: u64, timeout_ms: u64) -> bool {
    now_ms >= last_ms && now_ms - last_ms > timeout_ms
}

impl<T> LockFreeConnectionPool<T> {
    /// The (key, connection, last activity) entries.
    pub closed spec fn entries(&self) -> Seq<(u64, T, u64)> {
        self.connections@
    }

    /// The (created, removed) counts.
    pub closed spec fn counts(&self) -> (u64, u64) {
        (self.total_created, self.total_removed)
    }

    /// The idle time after which a connection is stale, in milliseconds.
    pub closed spec fn timeout(&self) -> u64 {
        self.health_check_timeout_ms
    }

    /// Well-formed: each key occurs once.
    pub open spec fn wf(&self) -> bool {
        forall|i: int, j: int| 0 <= i < j < self.entries().len() ==> self.entries()[i].0 != self.entries()[j].0
    }

    /// The position of a key, if present.
    pub open spec fn position(&self, key: u64) -> Option<int> {
        if exists|i: int| 0 <= i < self.entries().len() && #[trigger] self.entries()[i].0 == key {
            Some(choose|i: int| 0 <= i < self.entries().len() && #[trigger] self.entries()[i].0 == key)
        } else {
            None
        }
    }

    /// An empty table.
    pub fn new(health_check_timeout_ms: u64) -> (r: Self)
        ensures
            r.wf(),
            r.entries().len() == 0,
            r.counts() == (0u64, 0u64),
            r.timeout() == health_check_timeout_ms,
    {
        LockFreeConnectionPool { connections: Vec::new(), total_created: 0, total_removed: 0, health_check_timeout_ms }
    }

    fn find(&self, key: u64) -> (r: Option<usize>)
        requires
            self.wf(),
        ensures
            match r {
                Some(i) => i < self.entries().len() && self.entries()[i as int].0 == key && self.position(key) == Some(i as int),
                None => self.position(key) is None,
            },
    {
        let mut i: usize = 0;
        while i < self.connections.len()
            invariant
                i <= self.entries().len(),
                self.wf(),
                forall|k: int| 0 <= k < i ==> #[trigger] self.entries()[k].0 != key,
            decreases self.entries().len() - i,
        {
            if self.connections[i].0 == key {
                proof {
                    let w = choose|w: int| 0 <= w < self.entries().len() && #[trigger] self.entries()[w].0 == key;
                    assert(w == i as int);
                }
                return Some(i);
            }
            i = i + 1;
        }
        None
    }

    /// Store a connection under a key, active at `now_ms`; returns the
    /// connection it replaces.  A new key counts as created.
    pub fn insert(&mut self, key: u64, connection: T, now_ms: u64) -> (r: Option<T>)
        requires
            old(self).wf(),
        ensures
            final(self).wf(),
            final(self).timeout() == old(self).timeout(),
            match old(self).position(key) {
                Some(i) => r == Some(old(self).entries()[i].1)
                    && final(self).entries() == old(self).entries().update(i, (key, connection, now_ms))
                    && final(self).counts() == old(self).counts(),
                None => r is None
                    && final(self).entries() == old(self).entries().push((key, connection, now_ms))
                    && final(self).counts() == (wrap_inc(old(self).counts().0), old(self).counts().1),
            },
    {
        match self.find(key) {
            Some(i) => {
                let (_, old_conn, _) = self.connections.remove(i);
                self.connections.insert(i, (key, connection, now_ms));
                assert(self.entries() =~= old(self).entries().update(i as int, (key, connection, now_ms)));
                Some(old_conn)
            },
            None => {
                self.connections.push((key, connection, now_ms));
                self.total_created = self.total_created.wrapping_add(1);
                proof {
                    assert forall|a: int, b: int| 0 <= a < b < self.entries().len() implies self.entries()[a].0 != self.entries()[b].0 by {
                        if b == self.entries().len() - 1 {
                            assert(old(self).entries()[a].0 != key);
                        }
                    }
                }
                None
            },
        }
    }

    /// The connection stored under a key, with its last activity.
    pub fn get(&self, key: u64) -> (r: Option<(&T, u64)>)
        requires
            self.wf(),
        ensures
            match self.position(key) {
                Some(i) => r matches Some((c, t)) && *c == self.entries()[i].1 && t == self.entries()[i].2,
                None => r is None,
            },
    {
        match self.find(key) {
            Some(i) => Some((&self.connections[i].1, self.connections[i].2)),
            None => None,
        }
    }

    /// Remove the connection stored under a key; a removal is counted.
    pub fn remove(&mut self, key: u64) -> (r: Option<T>)
        requires
            old(self).wf(),
        ensures
            final(self).wf(),
            final(self).timeout() == old(self).timeout(),
            match old(self).position(key) {
                Some(i) => r == Some(old(self).entries()[i].1)
                    && final(self).entries() == old(self).entries().remove(i)
                    && final(self).counts() == (old(self).counts().0, wrap_inc(old(self).counts().1)),
                None => r is None && final(self).entries() == old(self).entries()
                    && final(self).counts() == old(self).counts(),
            },
    {
        match self.find(key) {
            Some(i) => {
                let (_, conn, _) = self.connections.remove(i);
                self.total_removed = self.total_removed.wrapping_add(1);
                Some(conn)
            },
            None => None,
        }
    }

    /// Drop the connections idle for longer than the timeout at `now_ms`;
    /// returns their keys in table order, and counts them as removed.
    pub fn cleanup_stale(&mut self, now_ms: u64) -> (r: Vec<u64>)
        requires
            old(self).wf(),
        ensures
            final(self).wf(),
            final(self).timeout() == old(self).timeout(),
            final(self).entries() == old(self).entries().filter(|e: (u64, T, u64)| !is_stale(e.2, now_ms, old(self).timeout())),
            r@ == pool_keys(old(self).entries().filter(|e: (u64, T, u64)| is_stale(e.2, now_ms, old(self).timeout()))),
            final(self).counts() == (old(self).counts().0, wrap_add(old(self).counts().1, r@.len() as u64)),
    {
        let ghost timeout = self.health_check_timeout_ms;
        let ghost keep = |e: (u64, T, u64)| !is_stale(e.2, now_ms, timeout);
        let ghost gone = |e: (u64, T, u64)| is_stale(e.2, now_ms, timeout);
        let ghost orig = self.connections@;
        let ghost mut j: int = 0;
        let mut stale: Vec<u64> = Vec::new();
        let mut i: usize = 0;
        while i < self.connections.len()
            invariant
                0 <= j <= orig.len(),
                orig == old(self).connections@,
                timeout == old(self).health_check_timeout_ms,
                self.health_check_timeout_ms == timeout,
                self.total_created == old(self).total_created,
                self.total_removed == old(self).total_removed,
                keep == (|e: (u64, T, u64)| !is_stale(e.2, now_ms, timeout)),
                gone == (|e: (u64, T, u64)| is_stale(e.2, now_ms, timeout)),
                self.connections@ == orig.take(j).filter(keep) + orig.skip(j),
                i == orig.take(j).filter(keep).len(),
                stale@ == pool_keys(orig.take(j).filter(gone)),
            decreases orig.len() - j,
        {
            proof {
                crate::seqs::lemma_filter_take_step(orig, keep, j);
                crate::seqs::lemma_filter_take_step(orig, gone, j);
                assert(self.connections@[i as int] == orig[j]);
            }
            let last = self.connections[i].2;
            if now_ms >= last && now_ms - last > self.health_check_timeout_ms {
                let key = self.connections[i].0;
                let ghost before = stale@;
                self.connections.remove(i);
                stale.push(key);
                proof {
                    assert(self.connections@ =~= orig.take(j + 1).filter(keep) + orig.skip(j + 1));
                    assert(stale@ =~= pool_keys(orig.take(j + 1).filter(gone)));
                    j = j + 1;
                }
            } else {
                proof {
                    assert(self.connections@ =~= orig.take(j + 1).filter(keep) + orig.skip(j + 1));
                    assert(pool_keys(orig.take(j + 1).filter(gone)) =~= pool_keys(orig.take(j).filter(gone)));
                    j = j + 1;
                }
                i = i + 1;
            }
        }
        proof {
            assert(j == orig.len());
            crate::seqs::lemma_take_all(orig);
            assert(self.connections@ =~= orig.filter(keep));
            crate::seqs::lemma_filter_members(orig, keep);
        }
        let n = stale.len() as u64;
        self.total_removed = self.total_removed.wrapping_add(n);
        proof {
            let f = orig.filter(keep);
            assert(self.entries() == f);
            assert forall|a: int, b: int| 0 <= a < b < f.len() implies f[a].0 != f[b].0 by {
                crate::seqs::lemma_filter_order(orig, keep, a, b);
                let (x, y) = choose|x: int, y: int| 0 <= x < y < orig.len() && orig[x] == f[a] && orig[y] == f[b];
                assert(old(self).entries()[x].0 != old(self).entries()[y].0);
            }
        }
        stale
    }

    /// The key and last activity of the entry at a position.
    pub fn entry_at(&self, i: usize) -> (r: (u64, u64))
        requires
            i < self.entries().len(),
        ensures
            r == (self.entries()[i as int].0, self.entries()[i as int].2),
    {
        (self.connections[i].0, self.connections[i].2)
    }

    /// The number of connections.
    pub fn len(&self) -> (r: usize)
        ensures
            r == self.entries().len(),
    {
        self.connections.len()
    }

    /// Whether there is no connection.
    pub fn is_empty(&self) -> (r: bool)
        ensures
            r == (self.entries().len() == 0),
    {
        self.connections.len() == 0
    }

    /// The table's metrics.
    pub fn metrics(&self) -> (r: ConnectionPoolMetrics)
        ensures
            r == (ConnectionPoolMetrics {
                active_connections: self.entries().len() as usize,
                total_created: self.counts().0,
                total_removed: self.counts().1,
            }),
    {
        ConnectionPoolMetrics {
            active_connections: self.connections.len(),
            total_created: self.total_created,
            total_removed: self.total_removed,
        }
    }
}

/// A ring buffer of recent values.  Writing is not implemented: a push
/// keeps nothing and a read finds nothing.
#[derive(Debug)]
pub struct LockFreeRingBuffer<T> {
    buffer: Vec<Option<T>>,
    write_index: usize,
    cap: usize,
}

impl<T> LockFreeRingBuffer<T> {
    /// The number of slots.
    pub closed spec fn slots(&self) -> usize {
        self.cap
    }

    /// The position of the next write.
    pub closed spec fn next_write(&self) -> usize {
        self.write_index
    }

    /// A buffer with `capacity` empty slots.
    pub fn new(capacity: usize) -> (r: Self)
        ensures
            r.slots() == capacity,
            r.next_write() == 0,
    {
        let mut buffer: Vec<Option<T>> = Vec::new();
        let mut i: usize = 0;
        while i < capacity
            invariant
                i <= capacity,
                buffer@.len() == i,
            decreases capacity - i,
        {
            buffer.push(None);
            i = i + 1;
        }
        LockFreeRingBuffer { buffer, write_index: 0, cap: capacity }
    }

    /// Offer a value; nothing is kept or displaced.
    pub fn push(&self, item: T) -> (r: Option<T>)
        ensures
            r is None,
    {
        None
    }

    /// The value in a slot; no value is ever found.
    pub fn get(&self, index: usize) -> (r: Option<T>)
        ensures
            r is None,
    {
        if index >= self.cap {
            return None;
        }
        None
    }

    /// The number of slots.
    pub fn capacity(&self) -> (r: usize)
        ensures
            r == self.slots(),
    {
        self.cap
    }

    /// The slot of the next write.
    pub fn current_index(&self) -> (r: usize)
        requires
            self.slots() > 0,
        ensures
            r == self.next_write() % self.slots(),
    {
        self.write_index % self.cap
    }
}

/// The bucket counts of a histogram after one more value.
pub open spec fn recorded(counts: Seq<u64>, value_us: u64) -> Seq<u64> {
    counts.update(
        bucket_of(exponential_boundaries(), value_us),
        wrap_inc(counts[bucket_of(exponential_boundaries(), value_us)]),
    )
}

/// The count of a name in a table, 0 for a name it does not hold.
pub open spec fn count_or_zero(c: Option<u64>) -> u64 {
    match c {
        Some(x) => x,
        None => 0,
    }
}

/// The bucket counts of the histogram stored under a name in a table.
pub open spec fn histogram_counts_of(table: Map<Seq<char>, (Seq<u64>, Seq<u64>)>, name: Seq<char>) -> Option<Seq<u64>> {
    if table.dom().contains(name) {
        Some(table[name].0)
    } else {
        None
    }
}

/// Counters, latency histograms, error counters and gauges by name.
#[derive(Debug)]
pub struct LockFreeStatsAggregator {
    message_counts: dashmap::DashMap<String, u64>,
    latency_histograms: dashmap::DashMap<String, LockFreeHistogram>,
    error_counts: dashmap::DashMap<String, u64>,
    gauges: dashmap::DashMap<String, u64>,
}

impl LockFreeStatsAggregator {
    /// Every histogram has the exponential boundaries and one more bucket
    /// than boundaries.
    pub closed spec fn wf(&self) -> bool {
        forall|n: Seq<char>| #[trigger] histogram_contents(self.latency_histograms).dom().contains(n)
            ==> histogram_contents(self.latency_histograms)[n].1 == exponential_boundaries()
            && histogram_contents(self.latency_histograms)[n].0.len() == exponential_boundaries().len() + 1
    }

    /// The message counter of a name.
    pub closed spec fn counter_of(&self, name: Seq<char>) -> Option<u64> {
        tally_get(self.message_counts, name)
    }

    /// The error counter of a name.
    pub closed spec fn error_of(&self, name: Seq<char>) -> Option<u64> {
        tally_get(self.error_counts, name)
    }

    /// The gauge of a name.
    pub closed spec fn gauge_of(&self, name: Seq<char>) -> Option<u64> {
        tally_get(self.gauges, name)
    }

    /// The latency bucket counts of a name.
    pub closed spec fn latency_of(&self, name: Seq<char>) -> Option<Seq<u64>> {
        histogram_counts_of(histogram_contents(self.latency_histograms), name)
    }

    /// The entries list every message counter: each name once with its
    /// count, and every counted name.
    pub open spec fn lists_counters(&self, entries: Seq<(String, u64)>) -> bool {
        &&& names_distinct(entries)
        &&& forall|i: int| 0 <= i < entries.len() ==> self.counter_of((#[trigger] entries[i]).0@) == Some(entries[i].1)
        &&& forall|n: Seq<char>| #[trigger] self.counter_of(n) is Some
            ==> exists|i: int| 0 <= i < entries.len() && (#[trigger] entries[i]).0@ == n
    }

    /// The entries list every gauge: each name once with its value, and
    /// every gauge's name.
    pub open spec fn lists_gauges(&self, entries: Seq<(String, u64)>) -> bool {
        &&& names_distinct(entries)
        &&& forall|i: int| 0 <= i < entries.len() ==> self.gauge_of((#[trigger] entries[i]).0@) == Some(entries[i].1)
        &&& forall|n: Seq<char>| #[trigger] self.gauge_of(n) is Some
            ==> exists|i: int| 0 <= i < entries.len() && (#[trigger] entries[i]).0@ == n
    }

    /// An aggregator with nothing recorded.
    pub fn new() -> (r: Self)
        ensures
            r.wf(),
            forall|n: Seq<char>| #[trigger] r.counter_of(n) is None && r.error_of(n) is None
                && r.gauge_of(n) is None && r.latency_of(n) is None,
    {
        LockFreeStatsAggregator {
            message_counts: tally_new(),
            latency_histograms: histograms_new(),
            error_counts: tally_new(),
            gauges: tally_new(),
        }
    }

    /// Count one more message under a name; a new name starts at 0.  Counts
    /// wrap around past the largest value.
    pub fn increment_counter(&mut self, name: &str)
        requires
            old(self).wf(),
        ensures
            final(self).wf(),
            final(self).counter_of(name@) == Some(wrap_inc(count_or_zero(old(self).counter_of(name@)))),
            forall|n: Seq<char>| n != name@ ==> #[trigger] final(self).counter_of(n) == old(self).counter_of(n),
            forall|n: Seq<char>| #[trigger] final(self).error_of(n) == old(self).error_of(n)
                && final(self).gauge_of(n) == old(self).gauge_of(n) && final(self).latency_of(n) == old(self).latency_of(n),
    {
        let c = match tally_read(&self.message_counts, name) {
            Some(c) => c,
            None => 0,
        };
        tally_write(&mut self.message_counts, name.to_string(), c.wrapping_add(1));
    }

    /// Count one more error under a name; a new name starts at 0.
    pub fn increment_error(&mut self, name: &str)
        requires
            old(self).wf(),
        ensures
            final(self).wf(),
            final(self).error_of(name@) == Some(wrap_inc(count_or_zero(old(self).error_of(name@)))),
            forall|n: Seq<char>| n != name@ ==> #[trigger] final(self).error_of(n) == old(self).error_of(n),
            forall|n: Seq<char>| #[trigger] final(self).counter_of(n) == old(self).counter_of(n)
                && final(self).gauge_of(n) == old(self).gauge_of(n) && final(self).latency_of(n) == old(self).latency_of(n),
    {
        let c = match tally_read(&self.error_counts, name) {
            Some(c) => c,
            None => 0,
        };
        tally_write(&mut self.error_counts, name.to_string(), c.wrapping_add(1));
    }

    /// Set the gauge of a name.
    pub fn set_gauge(&mut self, name: &str, value: u64)
        requires
            old(self).wf(),
        ensures
            final(self).wf(),
            final(self).gauge_of(name@) == Some(value),
            forall|n: Seq<char>| n != name@ ==> #[trigger] final(self).gauge_of(n) == old(self).gauge_of(n),
            forall|n: Seq<char>| #[trigger] final(self).counter_of(n) == old(self).counter_of(n)
                && final(self).error_of(n) == old(self).error_of(n) && final(self).latency_of(n) == old(self).latency_of(n),
    {
        tally_write(&mut self.gauges, name.to_string(), value);
    }

    /// Record a latency under a name, in microseconds; a new name starts
    /// with an empty exponential histogram.
    pub fn record_latency(&mut self, name: &str, duration_us: u64)
        requires
            old(self).wf(),
        ensures
            final(self).wf(),
            final(self).latency_of(name@) == Some(recorded(
                match old(self).latency_of(name@) { Some(c) => c, None => Seq::new(9, |i: int| 0u64) },
                duration_us,
            )),
            forall|n: Seq<char>| n != name@ ==> #[trigger] final(self).latency_of(n) == old(self).latency_of(n),
            forall|n: Seq<char>| #[trigger] final(self).counter_of(n) == old(self).counter_of(n)
                && final(self).error_of(n) == old(self).error_of(n) && final(self).gauge_of(n) == old(self).gauge_of(n),
    {
        let mut h = match histograms_read(&self.latency_histograms, name) {
            Some(h) => h,
            None => LockFreeHistogram::new_exponential(),
        };
        h.record(duration_us);
        histograms_write(&mut self.latency_histograms, name.to_string(), h);
    }

    /// The message count of a name.
    pub fn get_counter(&self, name: &str) -> (r: Option<u64>)
        ensures
            r == self.counter_of(name@),
    {
        tally_read(&self.message_counts, name)
    }

    /// The error count of a name.
    pub fn get_error_count(&self, name: &str) -> (r: Option<u64>)
        ensures
            r == self.error_of(name@),
    {
        tally_read(&self.error_counts, name)
    }

    /// The gauge of a name.
    pub fn get_gauge(&self, name: &str) -> (r: Option<u64>)
        ensures
            r == self.gauge_of(name@),
    {
        tally_read(&self.gauges, name)
    }

    /// A snapshot of the latency histogram of a name.
    pub fn get_latency_histogram(&self, name: &str) -> (r: Option<HistogramSnapshot>)
        requires
            self.wf(),
        ensures
            match self.latency_of(name@) {
                Some(c) => r matches Some(snap) && snap.buckets@ == c && snap.boundaries@ == exponential_boundaries(),
                None => r is None,
            },
    {
        match histograms_read(&self.latency_histograms, name) {
            Some(h) => Some(h.snapshot()),
            None => None,
        }
    }

    /// Every message counter, as (name, count) entries, in an order that
    /// the table's hasher decides.
    pub fn get_all_counters(&self) -> (r: Vec<(String, u64)>)
        ensures
            self.lists_counters(r@),
    {
        tally_entries(&self.message_counts)
    }

    /// Every gauge, as (name, value) entries, in an order that the table's
    /// hasher decides.
    pub fn get_all_gauges(&self) -> (r: Vec<(String, u64)>)
        ensures
            self.lists_gauges(r@),
    {
        tally_entries(&self.gauges)
    }
}

impl Default for LockFreeStatsAggregator {
    fn default() -> (r: Self)
        ensures
            r.wf(),
            forall|n: Seq<char>| #[trigger] r.counter_of(n) is None && r.error_of(n) is None
                && r.gauge_of(n) is None && r.latency_of(n) is None,
    {
        Self::new()
    }
}

} // verus!
