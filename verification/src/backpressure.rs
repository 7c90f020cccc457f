//! Backpressure bookkeeping for bounded message channels: priorities, the
//! counters a channel keeps, their aggregation over the priority queues, and
//! the errors a send or receive ends with.
//!
//! The channels themselves (queues, permits, waiting) run outside; they
//! update a [`BackpressureMetrics`] and ask the functions here what to
//! report.  Durations are in milliseconds.

use vstd::prelude::*;
use vstd::string::StringExecFns;
use crate::error::RaftError;

verus! {

/// Priority levels for messages, from lowest to highest.
#[derive(Debug, Clone, Copy, PartialEq, Eq, Structural)]
pub enum Priority {
    /// Low priority (level 0)
    Low,
    /// Normal priority (level 1)
    Normal,
    /// High priority (level 2)
    High,
    /// Critical priority (level 3)
    Critical,
}

/// The level of a priority: 0 for low up to 3 for critical.
pub open spec fn priority_level(p: Priority) -> nat {
    match p {
        Priority::Low => 0,
        Priority::Normal => 1,
        Priority::High => 2,
        Priority::Critical => 3,
    }
}

impl Priority {
    /// The level of the priority, which is also the index of its queue.
    pub fn level(&self) -> (r: usize)
        ensures
            r == priority_level(*self),
    {
        match self {
            Priority::Low => 0,
            Priority::Normal => 1,
            Priority::High => 2,
            Priority::Critical => 3,
        }
    }
}

/// Counters of a backpressure-aware channel.  The totals wrap around on
/// overflow, as do the pending count's decrements.
#[derive(Debug, Clone, Copy, PartialEq, Eq, Structural)]
pub struct BackpressureMetrics {
    /// Messages sent
    pub total_sent: u64,
    /// Messages received
    pub total_received: u64,
    /// Messages dropped
    pub total_dropped: u64,
    /// Sends that timed out
    pub total_timeouts: u64,
    /// Messages currently pending
    pub current_pending: usize,
    /// Highest pending count recorded
    pub max_pending_reached: usize,
    /// Moving average of the delivery latency, in milliseconds
    pub avg_latency_ms: u64,
}

/// A snapshot of the counters of a channel.
#[derive(Debug, Clone, Copy, PartialEq, Eq, Structural)]
pub struct BackpressureSnapshot {
    /// Messages sent
    pub total_sent: u64,
    /// Messages received
    pub total_received: u64,
    /// Messages dropped
    pub total_dropped: u64,
    /// Sends that timed out
    pub total_timeouts: u64,
    /// Messages currently pending
    pub current_pending: usize,
    /// Highest pending count recorded
    pub max_pending_reached: usize,
    /// Moving average of the delivery latency, in milliseconds
    pub avg_latency_ms: u64,
}

/// One more, wrapping around past the largest value.
pub open spec fn inc64(x: u64) -> u64 {
    if x == u64::MAX { 0 } else { (x + 1) as u64 }
}

/// One less, wrapping around below zero.
pub open spec fn dec_usize(x: usize) -> usize {
    if x == 0 { usize::MAX } else { (x - 1) as usize }
}

/// The moving average after a new latency sample: the sample itself when
/// there is no average yet, else seven parts old average to one part sample.
pub open spec fn next_average(current: u64, latency_ms: u64) -> u64 {
    if current == 0 { latency_ms } else { ((current * 7 + latency_ms) / 8) as u64 }
}

impl Default for BackpressureMetrics {
    fn default() -> (r: Self)
        ensures
            r == (BackpressureMetrics {
                total_sent: 0, total_received: 0, total_dropped: 0, total_timeouts: 0,
                current_pending: 0, max_pending_reached: 0, avg_latency_ms: 0,
            }),
    {
        BackpressureMetrics {
            total_sent: 0, total_received: 0, total_dropped: 0, total_timeouts: 0,
            current_pending: 0, max_pending_reached: 0, avg_latency_ms: 0,
        }
    }
}

impl BackpressureMetrics {
    /// Count a sent message.
    pub fn record_sent(&mut self)
        ensures
            *final(self) == (BackpressureMetrics { total_sent: inc64(old(self).total_sent), ..*old(self) }),
    {
        self.total_sent = self.total_sent.wrapping_add(1);
    }

    /// Count a received message, which is no longer pending.
    pub fn record_received(&mut self)
        ensures
            *final(self) == (BackpressureMetrics {
                total_received: inc64(old(self).total_received),
                current_pending: dec_usize(old(self).current_pending),
                ..*old(self)
            }),
    {
        self.total_received = self.total_received.wrapping_add(1);
        self.current_pending = self.current_pending.wrapping_sub(1);
    }

    /// Count a dropped message, which is no longer pending.
    pub fn record_dropped(&mut self)
        ensures
            *final(self) == (BackpressureMetrics {
                total_dropped: inc64(old(self).total_dropped),
                current_pending: dec_usize(old(self).current_pending),
                ..*old(self)
            }),
    {
        self.total_dropped = self.total_dropped.wrapping_add(1);
        self.current_pending = self.current_pending.wrapping_sub(1);
    }

    /// Count a send that timed out.
    pub fn record_timeout(&mut self)
        ensures
            *final(self) == (BackpressureMetrics { total_timeouts: inc64(old(self).total_timeouts), ..*old(self) }),
    {
        self.total_timeouts = self.total_timeouts.wrapping_add(1);
    }

    /// Record the number of pending messages, and raise the recorded
    /// maximum to it.
    pub fn record_pending(&mut self, count: usize)
        ensures
            *final(self) == (BackpressureMetrics {
                current_pending: count,
                max_pending_reached: if count > old(self).max_pending_reached { count } else { old(self).max_pending_reached },
                ..*old(self)
            }),
    {
        self.current_pending = count;
        if count > self.max_pending_reached {
            self.max_pending_reached = count;
        }
    }

    /// Fold a delivery latency into the moving average.
    pub fn record_latency(&mut self, latency_ms: u64)
        requires
            old(self).avg_latency_ms * 7 + latency_ms <= u64::MAX,
        ensures
            *final(self) == (BackpressureMetrics { avg_latency_ms: next_average(old(self).avg_latency_ms, latency_ms), ..*old(self) }),
    {
        let current = self.avg_latency_ms;
        let new_avg = if current == 0 { latency_ms } else { (current * 7 + latency_ms) / 8 };
        self.avg_latency_ms = new_avg;
    }

    /// The counters as they stand.
    pub fn get_snapshot(&self) -> (r: BackpressureSnapshot)
        ensures
            r == (BackpressureSnapshot {
                total_sent: self.total_sent,
                total_received: self.total_received,
                total_dropped: self.total_dropped,
                total_timeouts: self.total_timeouts,
                current_pending: self.current_pending,
                max_pending_reached: self.max_pending_reached,
                avg_latency_ms: self.avg_latency_ms,
            }),
    {
        BackpressureSnapshot {
            total_sent: self.total_sent,
            total_received: self.total_received,
            total_dropped: self.total_dropped,
            total_timeouts: self.total_timeouts,
            current_pending: self.current_pending,
            max_pending_reached: self.max_pending_reached,
            avg_latency_ms: self.avg_latency_ms,
        }
    }
}

/// The capacity of each of the four priority queues that share a budget.
pub fn per_priority_capacity(max_pending: usize) -> (r: usize)
    ensures
        r == max_pending / 4,
{
    max_pending / 4
}

/// The queue to take the next message from: the highest priority whose
/// queue has a message waiting.
pub open spec fn pick_spec(critical: bool, high: bool, normal: bool, low: bool) -> Option<Priority> {
    if critical {
        Some(Priority::Critical)
    } else if high {
        Some(Priority::High)
    } else if normal {
        Some(Priority::Normal)
    } else if low {
        Some(Priority::Low)
    } else {
        None
    }
}

/// Choose the queue to take the next message from, given which queues have
/// a message waiting.
pub fn select_priority(critical: bool, high: bool, normal: bool, low: bool) -> (r: Option<Priority>)
    ensures
        r == pick_spec(critical, high, normal, low),
{
    if critical {
        Some(Priority::Critical)
    } else if high {
        Some(Priority::High)
    } else if normal {
        Some(Priority::Normal)
    } else if low {
        Some(Priority::Low)
    } else {
        None
    }
}

/// A message is never taken from a queue while a queue of higher priority
/// has one waiting.
pub proof fn lemma_priority_respected(critical: bool, high: bool, normal: bool, low: bool)
    ensures
        pick_spec(critical, high, normal, low) matches Some(p) ==> (
            (critical ==> priority_level(p) == 3)
            && (high ==> priority_level(p) >= 2)
            && (normal ==> priority_level(p) >= 1)),
        pick_spec(critical, high, normal, low) is None <==> !(critical || high || normal || low),
{
}

/// A counter of a snapshot, by position: 0 sent, 1 received, 2 dropped,
/// 3 timeouts, 4 pending, and 5 the latency weighted by the messages
/// received (zero when none were).
pub open spec fn counter(x: BackpressureSnapshot, k: nat) -> int {
    if k == 0 {
        x.total_sent as int
    } else if k == 1 {
        x.total_received as int
    } else if k == 2 {
        x.total_dropped as int
    } else if k == 3 {
        x.total_timeouts as int
    } else if k == 4 {
        x.current_pending as int
    } else if x.total_received > 0 {
        x.avg_latency_ms * x.total_received
    } else {
        0
    }
}

/// The sum of a counter over the first `n` snapshots.
pub open spec fn sum_of(s: Seq<BackpressureSnapshot>, k: nat, n: int) -> int
    decreases n,
{
    if n <= 0 { 0 } else { sum_of(s, k, n - 1) + counter(s[n - 1], k) }
}

/// The largest recorded maximum among the first `n` snapshots (zero if none).
pub open spec fn max_pending_of(s: Seq<BackpressureSnapshot>, n: int) -> int
    decreases n,
{
    if n <= 0 { 0 } else {
        let m = max_pending_of(s, n - 1);
        if s[n - 1].max_pending_reached > m { s[n - 1].max_pending_reached as int } else { m }
    }
}

/// The combined counters fit their types.
pub open spec fn aggregate_fits(s: Seq<BackpressureSnapshot>) -> bool {
    &&& sum_of(s, 0, s.len() as int) <= u64::MAX
    &&& sum_of(s, 1, s.len() as int) <= u64::MAX
    &&& sum_of(s, 2, s.len() as int) <= u64::MAX
    &&& sum_of(s, 3, s.len() as int) <= u64::MAX
    &&& sum_of(s, 4, s.len() as int) <= usize::MAX
    &&& sum_of(s, 5, s.len() as int) <= u64::MAX
}

/// The counters of several queues combined: totals and pending counts
/// added, the largest maximum, and the average latency weighted by the
/// messages each queue received (zero when none received any).
pub open spec fn aggregate_spec(s: Seq<BackpressureSnapshot>) -> BackpressureSnapshot {
    let n = s.len() as int;
    BackpressureSnapshot {
        total_sent: sum_of(s, 0, n) as u64,
        total_received: sum_of(s, 1, n) as u64,
        total_dropped: sum_of(s, 2, n) as u64,
        total_timeouts: sum_of(s, 3, n) as u64,
        current_pending: sum_of(s, 4, n) as usize,
        max_pending_reached: max_pending_of(s, n) as usize,
        avg_latency_ms: if sum_of(s, 1, n) > 0 { (sum_of(s, 5, n) / sum_of(s, 1, n)) as u64 } else { 0 },
    }
}

proof fn lemma_counter_nonneg(x: BackpressureSnapshot, k: nat)
    ensures
        counter(x, k) >= 0,
{
    if k >= 5 && x.total_received > 0 {
        assert(x.avg_latency_ms * x.total_received >= 0) by (nonlinear_arith);
    }
}

proof fn lemma_sum_monotone(s: Seq<BackpressureSnapshot>, k: nat, a: int, b: int)
    requires
        0 <= a <= b <= s.len(),
    ensures
        0 <= sum_of(s, k, a) <= sum_of(s, k, b),
    decreases b - a,
{
    if a < b {
        lemma_sum_monotone(s, k, a, b - 1);
        lemma_counter_nonneg(s[b - 1], k);
    } else {
        lemma_sum_nonneg(s, k, a);
    }
}

proof fn lemma_sum_nonneg(s: Seq<BackpressureSnapshot>, k: nat, n: int)
    requires
        n <= s.len(),
    ensures
        sum_of(s, k, n) >= 0,
    decreases n,
{
    if n > 0 {
        lemma_sum_nonneg(s, k, n - 1);
        lemma_counter_nonneg(s[n - 1], k);
    }
}

/// Combine the counters of several queues.
pub fn aggregate_metrics(snapshots: &Vec<BackpressureSnapshot>) -> (r: BackpressureSnapshot)
    requires
        aggregate_fits(snapshots@),
    ensures
        r == aggregate_spec(snapshots@),
{
    let ghost s = snapshots@;
    let mut sent: u64 = 0;
    let mut received: u64 = 0;
    let mut dropped: u64 = 0;
    let mut timeouts: u64 = 0;
    let mut pending: usize = 0;
    let mut max_pending: usize = 0;
    let mut latency_sum: u64 = 0;
    let mut i: usize = 0;
    while i < snapshots.len()
        invariant
            s == snapshots@,
            i <= s.len(),
            aggregate_fits(s),
            sent == sum_of(s, 0, i as int),
            received == sum_of(s, 1, i as int),
            dropped == sum_of(s, 2, i as int),
            timeouts == sum_of(s, 3, i as int),
            pending == sum_of(s, 4, i as int),
            max_pending == max_pending_of(s, i as int),
            latency_sum == sum_of(s, 5, i as int),
        decreases s.len() - i,
    {
        let m = snapshots[i];
        proof {
            let k = i as int + 1;
            let n = s.len() as int;
            lemma_sum_monotone(s, 0, k, n);
            lemma_sum_monotone(s, 1, k, n);
            lemma_sum_monotone(s, 2, k, n);
            lemma_sum_monotone(s, 3, k, n);
            lemma_sum_monotone(s, 4, k, n);
            lemma_sum_monotone(s, 5, k, n);
        }
        sent = sent + m.total_sent;
        received = received + m.total_received;
        dropped = dropped + m.total_dropped;
        timeouts = timeouts + m.total_timeouts;
        pending = pending + m.current_pending;
        if m.max_pending_reached > max_pending {
            max_pending = m.max_pending_reached;
        }
        if m.total_received > 0 {
            proof {
                assert(counter(m, 5) == m.avg_latency_ms * m.total_received);
                assert(sum_of(s, 5, i as int + 1) == latency_sum + m.avg_latency_ms * m.total_received);
            }
            latency_sum = latency_sum + m.avg_latency_ms * m.total_received;
        }
        i = i + 1;
    }
    let avg = if received > 0 { latency_sum / received } else { 0 };
    BackpressureSnapshot {
        total_sent: sent,
        total_received: received,
        total_dropped: dropped,
        total_timeouts: timeouts,
        current_pending: pending,
        max_pending_reached: max_pending,
        avg_latency_ms: avg,
    }
}

/// Ways a send can fail.
#[derive(Debug, Clone, Copy, PartialEq, Eq, Structural)]
pub enum SendFailure {
    /// No send permit became free within the send timeout
    PermitTimeout,
    /// The permit pool was closed
    PermitsClosed,
    /// The channel was closed
    ChannelClosed,
    /// The message was not accepted within the send timeout
    SendTimeout,
    /// A non-blocking send found no free permit
    AtCapacity,
    /// A non-blocking send found the channel full
    ChannelFull,
}

/// Ways a non-blocking receive can fail.
#[derive(Debug, Clone, Copy, PartialEq, Eq, Structural)]
pub enum RecvFailure {
    /// No message was waiting
    Empty,
    /// Every sender is gone
    Disconnected,
}

/// The error a send failure is reported with.
pub open spec fn send_error_spec(f: SendFailure, timeout_ms: u64, e: RaftError) -> bool {
    match f {
        SendFailure::PermitTimeout => e matches RaftError::Timeout { operation, duration_ms }
            && operation@ == "acquire send permit"@ && duration_ms == timeout_ms,
        SendFailure::SendTimeout => e matches RaftError::Timeout { operation, duration_ms }
            && operation@ == "send message"@ && duration_ms == timeout_ms,
        SendFailure::PermitsClosed => e matches RaftError::Internal { message } && message@ == "Semaphore closed"@,
        SendFailure::ChannelClosed => e matches RaftError::Internal { message } && message@ == "Channel closed"@,
        SendFailure::AtCapacity => e matches RaftError::Internal { message } && message@ == "Channel at capacity"@,
        SendFailure::ChannelFull => e matches RaftError::Internal { message } && message@ == "Channel full"@,
    }
}

/// The error to report for a failed send whose timeout is `timeout_ms`.
pub fn send_error(f: SendFailure, timeout_ms: u64) -> (r: RaftError)
    ensures
        send_error_spec(f, timeout_ms, r),
{
    match f {
        SendFailure::PermitTimeout => RaftError::Timeout { operation: String::from_str("acquire send permit"), duration_ms: timeout_ms },
        SendFailure::SendTimeout => RaftError::Timeout { operation: String::from_str("send message"), duration_ms: timeout_ms },
        SendFailure::PermitsClosed => RaftError::Internal { message: String::from_str("Semaphore closed") },
        SendFailure::ChannelClosed => RaftError::Internal { message: String::from_str("Channel closed") },
        SendFailure::AtCapacity => RaftError::Internal { message: String::from_str("Channel at capacity") },
        SendFailure::ChannelFull => RaftError::Internal { message: String::from_str("Channel full") },
    }
}

/// The error to report for a failed non-blocking receive.
pub fn recv_error(f: RecvFailure) -> (r: RaftError)
    ensures
        f == RecvFailure::Empty ==> (r matches RaftError::Internal { message } && message@ == "No messages available"@),
        f == RecvFailure::Disconnected ==> (r matches RaftError::Internal { message } && message@ == "Channel disconnected"@),
{
    match f {
        RecvFailure::Empty => RaftError::Internal { message: String::from_str("No messages available") },
        RecvFailure::Disconnected => RaftError::Internal { message: String::from_str("Channel disconnected") },
    }
}

} // verus!
