//! Circuit breaker: fails fast while a protected service keeps failing, and
//! probes it again after a timeout.
//!
//! Times are milliseconds on a monotonic clock, handed in by the caller.
//! The protected operation itself runs outside: the caller asks
//! [`CircuitBreaker::begin_call`] whether it may run, runs it, and reports
//! its outcome to [`CircuitBreaker::finish_call`].

use vstd::prelude::*;
use vstd::string::StringExecFns;
use crate::error::RaftError;

verus! {

/// Window in which failures count towards opening the circuit, in ms.
pub const FAILURE_WINDOW_MS: u64 = 60_000;

/// Circuit breaker states.
#[derive(Debug, Clone, Copy, PartialEq, Eq, Structural)]
pub enum CircuitBreakerState {
    /// Normal operation: all requests pass through
    Closed,
    /// Failure threshold exceeded: all requests fail fast
    Open,
    /// Testing whether the service has recovered: limited requests pass
    HalfOpen,
}

/// Configuration of a circuit breaker.
#[derive(Debug, Clone, Copy, PartialEq, Eq, Structural)]
pub struct CircuitBreakerConfig {
    /// Number of failures within the window that opens the circuit
    pub failure_threshold: u32,
    /// Time to wait before probing an open circuit, in milliseconds
    pub timeout_ms: u64,
    /// Number of successes in half-open state that closes the circuit
    pub success_threshold: u32,
    /// Maximum number of requests allowed in half-open state
    pub half_open_max_requests: u32,
    /// Window size for failure rate calculation
    pub failure_rate_window: u32,
    /// Minimum throughput required before calculating failure rate
    pub minimum_throughput: u32,
}

impl Default for CircuitBreakerConfig {
    fn default() -> (r: Self)
        ensures
            r == (CircuitBreakerConfig {
                failure_threshold: 5,
                timeout_ms: 60_000,
                success_threshold: 3,
                half_open_max_requests: 5,
                failure_rate_window: 20,
                minimum_throughput: 10,
            }),
    {
        CircuitBreakerConfig {
            failure_threshold: 5,
            timeout_ms: 60_000,
            success_threshold: 3,
            half_open_max_requests: 5,
            failure_rate_window: 20,
            minimum_throughput: 10,
        }
    }
}

/// Counters of a circuit breaker.  They wrap around on overflow.
#[derive(Debug, Clone, Copy, PartialEq, Eq, Structural)]
pub struct CircuitBreakerMetrics {
    /// Total number of requests
    pub total_requests: u64,
    /// Total number of successful requests
    pub total_successes: u64,
    /// Total number of failed requests
    pub total_failures: u64,
    /// Number of requests rejected by the circuit breaker
    pub rejected_requests: u64,
    /// Number of times the circuit has opened
    pub circuit_opened_count: u32,
    /// Number of times the circuit has closed
    pub circuit_closed_count: u32,
}

/// One more, wrapping around past the largest value.
pub open spec fn bump64(x: u64) -> u64 {
    if x == u64::MAX { 0 } else { (x + 1) as u64 }
}

/// One more, wrapping around past the largest value.
pub open spec fn bump32(x: u32) -> u32 {
    if x == u32::MAX { 0 } else { (x + 1) as u32 }
}

impl Default for CircuitBreakerMetrics {
    fn default() -> (r: Self)
        ensures
            r == CircuitBreakerMetrics::zero(),
    {
        CircuitBreakerMetrics {
            total_requests: 0,
            total_successes: 0,
            total_failures: 0,
            rejected_requests: 0,
            circuit_opened_count: 0,
            circuit_closed_count: 0,
        }
    }
}

impl CircuitBreakerMetrics {
    /// All counters zero.
    pub open spec fn zero() -> CircuitBreakerMetrics {
        CircuitBreakerMetrics {
            total_requests: 0,
            total_successes: 0,
            total_failures: 0,
            rejected_requests: 0,
            circuit_opened_count: 0,
            circuit_closed_count: 0,
        }
    }

    /// Count a request.
    pub fn record_request(&mut self)
        ensures
            *final(self) == (CircuitBreakerMetrics { total_requests: bump64(old(self).total_requests), ..*old(self) }),
    {
        self.total_requests = self.total_requests.wrapping_add(1);
    }

    /// Count a success.
    pub fn record_success(&mut self)
        ensures
            *final(self) == (CircuitBreakerMetrics { total_successes: bump64(old(self).total_successes), ..*old(self) }),
    {
        self.total_successes = self.total_successes.wrapping_add(1);
    }

    /// Count a failure.
    pub fn record_failure(&mut self)
        ensures
            *final(self) == (CircuitBreakerMetrics { total_failures: bump64(old(self).total_failures), ..*old(self) }),
    {
        self.total_failures = self.total_failures.wrapping_add(1);
    }

    /// Count a rejected request.
    pub fn record_rejection(&mut self)
        ensures
            *final(self) == (CircuitBreakerMetrics { rejected_requests: bump64(old(self).rejected_requests), ..*old(self) }),
    {
        self.rejected_requests = self.rejected_requests.wrapping_add(1);
    }

    /// Count an opening of the circuit.
    pub fn record_circuit_opened(&mut self)
        ensures
            *final(self) == (CircuitBreakerMetrics { circuit_opened_count: bump32(old(self).circuit_opened_count), ..*old(self) }),
    {
        self.circuit_opened_count = self.circuit_opened_count.wrapping_add(1);
    }

    /// Count a closing of the circuit.
    pub fn record_circuit_closed(&mut self)
        ensures
            *final(self) == (CircuitBreakerMetrics { circuit_closed_count: bump32(old(self).circuit_closed_count), ..*old(self) }),
    {
        self.circuit_closed_count = self.circuit_closed_count.wrapping_add(1);
    }

    /// The counters as they stand.
    pub fn get_snapshot(&self) -> (r: CircuitBreakerMetrics)
        ensures
            r == *self,
    {
        *self
    }
}

/// The failures still inside the window at `now_ms`: the oldest ones that
/// lie more than the window before `now_ms` are dropped, from the front.
pub open spec fn drop_expired(s: Seq<u64>, now_ms: u64) -> Seq<u64>
    decreases s.len(),
{
    if s.len() > 0 && s[0] + FAILURE_WINDOW_MS < now_ms {
        drop_expired(s.drop_first(), now_ms)
    } else {
        s
    }
}

/// The abstract state of a circuit breaker.
pub struct BreakerView {
    /// Current state
    pub state: CircuitBreakerState,
    /// Configuration
    pub config: CircuitBreakerConfig,
    /// Counters
    pub metrics: CircuitBreakerMetrics,
    /// Time of the last failure, if any since the circuit last closed
    pub last_failure_ms: Option<u64>,
    /// Requests let through since the circuit last became half-open
    pub half_open_requests: u32,
    /// Successes since the circuit last became half-open
    pub half_open_successes: u32,
    /// Times of the recent failures, oldest first
    pub recent_failures: Seq<u64>,
}

/// Circuit breaker protecting one service.
pub struct CircuitBreaker {
    state: CircuitBreakerState,
    config: CircuitBreakerConfig,
    metrics: CircuitBreakerMetrics,
    last_failure_ms: Option<u64>,
    half_open_requests: u32,
    half_open_successes: u32,
    recent_failures: Vec<u64>,
}

/// The time elapsed from `since` to `now`, zero when `since` is later.
pub open spec fn elapsed(now_ms: u64, since_ms: u64) -> int {
    if now_ms >= since_ms { now_ms - since_ms } else { 0 }
}

impl View for CircuitBreaker {
    type V = BreakerView;

    closed spec fn view(&self) -> BreakerView {
        BreakerView {
            state: self.state,
            config: self.config,
            metrics: self.metrics,
            last_failure_ms: self.last_failure_ms,
            half_open_requests: self.half_open_requests,
            half_open_successes: self.half_open_successes,
            recent_failures: self.recent_failures@,
        }
    }
}

impl BreakerView {
    /// A closed breaker with zero counters and no failures.
    pub open spec fn fresh(config: CircuitBreakerConfig) -> BreakerView {
        BreakerView {
            state: CircuitBreakerState::Closed,
            config,
            metrics: CircuitBreakerMetrics::zero(),
            last_failure_ms: None,
            half_open_requests: 0,
            half_open_successes: 0,
            recent_failures: Seq::empty(),
        }
    }

    /// Well-formed: in half-open state fewer successes than the threshold
    /// have been seen (or none yet).
    pub open spec fn wf(self) -> bool {
        self.state == CircuitBreakerState::HalfOpen ==>
            (self.half_open_successes == 0 || self.half_open_successes < self.config.success_threshold)
    }

    /// The view after an allowed or refused request at `now_ms`, and whether
    /// the request is allowed.
    pub open spec fn allow(self, now_ms: u64) -> (BreakerView, bool) {
        match self.state {
            CircuitBreakerState::Closed => (self, true),
            CircuitBreakerState::Open => {
                if self.last_failure_ms matches Some(t) && elapsed(now_ms, t) > self.config.timeout_ms {
                    (BreakerView { state: CircuitBreakerState::HalfOpen, half_open_requests: 0, half_open_successes: 0, ..self }, true)
                } else {
                    (self, false)
                }
            },
            CircuitBreakerState::HalfOpen => {
                if self.half_open_requests < self.config.half_open_max_requests {
                    (BreakerView { half_open_requests: (self.half_open_requests + 1) as u32, ..self }, true)
                } else {
                    (self, false)
                }
            },
        }
    }

    /// The view after a success at `now_ms`.
    pub open spec fn succeed(self, now_ms: u64) -> BreakerView {
        if self.state == CircuitBreakerState::HalfOpen {
            let s = (self.half_open_successes + 1) as u32;
            if s >= self.config.success_threshold {
                BreakerView {
                    state: CircuitBreakerState::Closed,
                    half_open_successes: s,
                    last_failure_ms: None,
                    recent_failures: Seq::empty(),
                    metrics: CircuitBreakerMetrics { circuit_closed_count: bump32(self.metrics.circuit_closed_count), ..self.metrics },
                    ..self
                }
            } else {
                BreakerView { half_open_successes: s, ..self }
            }
        } else {
            BreakerView { recent_failures: drop_expired(self.recent_failures, now_ms), ..self }
        }
    }

    /// The view after a failure at `now_ms`.
    pub open spec fn fail(self, now_ms: u64) -> BreakerView {
        let recent = drop_expired(self.recent_failures.push(now_ms), now_ms);
        let base = BreakerView { last_failure_ms: Some(now_ms), recent_failures: recent, ..self };
        let opens = match self.state {
            CircuitBreakerState::Closed => recent.len() >= self.config.failure_threshold,
            CircuitBreakerState::HalfOpen => true,
            CircuitBreakerState::Open => false,
        };
        if opens {
            BreakerView {
                state: CircuitBreakerState::Open,
                metrics: CircuitBreakerMetrics { circuit_opened_count: bump32(self.metrics.circuit_opened_count), ..self.metrics },
                ..base
            }
        } else {
            base
        }
    }
}

fn drop_expired_front(v: &mut Vec<u64>, now_ms: u64)
    ensures
        final(v)@ == drop_expired(old(v)@, now_ms),
{
    while v.len() > 0 && v[0] < now_ms && now_ms - v[0] > FAILURE_WINDOW_MS
        invariant
            drop_expired(v@, now_ms) == drop_expired(old(v)@, now_ms),
        decreases v@.len(),
    {
        let ghost before = v@;
        v.remove(0);
        assert(v@ =~= before.drop_first());
    }
}

impl CircuitBreaker {
    /// Create a closed circuit breaker with zero counters.
    pub fn new(config: CircuitBreakerConfig) -> (r: Self)
        ensures
            r@.wf(),
            r@ == BreakerView::fresh(config),
    {
        CircuitBreaker {
            state: CircuitBreakerState::Closed,
            config,
            metrics: CircuitBreakerMetrics::default(),
            last_failure_ms: None,
            half_open_requests: 0,
            half_open_successes: 0,
            recent_failures: Vec::new(),
        }
    }

    /// Whether a request may run at `now_ms`: always when closed; when open
    /// only once the timeout has passed since the last failure, which makes
    /// the circuit half-open; when half-open while fewer than the allowed
    /// number of probes have run.
    pub fn allow_request(&mut self, now_ms: u64) -> (r: bool)
        requires
            old(self)@.wf(),
        ensures
            final(self)@.wf(),
            (final(self)@, r) == old(self)@.allow(now_ms),
    {
        match self.state {
            CircuitBreakerState::Closed => true,
            CircuitBreakerState::Open => {
                match self.last_failure_ms {
                    Some(t) => {
                        let waited: u64 = if now_ms >= t { now_ms - t } else { 0 };
                        if waited > self.config.timeout_ms {
                            self.state = CircuitBreakerState::HalfOpen;
                            self.half_open_requests = 0;
                            self.half_open_successes = 0;
                            return true;
                        }
                        false
                    },
                    None => false,
                }
            },
            CircuitBreakerState::HalfOpen => {
                if self.half_open_requests < self.config.half_open_max_requests {
                    self.half_open_requests = self.half_open_requests + 1;
                    true
                } else {
                    false
                }
            },
        }
    }

    /// Drop the failures that have left the window at `now_ms`.
    pub fn clean_old_failures(&mut self, now_ms: u64)
        requires
            old(self)@.wf(),
        ensures
            final(self)@.wf(),
            final(self)@ == (BreakerView { recent_failures: drop_expired(old(self)@.recent_failures, now_ms), ..old(self)@ }),
    {
        drop_expired_front(&mut self.recent_failures, now_ms);
    }

    /// Handle a successful request at `now_ms`: in half-open state count it
    /// and close the circuit once enough have succeeded; otherwise drop the
    /// expired failures.
    pub fn on_success(&mut self, now_ms: u64)
        requires
            old(self)@.wf(),
        ensures
            final(self)@.wf(),
            final(self)@ == old(self)@.succeed(now_ms),
    {
        if self.state == CircuitBreakerState::HalfOpen {
            let s = self.half_open_successes + 1;
            self.half_open_successes = s;
            if s >= self.config.success_threshold {
                self.state = CircuitBreakerState::Closed;
                self.last_failure_ms = None;
                self.recent_failures = Vec::new();
                self.metrics.record_circuit_closed();
            }
        } else {
            self.clean_old_failures(now_ms);
        }
    }

    /// Handle a failed request at `now_ms`: remember it, and open the
    /// circuit when closed with enough recent failures, or when half-open.
    pub fn on_failure(&mut self, now_ms: u64)
        requires
            old(self)@.wf(),
        ensures
            final(self)@.wf(),
            final(self)@ == old(self)@.fail(now_ms),
    {
        self.last_failure_ms = Some(now_ms);
        self.recent_failures.push(now_ms);
        drop_expired_front(&mut self.recent_failures, now_ms);
        match self.state {
            CircuitBreakerState::Closed => {
                if self.recent_failures.len() as u64 >= self.config.failure_threshold as u64 {
                    self.state = CircuitBreakerState::Open;
                    self.metrics.record_circuit_opened();
                }
            },
            CircuitBreakerState::HalfOpen => {
                self.state = CircuitBreakerState::Open;
                self.metrics.record_circuit_opened();
            },
            CircuitBreakerState::Open => {},
        }
    }

    /// Ask to run a protected request at `now_ms`.  When the breaker refuses
    /// it, the rejection is counted and the error says the circuit is open;
    /// otherwise the request is counted.
    pub fn begin_call(&mut self, now_ms: u64) -> (r: Result<(), RaftError>)
        requires
            old(self)@.wf(),
        ensures
            final(self)@.wf(),
            ({
                let (v, allowed) = old(self)@.allow(now_ms);
                &&& (r is Ok <==> allowed)
                &&& allowed ==> final(self)@ == (BreakerView { metrics: CircuitBreakerMetrics { total_requests: bump64(v.metrics.total_requests), ..v.metrics }, ..v })
                &&& !allowed ==> final(self)@ == (BreakerView { metrics: CircuitBreakerMetrics { rejected_requests: bump64(v.metrics.rejected_requests), ..v.metrics }, ..v })
            }),
            r matches Err(e) ==> (e matches RaftError::CircuitBreakerOpen { message } && message@ == "Circuit breaker is open"@),
    {
        if !self.allow_request(now_ms) {
            self.metrics.record_rejection();
            return Err(RaftError::CircuitBreakerOpen { message: String::from_str("Circuit breaker is open") });
        }
        self.metrics.record_request();
        Ok(())
    }

    /// Report the outcome of a protected request at `now_ms`: a value, or
    /// the text of its error.  A failure is reported as an internal error
    /// that quotes it.
    pub fn finish_call<T>(&mut self, outcome: Result<T, String>, now_ms: u64) -> (r: Result<T, RaftError>)
        requires
            old(self)@.wf(),
        ensures
            final(self)@.wf(),
            outcome is Ok ==> ({
                let v = old(self)@.succeed(now_ms);
                final(self)@ == (BreakerView { metrics: CircuitBreakerMetrics { total_successes: bump64(v.metrics.total_successes), ..v.metrics }, ..v })
            }),
            outcome is Err ==> ({
                let v = old(self)@.fail(now_ms);
                final(self)@ == (BreakerView { metrics: CircuitBreakerMetrics { total_failures: bump64(v.metrics.total_failures), ..v.metrics }, ..v })
            }),
            match outcome {
                Ok(x) => r == Ok::<T, RaftError>(x),
                Err(m) => r matches Err(RaftError::Internal { message })
                    && message@ == "Circuit breaker protected operation failed: "@ + m@,
            },
    {
        match outcome {
            Ok(x) => {
                self.on_success(now_ms);
                self.metrics.record_success();
                Ok(x)
            },
            Err(m) => {
                self.on_failure(now_ms);
                self.metrics.record_failure();
                let mut message = String::from_str("Circuit breaker protected operation failed: ");
                message.append(m.as_str());
                Err(RaftError::Internal { message })
            },
        }
    }

    /// The current state.
    pub fn state(&self) -> (r: CircuitBreakerState)
        ensures
            r == self@.state,
    {
        self.state
    }

    /// The counters.
    pub fn metrics(&self) -> (r: CircuitBreakerMetrics)
        ensures
            r == self@.metrics,
    {
        self.metrics
    }

    /// Open the circuit at `now_ms`, as if a failure had just happened.
    pub fn force_open(&mut self, now_ms: u64)
        requires
            old(self)@.wf(),
        ensures
            final(self)@.wf(),
            final(self)@ == (BreakerView {
                state: CircuitBreakerState::Open,
                last_failure_ms: Some(now_ms),
                metrics: CircuitBreakerMetrics { circuit_opened_count: bump32(old(self)@.metrics.circuit_opened_count), ..old(self)@.metrics },
                ..old(self)@
            }),
    {
        self.state = CircuitBreakerState::Open;
        self.last_failure_ms = Some(now_ms);
        self.metrics.record_circuit_opened();
    }

    /// Close the circuit and forget the failures.
    pub fn force_close(&mut self)
        requires
            old(self)@.wf(),
        ensures
            final(self)@.wf(),
            final(self)@ == (BreakerView {
                state: CircuitBreakerState::Closed,
                last_failure_ms: None,
                recent_failures: Seq::empty(),
                metrics: CircuitBreakerMetrics { circuit_closed_count: bump32(old(self)@.metrics.circuit_closed_count), ..old(self)@.metrics },
                ..old(self)@
            }),
    {
        self.state = CircuitBreakerState::Closed;
        self.last_failure_ms = None;
        self.recent_failures = Vec::new();
        self.metrics.record_circuit_closed();
    }
}

/// A closed circuit opens on the failure that brings the failures inside
/// the window to the threshold, and not before.
pub proof fn lemma_threshold_opens(b: BreakerView, now_ms: u64)
    requires
        b.state == CircuitBreakerState::Closed,
    ensures
        b.fail(now_ms).state == CircuitBreakerState::Open
            <==> drop_expired(b.recent_failures.push(now_ms), now_ms).len() >= b.config.failure_threshold,
{
}

/// Dropping expired failures removes only a run of expired failures from
/// the front: what is left is the rest of the list, unchanged.
pub proof fn lemma_drop_expired_keeps_rest(s: Seq<u64>, now_ms: u64) -> (k: int)
    ensures
        0 <= k <= s.len(),
        drop_expired(s, now_ms) == s.subrange(k, s.len() as int),
        forall|i: int| 0 <= i < k ==> #[trigger] s[i] + FAILURE_WINDOW_MS < now_ms,
    decreases s.len(),
{
    if s.len() > 0 && s[0] + FAILURE_WINDOW_MS < now_ms {
        let k1 = lemma_drop_expired_keeps_rest(s.drop_first(), now_ms);
        assert(s.drop_first().subrange(k1, s.drop_first().len() as int) =~= s.subrange(k1 + 1, s.len() as int));
        assert forall|i: int| 0 <= i < k1 + 1 implies #[trigger] s[i] + FAILURE_WINDOW_MS < now_ms by {
            if i > 0 {
                assert(s[i] == s.drop_first()[i - 1]);
            }
        }
        k1 + 1
    } else {
        assert(s.subrange(0, s.len() as int) =~= s);
        0
    }
}

/// A success on a closed circuit forgets only failures that have left the
/// window: every recorded failure still inside the window at that instant
/// is kept, in place, and the state stays closed.
pub proof fn lemma_closed_success_keeps_recent_failures(b: BreakerView, now_ms: u64)
    requires
        b.state == CircuitBreakerState::Closed,
    ensures
        b.succeed(now_ms).state == CircuitBreakerState::Closed,
        b.succeed(now_ms).config == b.config,
        b.succeed(now_ms).metrics == b.metrics,
        b.succeed(now_ms).last_failure_ms == b.last_failure_ms,
        exists|k: int| 0 <= k <= b.recent_failures.len()
            && b.succeed(now_ms).recent_failures == b.recent_failures.subrange(k, b.recent_failures.len() as int)
            && forall|i: int| 0 <= i < k ==> #[trigger] b.recent_failures[i] + FAILURE_WINDOW_MS < now_ms,
        forall|i: int| 0 <= i < b.recent_failures.len() && #[trigger] b.recent_failures[i] + FAILURE_WINDOW_MS >= now_ms
            ==> b.succeed(now_ms).recent_failures.contains(b.recent_failures[i]),
{
    let s = b.recent_failures;
    let k = lemma_drop_expired_keeps_rest(s, now_ms);
    let kept = b.succeed(now_ms).recent_failures;
    assert(kept == s.subrange(k, s.len() as int));
    assert forall|i: int| 0 <= i < s.len() && #[trigger] s[i] + FAILURE_WINDOW_MS >= now_ms
        implies kept.contains(s[i]) by {
        assert(i >= k);
        assert(kept[i - k] == s[i]);
    }
}

/// Any failure while half-open opens the circuit again.
pub proof fn lemma_half_open_failure_reopens(b: BreakerView, now_ms: u64)
    requires
        b.state == CircuitBreakerState::HalfOpen,
    ensures
        b.fail(now_ms).state == CircuitBreakerState::Open,
        b.fail(now_ms).last_failure_ms == Some(now_ms),
{
}

/// An open circuit refuses every request until more than the timeout has
/// passed since the last failure, and then lets one through half-open.
pub proof fn lemma_open_waits_for_timeout(b: BreakerView, now_ms: u64)
    requires
        b.state == CircuitBreakerState::Open,
        b.last_failure_ms is Some,
    ensures
        b.allow(now_ms).1 <==> elapsed(now_ms, b.last_failure_ms->0) > b.config.timeout_ms,
        b.allow(now_ms).1 ==> b.allow(now_ms).0.state == CircuitBreakerState::HalfOpen,
        !b.allow(now_ms).1 ==> b.allow(now_ms).0 == b,
{
}

/// A closed circuit lets every request through and stays closed; success
/// never opens a circuit.
pub proof fn lemma_closed_allows(b: BreakerView, now_ms: u64)
    requires
        b.state == CircuitBreakerState::Closed,
    ensures
        b.allow(now_ms) == (b, true),
        b.succeed(now_ms).state == CircuitBreakerState::Closed,
{
}

/// After the timeout, a half-open circuit that sees `success_threshold`
/// successes in a row (with no failure) is closed again.
pub proof fn lemma_successes_close(b: BreakerView, now_ms: u64, k: nat)
    requires
        b.wf(),
        b.state == CircuitBreakerState::HalfOpen,
        b.half_open_successes == 0,
        1 <= b.config.success_threshold,
        k == b.config.success_threshold,
    ensures
        successes(b, now_ms, k).state == CircuitBreakerState::Closed,
        forall|j: nat| j < k ==> #[trigger] successes(b, now_ms, j).state == CircuitBreakerState::HalfOpen,
{
    assert forall|j: nat| j < k implies #[trigger] successes(b, now_ms, j).state == CircuitBreakerState::HalfOpen by {
        lemma_successes_count(b, now_ms, j, k);
    }
    lemma_successes_count(b, now_ms, k, k);
}

/// The view after `n` successes in a row at `now_ms`.
pub open spec fn successes(b: BreakerView, now_ms: u64, n: nat) -> BreakerView
    decreases n,
{
    if n == 0 { b } else { successes(b, now_ms, (n - 1) as nat).succeed(now_ms) }
}

proof fn lemma_successes_count(b: BreakerView, now_ms: u64, j: nat, k: nat)
    requires
        b.state == CircuitBreakerState::HalfOpen,
        b.half_open_successes == 0,
        k == b.config.success_threshold,
        1 <= k,
        j <= k,
    ensures
        successes(b, now_ms, j).half_open_successes == j,
        successes(b, now_ms, j).config == b.config,
        j < k ==> successes(b, now_ms, j).state == CircuitBreakerState::HalfOpen,
        j == k ==> successes(b, now_ms, j).state == CircuitBreakerState::Closed,
    decreases j,
{
    if j > 0 {
        lemma_successes_count(b, now_ms, (j - 1) as nat, k);
    }
}

/// Circuit breakers for several services, created on first use.
pub struct CircuitBreakerManager {
    breakers: Vec<(String, CircuitBreaker)>,
    default_config: CircuitBreakerConfig,
}

impl CircuitBreakerManager {
    /// The service names and the views of their breakers, in creation order.
    pub closed spec fn entries(&self) -> Seq<(Seq<char>, BreakerView)> {
        self.breakers@.map_values(|e: (String, CircuitBreaker)| (e.0@, e.1@))
    }

    /// The configuration new breakers get.
    pub closed spec fn default_config(&self) -> CircuitBreakerConfig {
        self.default_config
    }

    /// Well-formed: each name occurs once and each breaker is well-formed.
    pub open spec fn wf(&self) -> bool {
        &&& forall|i: int, j: int| 0 <= i < j < self.entries().len() ==> self.entries()[i].0 != self.entries()[j].0
        &&& forall|i: int| 0 <= i < self.entries().len() ==> (#[trigger] self.entries()[i]).1.wf()
    }

    /// A manager with no breakers yet.
    pub fn new(default_config: CircuitBreakerConfig) -> (r: Self)
        ensures
            r.wf(),
            r.entries().len() == 0,
            r.default_config() == default_config,
    {
        CircuitBreakerManager { breakers: Vec::new(), default_config }
    }

    /// The position of the breaker of a service, creating a closed one with
    /// the default configuration when the service has none yet.
    pub fn get_breaker(&mut self, service_name: &str) -> (r: usize)
        requires
            old(self).wf(),
        ensures
            final(self).wf(),
            final(self).default_config() == old(self).default_config(),
            r < final(self).entries().len(),
            final(self).entries()[r as int].0 == service_name@,
            (exists|i: int| 0 <= i < old(self).entries().len() && old(self).entries()[i].0 == service_name@) ==>
                final(self).entries() == old(self).entries(),
            !(exists|i: int| 0 <= i < old(self).entries().len() && old(self).entries()[i].0 == service_name@) ==>
                final(self).entries() == old(self).entries().push((service_name@, BreakerView::fresh(old(self).default_config())))
                && r == old(self).entries().len(),
    {
        let mut i: usize = 0;
        while i < self.breakers.len()
            invariant
                i <= self.breakers@.len(),
                *self == *old(self),
                old(self).wf(),
                forall|k: int| 0 <= k < i ==> self.entries()[k].0 != service_name@,
            decreases self.breakers@.len() - i,
        {
            assert(self.entries()[i as int].0 == self.breakers@[i as int].0@);
            if crate::text::str_eq(self.breakers[i].0.as_str(), service_name) {
                return i;
            }
            i = i + 1;
        }
        let ghost before = self.entries();
        let b = CircuitBreaker::new(self.default_config);
        let ghost bv = b@;
        self.breakers.push((String::from_str(service_name), b));
        assert(self.entries() =~= before.push((service_name@, bv)));
        i
    }

    /// The state of each service's breaker, in creation order.
    pub fn get_all_states(&self) -> (r: Vec<(String, CircuitBreakerState)>)
        ensures
            r@.len() == self.entries().len(),
            forall|i: int| 0 <= i < r@.len() ==> (#[trigger] r@[i]).0@ == self.entries()[i].0
                && r@[i].1 == self.entries()[i].1.state,
    {
        let mut out: Vec<(String, CircuitBreakerState)> = Vec::new();
        let mut i: usize = 0;
        while i < self.breakers.len()
            invariant
                i <= self.breakers@.len(),
                out@.len() == i,
                forall|k: int| 0 <= k < i ==> (#[trigger] out@[k]).0@ == self.entries()[k].0
                    && out@[k].1 == self.entries()[k].1.state,
            decreases self.breakers@.len() - i,
        {
            out.push((self.breakers[i].0.clone(), self.breakers[i].1.state()));
            i = i + 1;
        }
        out
    }

    /// The counters of each service's breaker, in creation order.
    pub fn get_all_metrics(&self) -> (r: Vec<(String, CircuitBreakerMetrics)>)
        ensures
            r@.len() == self.entries().len(),
            forall|i: int| 0 <= i < r@.len() ==> (#[trigger] r@[i]).0@ == self.entries()[i].0
                && r@[i].1 == self.entries()[i].1.metrics,
    {
        let mut out: Vec<(String, CircuitBreakerMetrics)> = Vec::new();
        let mut i: usize = 0;
        while i < self.breakers.len()
            invariant
                i <= self.breakers@.len(),
                out@.len() == i,
                forall|k: int| 0 <= k < i ==> (#[trigger] out@[k]).0@ == self.entries()[k].0
                    && out@[k].1 == self.entries()[k].1.metrics,
            decreases self.breakers@.len() - i,
        {
            out.push((self.breakers[i].0.clone(), self.breakers[i].1.metrics()));
            i = i + 1;
        }
        out
    }

    /// Ask the breaker at position `i` to run a request at `now_ms`.
    pub fn begin_call(&mut self, i: usize, now_ms: u64) -> (r: Result<(), RaftError>)
        requires
            old(self).wf(),
            i < old(self).entries().len(),
        ensures
            final(self).wf(),
            final(self).default_config() == old(self).default_config(),
            final(self).entries().len() == old(self).entries().len(),
            final(self).entries()[i as int].0 == old(self).entries()[i as int].0,
            forall|j: int| 0 <= j < old(self).entries().len() && j != i ==> #[trigger] final(self).entries()[j] == old(self).entries()[j],
            ({
                let (v, allowed) = old(self).entries()[i as int].1.allow(now_ms);
                &&& (r is Ok <==> allowed)
                &&& allowed ==> final(self).entries()[i as int].1 == (BreakerView { metrics: CircuitBreakerMetrics { total_requests: bump64(v.metrics.total_requests), ..v.metrics }, ..v })
                &&& !allowed ==> final(self).entries()[i as int].1 == (BreakerView { metrics: CircuitBreakerMetrics { rejected_requests: bump64(v.metrics.rejected_requests), ..v.metrics }, ..v })
            }),
    {
        let ghost before = self.entries();
        assert(before[i as int].1.wf());
        let r = self.breakers[i].1.begin_call(now_ms);
        assert(self.entries() =~= before.update(i as int, (before[i as int].0, self.breakers@[i as int].1@)));
        r
    }

    /// Report to the breaker at position `i` the outcome of its request.
    pub fn finish_call<T>(&mut self, i: usize, outcome: Result<T, String>, now_ms: u64) -> (r: Result<T, RaftError>)
        requires
            old(self).wf(),
            i < old(self).entries().len(),
        ensures
            final(self).wf(),
            final(self).default_config() == old(self).default_config(),
            final(self).entries().len() == old(self).entries().len(),
            final(self).entries()[i as int].0 == old(self).entries()[i as int].0,
            forall|j: int| 0 <= j < old(self).entries().len() && j != i ==> #[trigger] final(self).entries()[j] == old(self).entries()[j],
            outcome is Ok ==> ({
                let v = old(self).entries()[i as int].1.succeed(now_ms);
                final(self).entries()[i as int].1 == (BreakerView { metrics: CircuitBreakerMetrics { total_successes: bump64(v.metrics.total_successes), ..v.metrics }, ..v })
            }),
            outcome is Err ==> ({
                let v = old(self).entries()[i as int].1.fail(now_ms);
                final(self).entries()[i as int].1 == (BreakerView { metrics: CircuitBreakerMetrics { total_failures: bump64(v.metrics.total_failures), ..v.metrics }, ..v })
            }),
            match outcome {
                Ok(x) => r == Ok::<T, RaftError>(x),
                Err(m) => r matches Err(RaftError::Internal { message })
                    && message@ == "Circuit breaker protected operation failed: "@ + m@,
            },
    {
        let ghost before = self.entries();
        assert(before[i as int].1.wf());
        let r = self.breakers[i].1.finish_call(outcome, now_ms);
        assert(self.entries() =~= before.update(i as int, (before[i as int].0, self.breakers@[i as int].1@)));
        r
    }

    /// Open the breaker at position `i` at `now_ms`.
    pub fn force_open(&mut self, i: usize, now_ms: u64)
        requires
            old(self).wf(),
            i < old(self).entries().len(),
        ensures
            final(self).wf(),
            final(self).default_config() == old(self).default_config(),
            final(self).entries().len() == old(self).entries().len(),
            final(self).entries()[i as int].0 == old(self).entries()[i as int].0,
            forall|j: int| 0 <= j < old(self).entries().len() && j != i ==> #[trigger] final(self).entries()[j] == old(self).entries()[j],
            final(self).entries()[i as int].1 == (BreakerView {
                state: CircuitBreakerState::Open,
                last_failure_ms: Some(now_ms),
                metrics: CircuitBreakerMetrics { circuit_opened_count: bump32(old(self).entries()[i as int].1.metrics.circuit_opened_count), ..old(self).entries()[i as int].1.metrics },
                ..old(self).entries()[i as int].1
            }),
    {
        let ghost before = self.entries();
        assert(before[i as int].1.wf());
        self.breakers[i].1.force_open(now_ms);
        assert(self.entries() =~= before.update(i as int, (before[i as int].0, self.breakers@[i as int].1@)));
    }
}

} // verus!
