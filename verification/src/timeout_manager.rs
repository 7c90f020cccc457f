//! Adaptive timeouts per kind of operation: default settings, statistics of
//! outcomes, the adaptive adjustment of the current timeout and the backoff
//! between retries.
//!
//! Durations are whole milliseconds.  Rates and multipliers are exact
//! fractions: the backoff multiplier and the jitter factor are given in
//! thousandths, and a timeout rate above one tenth or below one fiftieth is
//! decided by comparing counts.  Waiting for the operation itself, and drawing
//! the random jitter, belong to the caller, which reports the outcome here.

use vstd::prelude::*;
use vstd::string::StringExecFns;
use crate::error::RaftError;
use crate::text::cat2;

verus! {

/// Timeout settings of one kind of operation.
#[derive(Debug, Clone, Copy, PartialEq, Eq, Structural)]
pub struct TimeoutConfig {
    /// Base timeout
    pub base_timeout_ms: u64,
    /// Largest timeout
    pub max_timeout_ms: u64,
    /// Smallest timeout
    pub min_timeout_ms: u64,
    /// Adjust the timeout to the observed outcomes
    pub enable_adaptive: bool,
    /// Multiplier of the delay between retries, in thousandths
    pub backoff_multiplier_permille: u32,
    /// Largest number of retries
    pub max_retries: u32,
    /// Share of the delay added at random, in thousandths
    pub jitter_factor_permille: u32,
}

/// The settings used when nothing else is said: one second base, 30 s
/// largest, 100 ms smallest, adaptive, doubling backoff, three retries and a
/// tenth of jitter.
pub open spec fn default_timeout_config() -> TimeoutConfig {
    TimeoutConfig {
        base_timeout_ms: 1000,
        max_timeout_ms: 30000,
        min_timeout_ms: 100,
        enable_adaptive: true,
        backoff_multiplier_permille: 2000,
        max_retries: 3,
        jitter_factor_permille: 100,
    }
}

impl Default for TimeoutConfig {
    fn default() -> (r: Self)
        ensures
            r == default_timeout_config(),
    {
        TimeoutConfig {
            base_timeout_ms: 1000,
            max_timeout_ms: 30000,
            min_timeout_ms: 100,
            enable_adaptive: true,
            backoff_multiplier_permille: 2000,
            max_retries: 3,
            jitter_factor_permille: 100,
        }
    }
}

/// Kinds of operations with timeouts of their own.
#[derive(Debug, Clone, Copy, PartialEq, Eq, Hash, Structural)]
pub enum OperationType {
    /// Raft message sending
    RaftMessage,
    /// Connection establishment
    Connection,
    /// Proposal processing
    Proposal,
    /// Storage operations
    Storage,
    /// Configuration changes
    ConfigChange,
    /// Health checks
    HealthCheck,
    /// General network operations
    Network,
}

/// The position of a kind of operation in the tables of the manager.
pub open spec fn op_index(op: OperationType) -> int {
    match op {
        OperationType::RaftMessage => 0,
        OperationType::Connection => 1,
        OperationType::Proposal => 2,
        OperationType::Storage => 3,
        OperationType::ConfigChange => 4,
        OperationType::HealthCheck => 5,
        OperationType::Network => 6,
    }
}

/// The kind of operation at a position of the tables.
pub open spec fn op_at(i: int) -> OperationType {
    if i == 0 {
        OperationType::RaftMessage
    } else if i == 1 {
        OperationType::Connection
    } else if i == 2 {
        OperationType::Proposal
    } else if i == 3 {
        OperationType::Storage
    } else if i == 4 {
        OperationType::ConfigChange
    } else if i == 5 {
        OperationType::HealthCheck
    } else {
        OperationType::Network
    }
}

/// The name of a kind of operation, as its debug form shows it.
pub open spec fn op_name(op: OperationType) -> Seq<char> {
    match op {
        OperationType::RaftMessage => "RaftMessage"@,
        OperationType::Connection => "Connection"@,
        OperationType::Proposal => "Proposal"@,
        OperationType::Storage => "Storage"@,
        OperationType::ConfigChange => "ConfigChange"@,
        OperationType::HealthCheck => "HealthCheck"@,
        OperationType::Network => "Network"@,
    }
}

/// The settings of a kind: the defaults with its own base, largest and
/// smallest timeouts and number of retries.
pub open spec fn default_config_of(op: OperationType) -> TimeoutConfig {
    let (base, max, min, retries) = match op {
        OperationType::RaftMessage => (500u64, 5000u64, 100u64, 2u32),
        OperationType::Connection => (5000, 30000, 1000, 3),
        OperationType::Proposal => (2000, 10000, 500, 2),
        OperationType::Storage => (1000, 15000, 200, 2),
        OperationType::ConfigChange => (5000, 30000, 1000, 1),
        OperationType::HealthCheck => (1000, 5000, 200, 1),
        OperationType::Network => (3000, 15000, 500, 3),
    };
    TimeoutConfig {
        base_timeout_ms: base,
        max_timeout_ms: max,
        min_timeout_ms: min,
        max_retries: retries,
        ..default_timeout_config()
    }
}

impl OperationType {
    /// The position of this kind in the tables of the manager.
    pub fn index(self) -> (r: usize)
        ensures
            r == op_index(self),
            r < 7,
    {
        match self {
            OperationType::RaftMessage => 0,
            OperationType::Connection => 1,
            OperationType::Proposal => 2,
            OperationType::Storage => 3,
            OperationType::ConfigChange => 4,
            OperationType::HealthCheck => 5,
            OperationType::Network => 6,
        }
    }

    /// The name of this kind, as its debug form shows it.
    pub fn name(self) -> (r: &'static str)
        ensures
            r@ == op_name(self),
    {
        match self {
            OperationType::RaftMessage => "RaftMessage",
            OperationType::Connection => "Connection",
            OperationType::Proposal => "Proposal",
            OperationType::Storage => "Storage",
            OperationType::ConfigChange => "ConfigChange",
            OperationType::HealthCheck => "HealthCheck",
            OperationType::Network => "Network",
        }
    }

    /// The default settings of this kind of operation.
    pub fn default_config(self) -> (r: TimeoutConfig)
        ensures
            r == default_config_of(self),
    {
        let d = TimeoutConfig::default();
        match self {
            OperationType::RaftMessage => TimeoutConfig {
                base_timeout_ms: 500, max_timeout_ms: 5000, min_timeout_ms: 100, max_retries: 2, ..d
            },
            OperationType::Connection => TimeoutConfig {
                base_timeout_ms: 5000, max_timeout_ms: 30000, min_timeout_ms: 1000, max_retries: 3, ..d
            },
            OperationType::Proposal => TimeoutConfig {
                base_timeout_ms: 2000, max_timeout_ms: 10000, min_timeout_ms: 500, max_retries: 2, ..d
            },
            OperationType::Storage => TimeoutConfig {
                base_timeout_ms: 1000, max_timeout_ms: 15000, min_timeout_ms: 200, max_retries: 2, ..d
            },
            OperationType::ConfigChange => TimeoutConfig {
                base_timeout_ms: 5000, max_timeout_ms: 30000, min_timeout_ms: 1000, max_retries: 1, ..d
            },
            OperationType::HealthCheck => TimeoutConfig {
                base_timeout_ms: 1000, max_timeout_ms: 5000, min_timeout_ms: 200, max_retries: 1, ..d
            },
            OperationType::Network => TimeoutConfig {
                base_timeout_ms: 3000, max_timeout_ms: 15000, min_timeout_ms: 500, max_retries: 3, ..d
            },
        }
    }
}

fn op_of_index(i: usize) -> (r: OperationType)
    requires
        i < 7,
    ensures
        r == op_at(i as int),
        op_index(r) == i,
{
    if i == 0 {
        OperationType::RaftMessage
    } else if i == 1 {
        OperationType::Connection
    } else if i == 2 {
        OperationType::Proposal
    } else if i == 3 {
        OperationType::Storage
    } else if i == 4 {
        OperationType::ConfigChange
    } else if i == 5 {
        OperationType::HealthCheck
    } else {
        OperationType::Network
    }
}

/// Statistics of the outcomes of one kind of operation.  The counters wrap
/// around past their largest value.
#[derive(Debug, Clone, Copy, PartialEq, Eq, Structural)]
pub struct TimeoutStats {
    /// Operations finished or timed out
    pub total_operations: u64,
    /// Operations that timed out
    pub timeout_count: u64,
    /// Operations that finished, well or not
    pub success_count: u64,
    /// Sum of the durations of finished operations
    pub total_duration_ms: u64,
    /// Current adaptive timeout, 0 while none was set
    pub current_timeout_ms: u64,
    /// Number of adaptive adjustments
    pub adjustment_count: u32,
}

/// Empty statistics.
pub open spec fn zero_stats() -> TimeoutStats {
    TimeoutStats {
        total_operations: 0,
        timeout_count: 0,
        success_count: 0,
        total_duration_ms: 0,
        current_timeout_ms: 0,
        adjustment_count: 0,
    }
}

impl Default for TimeoutStats {
    fn default() -> (r: Self)
        ensures
            r == zero_stats(),
    {
        TimeoutStats {
            total_operations: 0,
            timeout_count: 0,
            success_count: 0,
            total_duration_ms: 0,
            current_timeout_ms: 0,
            adjustment_count: 0,
        }
    }
}

/// The timeout rate is above one tenth.
pub open spec fn rate_above_tenth(s: TimeoutStats) -> bool {
    s.total_operations > 0 && 10 * s.timeout_count > s.total_operations
}

/// The timeout rate is below one fiftieth (a rate of an empty record is 0).
pub open spec fn rate_below_fiftieth(s: TimeoutStats) -> bool {
    s.total_operations == 0 || 50 * s.timeout_count < s.total_operations
}

/// The average duration of finished operations, 0 when there is none.
pub open spec fn avg_duration(s: TimeoutStats) -> u64 {
    if s.success_count == 0 { 0 } else { (s.total_duration_ms / s.success_count) as u64 }
}

/// The statistics after an operation that finished after `duration_ms`.
pub open spec fn after_success(s: TimeoutStats, duration_ms: u64) -> TimeoutStats {
    TimeoutStats {
        total_operations: vstd::wrapping::u64_specs::wrapping_add(s.total_operations, 1),
        success_count: vstd::wrapping::u64_specs::wrapping_add(s.success_count, 1),
        total_duration_ms: vstd::wrapping::u64_specs::wrapping_add(s.total_duration_ms, duration_ms),
        ..s
    }
}

/// The statistics after an operation that timed out.
pub open spec fn after_timeout(s: TimeoutStats) -> TimeoutStats {
    TimeoutStats {
        total_operations: vstd::wrapping::u64_specs::wrapping_add(s.total_operations, 1),
        timeout_count: vstd::wrapping::u64_specs::wrapping_add(s.timeout_count, 1),
        ..s
    }
}

/// The statistics after the timeout was adjusted to `new_timeout_ms`.
pub open spec fn after_adjustment(s: TimeoutStats, new_timeout_ms: u64) -> TimeoutStats {
    TimeoutStats {
        adjustment_count: vstd::wrapping::u32_specs::wrapping_add(s.adjustment_count, 1),
        current_timeout_ms: new_timeout_ms,
        ..s
    }
}

/// Something recorded in the statistics.
pub enum StatsEvent {
    /// An operation finished after the given time
    Success(u64),
    /// An operation timed out
    Timeout,
    /// The timeout was adjusted to the given value
    Adjustment(u64),
}

/// The statistics after recording the events in turn, from empty ones.
pub open spec fn replay(events: Seq<StatsEvent>) -> TimeoutStats
    decreases events.len(),
{
    if events.len() == 0 {
        zero_stats()
    } else {
        let s = replay(events.drop_last());
        match events.last() {
            StatsEvent::Success(d) => after_success(s, d),
            StatsEvent::Timeout => after_timeout(s),
            StatsEvent::Adjustment(t) => after_adjustment(s, t),
        }
    }
}

/// Statistics recorded from empty ones, with fewer events than the
/// counters can hold, count every operation once: as a success or as a
/// timeout, never both.
pub proof fn lemma_operations_add_up(events: Seq<StatsEvent>)
    requires
        events.len() < u64::MAX,
    ensures
        replay(events).total_operations == replay(events).success_count + replay(events).timeout_count,
        replay(events).total_operations <= events.len(),
    decreases events.len(),
{
    if events.len() > 0 {
        lemma_operations_add_up(events.drop_last());
    }
}

impl TimeoutStats {
    /// Record an operation that finished after `duration_ms`.
    pub fn record_success(&mut self, duration_ms: u64)
        ensures
            final(self).total_operations == vstd::wrapping::u64_specs::wrapping_add(old(self).total_operations, 1),
            final(self).success_count == vstd::wrapping::u64_specs::wrapping_add(old(self).success_count, 1),
            final(self).total_duration_ms == vstd::wrapping::u64_specs::wrapping_add(
                old(self).total_duration_ms,
                duration_ms,
            ),
            final(self).timeout_count == old(self).timeout_count,
            final(self).current_timeout_ms == old(self).current_timeout_ms,
            final(self).adjustment_count == old(self).adjustment_count,
            *final(self) == after_success(*old(self), duration_ms),
    {
        self.total_operations = self.total_operations.wrapping_add(1);
        self.success_count = self.success_count.wrapping_add(1);
        self.total_duration_ms = self.total_duration_ms.wrapping_add(duration_ms);
    }

    /// Record an operation that timed out.
    pub fn record_timeout(&mut self)
        ensures
            final(self).total_operations == vstd::wrapping::u64_specs::wrapping_add(old(self).total_operations, 1),
            final(self).timeout_count == vstd::wrapping::u64_specs::wrapping_add(old(self).timeout_count, 1),
            final(self).success_count == old(self).success_count,
            final(self).total_duration_ms == old(self).total_duration_ms,
            final(self).current_timeout_ms == old(self).current_timeout_ms,
            final(self).adjustment_count == old(self).adjustment_count,
            *final(self) == after_timeout(*old(self)),
    {
        self.total_operations = self.total_operations.wrapping_add(1);
        self.timeout_count = self.timeout_count.wrapping_add(1);
    }

    /// Record an adjustment of the timeout to `new_timeout_ms`.
    pub fn record_adjustment(&mut self, new_timeout_ms: u64)
        ensures
            final(self).adjustment_count == vstd::wrapping::u32_specs::wrapping_add(old(self).adjustment_count, 1),
            final(self).current_timeout_ms == new_timeout_ms,
            final(self).total_operations == old(self).total_operations,
            final(self).timeout_count == old(self).timeout_count,
            final(self).success_count == old(self).success_count,
            final(self).total_duration_ms == old(self).total_duration_ms,
            *final(self) == after_adjustment(*old(self), new_timeout_ms),
    {
        self.adjustment_count = self.adjustment_count.wrapping_add(1);
        self.current_timeout_ms = new_timeout_ms;
    }

    /// Whether more than a tenth of the operations timed out.
    pub fn timeout_rate_above_tenth(&self) -> (r: bool)
        ensures
            r == rate_above_tenth(*self),
    {
        self.total_operations > 0 && 10 * (self.timeout_count as u128) > self.total_operations as u128
    }

    /// Whether less than a fiftieth of the operations timed out.
    pub fn timeout_rate_below_fiftieth(&self) -> (r: bool)
        ensures
            r == rate_below_fiftieth(*self),
    {
        self.total_operations == 0 || 50 * (self.timeout_count as u128) < self.total_operations as u128
    }

    /// The average duration of finished operations.
    pub fn get_avg_duration(&self) -> (r: u64)
        ensures
            r == avg_duration(*self),
    {
        if self.success_count == 0 {
            0
        } else {
            self.total_duration_ms / self.success_count
        }
    }
}

/// The timeout in force: the adaptive one once set, the base one before.
pub open spec fn current_timeout_of(config: TimeoutConfig, stats: TimeoutStats) -> u64 {
    if stats.current_timeout_ms == 0 { config.base_timeout_ms } else { stats.current_timeout_ms }
}

/// The adjusted timeout: half as long again, up to the largest, when more
/// than a tenth timed out; when less than a fiftieth did and operations take
/// time, the largest of three times their average, four fifths of the
/// current timeout and the smallest timeout; otherwise unchanged.
pub open spec fn adjusted_timeout(config: TimeoutConfig, stats: TimeoutStats, current: u64) -> u64 {
    if rate_above_tenth(stats) {
        let increased = current * 3 / 2;
        if increased < config.max_timeout_ms { increased as u64 } else { config.max_timeout_ms }
    } else if rate_below_fiftieth(stats) && avg_duration(stats) > 0 {
        let target = 3 * avg_duration(stats);
        let decreased = current * 4 / 5;
        let larger = if target > decreased { target } else { decreased };
        if larger > config.min_timeout_ms { larger as u64 } else { config.min_timeout_ms }
    } else {
        current
    }
}

/// The delay before the next retry: the delay times the backoff multiplier
/// plus the jitter, up to the largest timeout.
pub open spec fn next_delay(config: TimeoutConfig, delay_ms: u64, jitter_ms: u64) -> u64 {
    let grown = delay_ms * config.backoff_multiplier_permille / 1000 + jitter_ms;
    if grown < config.max_timeout_ms { grown as u64 } else { config.max_timeout_ms }
}

/// How an operation ended, as the caller observed it.
#[derive(Debug)]
pub enum OperationOutcome {
    /// The operation finished well after `duration_ms`
    Completed { duration_ms: u64 },
    /// The operation finished with an error after `duration_ms`
    Failed { duration_ms: u64, message: String },
    /// The operation did not finish within the timeout
    TimedOut,
}

/// Statistics of one kind of operation at one moment.
#[derive(Debug, Clone, Copy, PartialEq, Eq, Structural)]
pub struct TimeoutStatsSnapshot {
    /// Operations finished or timed out
    pub total_operations: u64,
    /// Operations that timed out
    pub timeout_count: u64,
    /// Operations that finished
    pub success_count: u64,
    /// Average duration of finished operations
    pub avg_duration_ms: u64,
    /// Current adaptive timeout, 0 while none was set
    pub current_timeout_ms: u64,
    /// Number of adaptive adjustments
    pub adjustment_count: u32,
}

/// The snapshot of a record of statistics.
pub open spec fn snapshot_of(s: TimeoutStats) -> TimeoutStatsSnapshot {
    TimeoutStatsSnapshot {
        total_operations: s.total_operations,
        timeout_count: s.timeout_count,
        success_count: s.success_count,
        avg_duration_ms: avg_duration(s),
        current_timeout_ms: s.current_timeout_ms,
        adjustment_count: s.adjustment_count,
    }
}

/// Adaptive timeouts of every kind of operation.
pub struct TimeoutManager {
    configs: Vec<TimeoutConfig>,
    stats: Vec<TimeoutStats>,
    last_adjustment_ms: Vec<u64>,
}

/// Adjustments are at least this far apart.
pub const ADJUSTMENT_INTERVAL_MS: u64 = 30_000;

impl TimeoutManager {
    /// One entry per kind of operation in each table.
    pub closed spec fn wf(&self) -> bool {
        &&& self.configs@.len() == 7
        &&& self.stats@.len() == 7
        &&& self.last_adjustment_ms@.len() == 7
    }

    /// The settings of a kind of operation.
    pub closed spec fn config_of(&self, op: OperationType) -> TimeoutConfig {
        self.configs@[op_index(op)]
    }

    /// The statistics of a kind of operation.
    pub closed spec fn stats_of(&self, op: OperationType) -> TimeoutStats {
        self.stats@[op_index(op)]
    }

    /// When the timeout of a kind of operation was last adjusted.
    pub closed spec fn last_adjustment_of(&self, op: OperationType) -> u64 {
        self.last_adjustment_ms@[op_index(op)]
    }

    /// The timeout in force for a kind of operation.
    pub open spec fn timeout_in_force(&self, op: OperationType) -> u64 {
        current_timeout_of(self.config_of(op), self.stats_of(op))
    }

    /// A manager at `now_ms` with the default settings of every kind, empty
    /// statistics, and every kind last adjusted now.
    pub fn new_at(now_ms: u64) -> (r: Self)
        ensures
            r.wf(),
            forall|op: OperationType| #[trigger] r.config_of(op) == default_config_of(op),
            forall|op: OperationType| #[trigger] r.stats_of(op) == zero_stats(),
            forall|op: OperationType| #[trigger] r.last_adjustment_of(op) == now_ms,
    {
        let mut configs: Vec<TimeoutConfig> = Vec::new();
        let mut stats: Vec<TimeoutStats> = Vec::new();
        let mut last: Vec<u64> = Vec::new();
        let mut i: usize = 0;
        while i < 7
            invariant
                i <= 7,
                configs@.len() == i,
                stats@.len() == i,
                last@.len() == i,
                forall|k: int| 0 <= k < i ==> #[trigger] configs@[k] == default_config_of(op_at(k)),
                forall|k: int| 0 <= k < i ==> #[trigger] stats@[k] == zero_stats(),
                forall|k: int| 0 <= k < i ==> #[trigger] last@[k] == now_ms,
            decreases 7 - i,
        {
            let op = op_of_index(i);
            configs.push(op.default_config());
            stats.push(TimeoutStats::default());
            last.push(now_ms);
            i = i + 1;
        }
        let r = TimeoutManager { configs, stats, last_adjustment_ms: last };
        assert forall|op: OperationType| #[trigger] r.config_of(op) == default_config_of(op) by {
            assert(op_at(op_index(op)) == op);
        }
        r
    }

    /// A manager with the default settings, made now.
    pub fn new() -> (r: Self)
        ensures
            r.wf(),
            forall|op: OperationType| #[trigger] r.config_of(op) == default_config_of(op),
            forall|op: OperationType| #[trigger] r.stats_of(op) == zero_stats(),
    {
        TimeoutManager::new_at(crate::clock::system_now_ms())
    }

    /// The timeout in force for a kind of operation.
    pub fn get_current_timeout(&self, op: OperationType) -> (r: u64)
        requires
            self.wf(),
        ensures
            r == self.timeout_in_force(op),
    {
        let i = op.index();
        let s = self.stats[i];
        if s.current_timeout_ms == 0 {
            self.configs[i].base_timeout_ms
        } else {
            s.current_timeout_ms
        }
    }

    /// Adjust the timeout of a kind of operation at `now_ms`, unless it was
    /// adjusted less than 30 s before: the timeout becomes the adjusted one,
    /// and when that differs from the one in force the adjustment is recorded
    /// and its time kept.
    pub fn adjust_timeout_if_needed(&mut self, op: OperationType, now_ms: u64)
        requires
            old(self).wf(),
        ensures
            final(self).wf(),
            forall|o: OperationType| o != op ==> #[trigger] final(self).stats_of(o) == old(self).stats_of(o)
                && final(self).last_adjustment_of(o) == old(self).last_adjustment_of(o),
            forall|o: OperationType| #[trigger] final(self).config_of(o) == old(self).config_of(o),
            ({
                let s = old(self).stats_of(op);
                let current = old(self).timeout_in_force(op);
                let new_timeout = adjusted_timeout(old(self).config_of(op), s, current);
                let due = now_ms >= old(self).last_adjustment_of(op)
                    && now_ms - old(self).last_adjustment_of(op) >= ADJUSTMENT_INTERVAL_MS;
                if due && new_timeout != current {
                    &&& final(self).stats_of(op) == (TimeoutStats {
                        current_timeout_ms: new_timeout,
                        adjustment_count: vstd::wrapping::u32_specs::wrapping_add(s.adjustment_count, 1),
                        ..s
                    })
                    &&& final(self).last_adjustment_of(op) == now_ms
                } else {
                    &&& final(self).stats_of(op) == s
                    &&& final(self).last_adjustment_of(op) == old(self).last_adjustment_of(op)
                }
            }),
    {
        let i = op.index();
        let last = self.last_adjustment_ms[i];
        if now_ms < last || now_ms - last < ADJUSTMENT_INTERVAL_MS {
            return;
        }
        let config = self.configs[i];
        let mut s = self.stats[i];
        let current = self.get_current_timeout(op);
        let new_timeout = if s.timeout_rate_above_tenth() {
            let increased: u128 = (current as u128) * 3 / 2;
            if increased < config.max_timeout_ms as u128 {
                increased as u64
            } else {
                config.max_timeout_ms
            }
        } else if s.timeout_rate_below_fiftieth() && s.get_avg_duration() > 0 {
            let target: u128 = 3 * (s.get_avg_duration() as u128);
            let decreased: u128 = (current as u128) * 4 / 5;
            let larger = if target > decreased { target } else { decreased };
            if larger > config.min_timeout_ms as u128 {
                #[verifier::truncate]
                (larger as u64)
            } else {
                config.min_timeout_ms
            }
        } else {
            current
        };
        if new_timeout != current {
            s.record_adjustment(new_timeout);
            self.stats.set(i, s);
            self.last_adjustment_ms.set(i, now_ms);
        }
    }

    /// Record how an operation of kind `op` ended, at `now_ms`.  A finished
    /// operation counts as a success whether it went well or not; a timed-out
    /// one counts as a timeout.  After a good finish or a timeout the timeout
    /// is adjusted when the kind is adaptive.  The answer is the operation's
    /// own success, an internal error carrying the operation's message, or a
    /// timeout error naming the kind and the timeout that was in force.
    pub fn record_outcome(&mut self, op: OperationType, outcome: OperationOutcome, now_ms: u64)
        -> (r: Result<(), RaftError>)
        requires
            old(self).wf(),
        ensures
            final(self).wf(),
            forall|o: OperationType| #[trigger] final(self).config_of(o) == old(self).config_of(o),
            forall|o: OperationType| o != op ==> #[trigger] final(self).stats_of(o) == old(self).stats_of(o),
            match outcome {
                OperationOutcome::Completed { duration_ms } => {
                    &&& r is Ok
                    &&& final(self).stats_of(op).total_operations == vstd::wrapping::u64_specs::wrapping_add(
                        old(self).stats_of(op).total_operations, 1)
                    &&& final(self).stats_of(op).success_count == vstd::wrapping::u64_specs::wrapping_add(
                        old(self).stats_of(op).success_count, 1)
                    &&& final(self).stats_of(op).total_duration_ms == vstd::wrapping::u64_specs::wrapping_add(
                        old(self).stats_of(op).total_duration_ms, duration_ms)
                    &&& final(self).stats_of(op).timeout_count == old(self).stats_of(op).timeout_count
                },
                OperationOutcome::Failed { duration_ms, message } => {
                    &&& r matches Err(RaftError::Internal { message: m }) && m@ == "Operation failed: "@ + message@
                    &&& final(self).stats_of(op) == (TimeoutStats {
                        total_operations: vstd::wrapping::u64_specs::wrapping_add(old(self).stats_of(op).total_operations, 1),
                        success_count: vstd::wrapping::u64_specs::wrapping_add(old(self).stats_of(op).success_count, 1),
                        total_duration_ms: vstd::wrapping::u64_specs::wrapping_add(
                            old(self).stats_of(op).total_duration_ms, duration_ms),
                        ..old(self).stats_of(op)
                    })
                },
                OperationOutcome::TimedOut => {
                    &&& r matches Err(RaftError::Timeout { operation, duration_ms })
                        && operation@ == op_name(op) && duration_ms == old(self).timeout_in_force(op)
                    &&& final(self).stats_of(op).total_operations == vstd::wrapping::u64_specs::wrapping_add(
                        old(self).stats_of(op).total_operations, 1)
                    &&& final(self).stats_of(op).timeout_count == vstd::wrapping::u64_specs::wrapping_add(
                        old(self).stats_of(op).timeout_count, 1)
                    &&& final(self).stats_of(op).success_count == old(self).stats_of(op).success_count
                },
            },
    {
        let i = op.index();
        let used = self.get_current_timeout(op);
        let config = self.configs[i];
        let mut s = self.stats[i];
        match outcome {
            OperationOutcome::Completed { duration_ms } => {
                s.record_success(duration_ms);
                self.stats.set(i, s);
                if config.enable_adaptive {
                    self.adjust_timeout_if_needed(op, now_ms);
                }
                Ok(())
            },
            OperationOutcome::Failed { duration_ms, message } => {
                s.record_success(duration_ms);
                self.stats.set(i, s);
                Err(RaftError::Internal { message: cat2("Operation failed: ", message.as_str()) })
            },
            OperationOutcome::TimedOut => {
                s.record_timeout();
                self.stats.set(i, s);
                if config.enable_adaptive {
                    self.adjust_timeout_if_needed(op, now_ms);
                }
                Err(RaftError::Timeout { operation: String::from_str(op.name()), duration_ms: used })
            },
        }
    }

    /// Whether another attempt is made after `failures` failed attempts:
    /// while they are at most the largest number of retries.
    pub fn retry_allowed(&self, op: OperationType, failures: u32) -> (r: bool)
        requires
            self.wf(),
        ensures
            r == (failures <= self.config_of(op).max_retries),
    {
        failures <= self.configs[op.index()].max_retries
    }

    /// The delay before the first retry: the base timeout.
    pub fn initial_retry_delay(&self, op: OperationType) -> (r: u64)
        requires
            self.wf(),
        ensures
            r == self.config_of(op).base_timeout_ms,
    {
        self.configs[op.index()].base_timeout_ms
    }

    /// The delay before the next retry after waiting `delay_ms`, with the
    /// random `jitter_ms` drawn for it.
    pub fn next_retry_delay(&self, op: OperationType, delay_ms: u64, jitter_ms: u64) -> (r: u64)
        requires
            self.wf(),
        ensures
            r == next_delay(self.config_of(op), delay_ms, jitter_ms),
            r <= self.config_of(op).max_timeout_ms,
    {
        let config = self.configs[op.index()];
        proof {
            let p = config.backoff_multiplier_permille;
            assert((delay_ms as int) * (p as int) <= (u64::MAX as int) * (u32::MAX as int)) by (nonlinear_arith)
                requires
                    delay_ms <= u64::MAX,
                    p <= u32::MAX,
            ;
        }
        let grown: u128 = (delay_ms as u128) * (config.backoff_multiplier_permille as u128) / 1000
            + jitter_ms as u128;
        if grown < config.max_timeout_ms as u128 {
            grown as u64
        } else {
            config.max_timeout_ms
        }
    }

    /// Replace the settings of a kind of operation.
    pub fn update_config(&mut self, op: OperationType, config: TimeoutConfig)
        requires
            old(self).wf(),
        ensures
            final(self).wf(),
            final(self).config_of(op) == config,
            forall|o: OperationType| o != op ==> #[trigger] final(self).config_of(o) == old(self).config_of(o),
            forall|o: OperationType| #[trigger] final(self).stats_of(o) == old(self).stats_of(o),
            forall|o: OperationType| #[trigger] final(self).last_adjustment_of(o) == old(self).last_adjustment_of(o),
    {
        self.configs.set(op.index(), config);
    }

    /// The statistics of a kind of operation.
    pub fn get_stats(&self, op: OperationType) -> (r: Option<TimeoutStatsSnapshot>)
        requires
            self.wf(),
        ensures
            r == Some(snapshot_of(self.stats_of(op))),
    {
        let s = self.stats[op.index()];
        Some(TimeoutStatsSnapshot {
            total_operations: s.total_operations,
            timeout_count: s.timeout_count,
            success_count: s.success_count,
            avg_duration_ms: s.get_avg_duration(),
            current_timeout_ms: s.current_timeout_ms,
            adjustment_count: s.adjustment_count,
        })
    }

    /// The statistics of every kind of operation, in the order of the kinds.
    pub fn get_all_stats(&self) -> (r: Vec<(OperationType, TimeoutStatsSnapshot)>)
        requires
            self.wf(),
        ensures
            r@.len() == 7,
            forall|i: int| 0 <= i < 7 ==> #[trigger] r@[i] == (op_at(i), snapshot_of(self.stats_of(op_at(i)))),
    {
        let mut all: Vec<(OperationType, TimeoutStatsSnapshot)> = Vec::new();
        let mut i: usize = 0;
        while i < 7
            invariant
                self.wf(),
                i <= 7,
                all@.len() == i,
                forall|k: int| 0 <= k < i ==> #[trigger] all@[k] == (op_at(k), snapshot_of(self.stats_of(op_at(k)))),
            decreases 7 - i,
        {
            let op = op_of_index(i);
            match self.get_stats(op) {
                Some(snap) => all.push((op, snap)),
                None => {},
            }
            i = i + 1;
        }
        all
    }
}


/// An increase never goes past the largest timeout, and a decrease never
/// below the smallest.
pub proof fn lemma_adjusted_within_bounds(config: TimeoutConfig, stats: TimeoutStats, current: u64)
    ensures
        rate_above_tenth(stats) ==> adjusted_timeout(config, stats, current) <= config.max_timeout_ms,
        !rate_above_tenth(stats) && rate_below_fiftieth(stats) && avg_duration(stats) > 0
            && 3 * avg_duration(stats) <= u64::MAX
            ==> adjusted_timeout(config, stats, current) >= config.min_timeout_ms,
{
}

/// The delay between retries never goes past the largest timeout.
pub proof fn lemma_backoff_capped(config: TimeoutConfig, delay_ms: u64, jitter_ms: u64)
    ensures
        next_delay(config, delay_ms, jitter_ms) <= config.max_timeout_ms,
{
}

} // verus!
