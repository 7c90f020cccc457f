//! Administrative helpers: health aggregation, maintenance thresholds and
//! cluster monitoring.

use vstd::prelude::*;
use crate::cluster::Health;

verus! {

/// Health check utilities for cluster monitoring.
pub struct HealthChecker {
    /// Timeout for individual health checks, in milliseconds
    pub check_timeout_ms: u64,
    /// Interval between health checks, in milliseconds
    pub check_interval_ms: u64,
}

/// The overall health of a list of components: unhealthy when the list is
/// empty or any component is unhealthy, otherwise degraded when any component
/// is degraded, otherwise healthy.
pub open spec fn aggregate_health_spec(components: Seq<Health>) -> Health {
    if components.len() == 0 {
        Health::Unhealthy
    } else if exists|i: int| 0 <= i < components.len() && components[i] == Health::Unhealthy {
        Health::Unhealthy
    } else if exists|i: int| 0 <= i < components.len() && components[i] == Health::Degraded {
        Health::Degraded
    } else {
        Health::Healthy
    }
}

/// A timestamp is fresh at `now` when it is not in the future and its age is
/// at most `max_age_ms`.
pub open spec fn is_fresh_at(now_ms: u64, timestamp_ms: u64, max_age_ms: u64) -> bool {
    timestamp_ms <= now_ms && now_ms - timestamp_ms <= max_age_ms
}

/// The health entries of a list of named components.
pub open spec fn component_healths(components: Seq<(String, Health)>) -> Seq<Health> {
    components.map_values(|c: (String, Health)| c.1)
}

impl HealthChecker {
    /// Create a new health checker with default settings (5 s timeout, 30 s interval).
    pub fn new() -> (r: Self)
        ensures
            r.check_timeout_ms == 5000,
            r.check_interval_ms == 30000,
    {
        HealthChecker { check_timeout_ms: 5000, check_interval_ms: 30000 }
    }

    /// Create a health checker with custom settings.
    pub fn with_timeouts(check_timeout_ms: u64, check_interval_ms: u64) -> (r: Self)
        ensures
            r.check_timeout_ms == check_timeout_ms,
            r.check_interval_ms == check_interval_ms,
    {
        HealthChecker { check_timeout_ms, check_interval_ms }
    }

    /// Check whether `timestamp_ms` is fresh relative to the clock reading `now_ms`.
    pub fn is_timestamp_fresh_at(&self, now_ms: u64, timestamp_ms: u64, max_age_ms: u64) -> (r: bool)
        ensures
            r == is_fresh_at(now_ms, timestamp_ms, max_age_ms),
    {
        timestamp_ms <= now_ms && now_ms - timestamp_ms <= max_age_ms
    }

    /// Check whether a timestamp is fresh against the system clock: the
    /// answer is freshness at the time the clock reads.
    pub fn is_timestamp_fresh(&self, timestamp_ms: u64, max_age_ms: u64) -> (r: bool)
        ensures
            exists|now: u64| r == #[trigger] is_fresh_at(now, timestamp_ms, max_age_ms),
    {
        let now = crate::clock::system_now_ms();
        self.is_timestamp_fresh_at(now, timestamp_ms, max_age_ms)
    }

    /// Determine overall health from component health statuses.
    pub fn aggregate_health(&self, components: &[(String, Health)]) -> (r: Health)
        ensures
            r == aggregate_health_spec(component_healths(components@)),
    {
        let ghost hs = component_healths(components@);
        if components.len() == 0 {
            return Health::Unhealthy;
        }
        let mut unhealthy_count: usize = 0;
        let mut degraded_count: usize = 0;
        let mut i: usize = 0;
        while i < components.len()
            invariant
                i <= components.len(),
                hs == component_healths(components@),
                unhealthy_count <= i,
                degraded_count <= i,
                (unhealthy_count > 0) <==> exists|j: int| 0 <= j < i && hs[j] == Health::Unhealthy,
                (degraded_count > 0) <==> exists|j: int| 0 <= j < i && hs[j] == Health::Degraded,
            decreases components.len() - i,
        {
            assert(hs[i as int] == components@[i as int].1);
            match components[i].1 {
                Health::Unhealthy => { unhealthy_count = unhealthy_count + 1; },
                Health::Degraded => { degraded_count = degraded_count + 1; },
                Health::Healthy => {},
            }
            i = i + 1;
        }
        if unhealthy_count > 0 {
            Health::Unhealthy
        } else if degraded_count > 0 {
            Health::Degraded
        } else {
            Health::Healthy
        }
    }
}

/// Maintenance operations for cluster upkeep.
pub struct MaintenanceOps {
    /// Whether to automatically compact logs based on thresholds
    pub auto_compact: bool,
    /// Log entry threshold for automatic compaction
    pub compact_threshold_entries: u64,
    /// Size threshold for automatic compaction (in bytes)
    pub compact_threshold_bytes: u64,
    /// Whether to automatically create snapshots
    pub auto_snapshot: bool,
    /// Entry threshold for automatic snapshots
    pub snapshot_threshold_entries: u64,
}

impl MaintenanceOps {
    /// Whether compaction is due for the given log size.
    pub open spec fn compact_due(&self, entries: u64, size_bytes: u64) -> bool {
        self.auto_compact && (entries >= self.compact_threshold_entries
            || size_bytes >= self.compact_threshold_bytes)
    }

    /// Whether a snapshot is due after the given number of entries.
    pub open spec fn snapshot_due(&self, entries_since_snapshot: u64) -> bool {
        self.auto_snapshot && entries_since_snapshot >= self.snapshot_threshold_entries
    }

    /// Maintenance with the default thresholds: compaction at 10000 entries or
    /// 100 MiB, snapshots every 50000 entries, both enabled.
    pub fn new() -> (r: Self)
        ensures
            r.auto_compact,
            r.compact_threshold_entries == 10000,
            r.compact_threshold_bytes == 100 * 1024 * 1024,
            r.auto_snapshot,
            r.snapshot_threshold_entries == 50000,
    {
        MaintenanceOps {
            auto_compact: true,
            compact_threshold_entries: 10000,
            compact_threshold_bytes: 100 * 1024 * 1024,
            auto_snapshot: true,
            snapshot_threshold_entries: 50000,
        }
    }

    /// Maintenance with custom thresholds, both automatic operations enabled.
    pub fn with_thresholds(
        compact_threshold_entries: u64,
        compact_threshold_bytes: u64,
        snapshot_threshold_entries: u64,
    ) -> (r: Self)
        ensures
            r.auto_compact,
            r.compact_threshold_entries == compact_threshold_entries,
            r.compact_threshold_bytes == compact_threshold_bytes,
            r.auto_snapshot,
            r.snapshot_threshold_entries == snapshot_threshold_entries,
    {
        MaintenanceOps {
            auto_compact: true,
            compact_threshold_entries,
            compact_threshold_bytes,
            auto_snapshot: true,
            snapshot_threshold_entries,
        }
    }

    /// Disable automatic maintenance operations, keeping the thresholds.
    pub fn disable_auto_maintenance(self) -> (r: Self)
        ensures
            !r.auto_compact,
            !r.auto_snapshot,
            r.compact_threshold_entries == self.compact_threshold_entries,
            r.compact_threshold_bytes == self.compact_threshold_bytes,
            r.snapshot_threshold_entries == self.snapshot_threshold_entries,
    {
        let mut s = self;
        s.auto_compact = false;
        s.auto_snapshot = false;
        s
    }

    /// Check if log compaction should be triggered.
    pub fn should_compact(&self, current_entries: u64, current_size_bytes: u64) -> (r: bool)
        ensures
            r == self.compact_due(current_entries, current_size_bytes),
    {
        self.auto_compact && (current_entries >= self.compact_threshold_entries
            || current_size_bytes >= self.compact_threshold_bytes)
    }

    /// Check if snapshot creation should be triggered.
    pub fn should_snapshot(&self, entries_since_snapshot: u64) -> (r: bool)
        ensures
            r == self.snapshot_due(entries_since_snapshot),
    {
        self.auto_snapshot && entries_since_snapshot >= self.snapshot_threshold_entries
    }
}

/// Cluster monitoring utilities.
pub struct ClusterMonitor {
    /// Health checker for periodic health monitoring
    pub health_checker: HealthChecker,
    /// Maintenance operations configuration
    pub maintenance: MaintenanceOps,
}

/// Information about what maintenance operations are needed.
#[derive(Debug, Clone, Copy)]
pub struct MaintenanceNeeded {
    /// Whether log compaction is needed
    pub compact_log: bool,
    /// Whether a snapshot should be taken
    pub take_snapshot: bool,
}

impl ClusterMonitor {
    /// Create a cluster monitor with default components.
    pub fn new() -> (r: Self)
        ensures
            r.health_checker.check_timeout_ms == 5000,
            r.health_checker.check_interval_ms == 30000,
            r.maintenance.auto_compact,
            r.maintenance.compact_threshold_entries == 10000,
            r.maintenance.compact_threshold_bytes == 100 * 1024 * 1024,
            r.maintenance.auto_snapshot,
            r.maintenance.snapshot_threshold_entries == 50000,
    {
        ClusterMonitor { health_checker: HealthChecker::new(), maintenance: MaintenanceOps::new() }
    }

    /// Create a cluster monitor with custom components.
    pub fn with_components(health_checker: HealthChecker, maintenance: MaintenanceOps) -> (r: Self)
        ensures
            r.health_checker == health_checker,
            r.maintenance == maintenance,
    {
        ClusterMonitor { health_checker, maintenance }
    }

    /// Check which maintenance operations are due.
    pub fn needs_maintenance(&self, entries: u64, size_bytes: u64, entries_since_snapshot: u64) -> (r: MaintenanceNeeded)
        ensures
            r.compact_log == self.maintenance.compact_due(entries, size_bytes),
            r.take_snapshot == self.maintenance.snapshot_due(entries_since_snapshot),
    {
        let compact_needed = self.maintenance.should_compact(entries, size_bytes);
        let snapshot_needed = self.maintenance.should_snapshot(entries_since_snapshot);
        MaintenanceNeeded { compact_log: compact_needed, take_snapshot: snapshot_needed }
    }
}

impl MaintenanceNeeded {
    /// Check if any maintenance is needed.
    pub fn any_needed(&self) -> (r: bool)
        ensures
            r == (self.compact_log || self.take_snapshot),
    {
        self.compact_log || self.take_snapshot
    }
}

impl Default for HealthChecker {
    fn default() -> (r: Self)
        ensures
            r.check_timeout_ms == 5000,
            r.check_interval_ms == 30000,
    {
        Self::new()
    }
}

impl Default for MaintenanceOps {
    fn default() -> (r: Self)
        ensures
            r.auto_compact,
            r.compact_threshold_entries == 10000,
            r.compact_threshold_bytes == 100 * 1024 * 1024,
            r.auto_snapshot,
            r.snapshot_threshold_entries == 50000,
    {
        Self::new()
    }
}

impl Default for ClusterMonitor {
    fn default() -> (r: Self)
        ensures
            r.health_checker.check_timeout_ms == 5000,
            r.health_checker.check_interval_ms == 30000,
            r.maintenance.auto_compact,
            r.maintenance.compact_threshold_entries == 10000,
            r.maintenance.compact_threshold_bytes == 100 * 1024 * 1024,
            r.maintenance.auto_snapshot,
            r.maintenance.snapshot_threshold_entries == 50000,
    {
        Self::new()
    }
}

} // verus!
