//! Metrics of the consensus library.
//!
//! Without an exporter the recording calls keep nothing; the registry keeps
//! the service name and the custom metrics registered with it, and reports
//! that collection is disabled.  The latency timer measures whole
//! milliseconds.

use vstd::prelude::*;
use vstd::string::StringExecFns;
use crate::error::RaftError;
use crate::text::{cat3, str_eq};

verus! {

/// Raft consensus protocol metrics.
#[derive(Debug, Clone, Copy)]
pub struct RaftMetrics {}

/// Storage subsystem metrics.
#[derive(Debug, Clone, Copy)]
pub struct StorageMetrics {}

/// P2P transport metrics.
#[derive(Debug, Clone, Copy)]
pub struct TransportMetrics {}

/// Node health and resource metrics.
#[derive(Debug, Clone, Copy)]
pub struct NodeMetrics {}

impl RaftMetrics {
    /// Record a leader election; nothing is kept without an exporter.
    pub fn record_leader_election(&self, node_id: u64, term: u64) {
        let _ = (node_id, term);
    }

    /// Record appended log entries with the latency in thousandths of a
    /// millisecond; nothing is kept without an exporter.
    pub fn record_log_append(&self, entries_count: u64, latency_us: u64) {
        let _ = (entries_count, latency_us);
    }

    /// Count a consensus error; nothing is kept without an exporter.
    pub fn increment_consensus_errors(&self, error_type: &str) {
        let _ = error_type;
    }
}

impl StorageMetrics {
    /// Record a storage operation; nothing is kept without an exporter.
    pub fn record_operation(&self, operation_type: &str, latency_ms: u64) {
        let _ = (operation_type, latency_ms);
    }

    /// Update the disk usage; nothing is kept.
    pub fn update_disk_usage(&self, bytes: u64) {
        let _ = bytes;
    }
}

impl TransportMetrics {
    /// Update the number of active connections; nothing is kept.
    pub fn update_active_connections(&self, count: u64) {
        let _ = count;
    }

    /// Record a message sent; nothing is kept without an exporter.
    pub fn record_message_sent(&self, message_type: &str, peer_id: &str) {
        let _ = (message_type, peer_id);
    }

    /// Record a message received; nothing is kept without an exporter.
    pub fn record_message_received(&self, message_type: &str, peer_id: &str) {
        let _ = (message_type, peer_id);
    }

    /// Record a network error; nothing is kept without an exporter.
    pub fn record_network_error(&self, error_type: &str) {
        let _ = error_type;
    }
}

impl NodeMetrics {
    /// Update the status of a node; nothing is kept.
    pub fn update_node_status(&self, node_id: u64, is_up: bool) {
        let _ = (node_id, is_up);
    }

    /// Update the resource usage, the CPU share in hundredths of a percent;
    /// nothing is kept.
    pub fn update_resource_usage(&self, memory_bytes: u64, cpu_basis_points: u64) {
        let _ = (memory_bytes, cpu_basis_points);
    }

    /// Update the uptime; nothing is kept.
    pub fn update_uptime(&self, uptime_ms: u64) {
        let _ = uptime_ms;
    }
}

/// Kind of a custom metric.
#[derive(Debug, Clone, Copy, PartialEq, Eq, Structural)]
pub enum CustomMetricType {
    /// A counter
    Counter,
    /// A histogram
    Histogram,
}

/// A metric registered by the application.
#[derive(Debug, Clone)]
pub struct CustomMetric {
    /// Name of the metric
    pub name: String,
    /// What it measures
    pub description: String,
    /// Its kind
    pub metric_type: CustomMetricType,
}

/// A custom metric as plain values.
pub struct CustomMetricView {
    /// Name
    pub name: Seq<char>,
    /// Description
    pub description: Seq<char>,
    /// Kind
    pub metric_type: CustomMetricType,
}

/// The custom metrics as plain values.
pub open spec fn custom_view(s: Seq<CustomMetric>) -> Seq<CustomMetricView> {
    s.map_values(|m: CustomMetric| CustomMetricView { name: m.name@, description: m.description@, metric_type: m.metric_type })
}

/// Registry of the metrics of every subsystem.
pub struct MetricsRegistry {
    service_name: String,
    raft_metrics: RaftMetrics,
    storage_metrics: StorageMetrics,
    transport_metrics: TransportMetrics,
    node_metrics: NodeMetrics,
    custom_metrics: Vec<CustomMetric>,
}

/// The report of a registry without an exporter.
pub open spec fn disabled_report(service_name: Seq<char>) -> Seq<char> {
    "# Metrics collection disabled - enable 'metrics-otel' feature\n# Service: "@ + service_name + "\n"@
}

impl MetricsRegistry {
    /// The name of the service the metrics belong to.
    pub closed spec fn service(&self) -> Seq<char> {
        self.service_name@
    }

    /// The custom metrics, in the order of their first registration; no two
    /// have the same name.
    pub closed spec fn customs(&self) -> Seq<CustomMetricView> {
        custom_view(self.custom_metrics@)
    }

    /// No two custom metrics have the same name.
    pub closed spec fn wf(&self) -> bool {
        forall|i: int, j: int|
            0 <= i < j < self.custom_metrics@.len() ==> #[trigger] self.custom_metrics@[i].name@
                != #[trigger] self.custom_metrics@[j].name@
    }

    /// A registry for a service, with no custom metric.
    pub fn new(service_name: &str) -> (r: Result<Self, RaftError>)
        ensures
            r matches Ok(reg) && reg.wf() && reg.service() == service_name@ && reg.customs().len() == 0,
    {
        Ok(MetricsRegistry {
            service_name: String::from_str(service_name),
            raft_metrics: RaftMetrics {},
            storage_metrics: StorageMetrics {},
            transport_metrics: TransportMetrics {},
            node_metrics: NodeMetrics {},
            custom_metrics: Vec::new(),
        })
    }

    /// The consensus metrics.
    pub fn raft_metrics(&self) -> (r: &RaftMetrics) {
        &self.raft_metrics
    }

    /// The storage metrics.
    pub fn storage_metrics(&self) -> (r: &StorageMetrics) {
        &self.storage_metrics
    }

    /// The transport metrics.
    pub fn transport_metrics(&self) -> (r: &TransportMetrics) {
        &self.transport_metrics
    }

    /// The node metrics.
    pub fn node_metrics(&self) -> (r: &NodeMetrics) {
        &self.node_metrics
    }

    /// The report for a scraping endpoint: collection is disabled, and the
    /// service is named.
    pub fn export_prometheus(&self) -> (r: Result<String, RaftError>)
        ensures
            r matches Ok(text) && text@ == disabled_report(self.service()),
    {
        Ok(cat3(
            "# Metrics collection disabled - enable 'metrics-otel' feature\n# Service: ",
            self.service_name.as_str(),
            "\n",
        ))
    }

    /// Register a counter under a name; a metric of the same name is
    /// replaced in its place.
    pub fn register_custom_counter(&mut self, name: &str, description: &str) -> (r: Result<(), RaftError>)
        requires
            old(self).wf(),
        ensures
            r is Ok,
            final(self).wf(),
            final(self).service() == old(self).service(),
            ({
                let entry = CustomMetricView {
                    name: name@,
                    description: description@,
                    metric_type: CustomMetricType::Counter,
                };
                if exists|i: int| 0 <= i < old(self).customs().len() && #[trigger] old(self).customs()[i].name == name@ {
                    let i = choose|i: int| 0 <= i < old(self).customs().len() && #[trigger] old(self).customs()[i].name == name@;
                    final(self).customs() == old(self).customs().update(i, entry)
                } else {
                    final(self).customs() == old(self).customs().push(entry)
                }
            }),
    {
        let metric = CustomMetric {
            name: String::from_str(name),
            description: String::from_str(description),
            metric_type: CustomMetricType::Counter,
        };
        let ghost entry = CustomMetricView { name: name@, description: description@, metric_type: CustomMetricType::Counter };
        let mut i: usize = 0;
        while i < self.custom_metrics.len()
            invariant
                i <= self.custom_metrics@.len(),
                self.custom_metrics@ == old(self).custom_metrics@,
                self.service_name == old(self).service_name,
                old(self).wf(),
                metric.name@ == name@,
                metric.description@ == description@,
                metric.metric_type == CustomMetricType::Counter,
                entry == (CustomMetricView { name: name@, description: description@, metric_type: CustomMetricType::Counter }),
                forall|k: int| 0 <= k < i ==> #[trigger] self.custom_metrics@[k].name@ != name@,
            decreases self.custom_metrics@.len() - i,
        {
            if str_eq(self.custom_metrics[i].name.as_str(), name) {
                proof {
                    let ghost old_c = old(self).customs();
                    assert(old_c[i as int].name == name@);
                    let j = choose|j: int| 0 <= j < old_c.len() && #[trigger] old_c[j].name == name@;
                    if j != i as int {
                        if j < i {
                            assert(self.custom_metrics@[j].name@ == name@);
                        } else {
                            assert(old(self).custom_metrics@[i as int].name@ != old(self).custom_metrics@[j].name@);
                        }
                    }
                }
                self.custom_metrics.set(i, metric);
                proof {
                    assert(self.custom_metrics@ == old(self).custom_metrics@.update(i as int, metric));
                    assert forall|k: int| 0 <= k < self.customs().len() implies #[trigger] self.customs()[k]
                        == old(self).customs().update(i as int, entry)[k] by {
                        if k == i as int {
                            assert(self.custom_metrics@[k] == metric);
                        } else {
                            assert(self.custom_metrics@[k] == old(self).custom_metrics@[k]);
                        }
                    }
                    assert(self.customs() =~= old(self).customs().update(i as int, entry));
                    assert forall|a: int, b: int| 0 <= a < b < self.custom_metrics@.len() implies #[trigger] self.custom_metrics@[a].name@
                        != #[trigger] self.custom_metrics@[b].name@ by {
                        if a != i as int && b != i as int {
                            assert(old(self).custom_metrics@[a].name@ != old(self).custom_metrics@[b].name@);
                        } else if a == i as int {
                            assert(old(self).custom_metrics@[a].name@ != old(self).custom_metrics@[b].name@);
                        } else {
                            assert(old(self).custom_metrics@[a].name@ != old(self).custom_metrics@[b].name@);
                        }
                    }
                }
                return Ok(());
            }
            i = i + 1;
        }
        self.custom_metrics.push(metric);
        proof {
            assert forall|k: int| 0 <= k < self.customs().len() implies #[trigger] self.customs()[k]
                == old(self).customs().push(entry)[k] by {
                if k < old(self).custom_metrics@.len() {
                    assert(self.custom_metrics@[k] == old(self).custom_metrics@[k]);
                }
            }
            assert(self.customs() =~= old(self).customs().push(entry));
            assert forall|k: int| 0 <= k < old(self).customs().len() implies #[trigger] old(self).customs()[k].name != name@ by {
                assert(old(self).custom_metrics@[k].name@ != name@);
            }
        }
        Ok(())
    }
}

/// A timer of the latency of one operation.
#[derive(Debug, Clone)]
pub struct LatencyTimer {
    /// When the timer started, in milliseconds since the Unix epoch
    pub start_ms: u64,
    /// The operation timed
    pub operation: String,
}

/// The time since `start_ms` at `now_ms`, zero when the clock went back.
pub open spec fn elapsed_since(start_ms: u64, now_ms: u64) -> u64 {
    if now_ms >= start_ms { (now_ms - start_ms) as u64 } else { 0 }
}

impl LatencyTimer {
    /// A timer of `operation` started at `now_ms`.
    pub fn start_at(operation: &str, now_ms: u64) -> (r: Self)
        ensures
            r.start_ms == now_ms,
            r.operation@ == operation@,
    {
        LatencyTimer { start_ms: now_ms, operation: String::from_str(operation) }
    }

    /// A timer of `operation` started now.
    pub fn start(operation: &str) -> (r: Self)
        ensures
            r.operation@ == operation@,
    {
        LatencyTimer::start_at(operation, crate::clock::system_now_ms())
    }

    /// The time since the timer started, at `now_ms`.
    pub fn elapsed_at(&self, now_ms: u64) -> (r: u64)
        ensures
            r == elapsed_since(self.start_ms, now_ms),
    {
        if now_ms >= self.start_ms { now_ms - self.start_ms } else { 0 }
    }

    /// The time since the timer started, by the system clock.
    pub fn elapsed(&self) -> (r: u64)
        ensures
            exists|now_ms: u64| r == #[trigger] elapsed_since(self.start_ms, now_ms),
    {
        self.elapsed_at(crate::clock::system_now_ms())
    }

    /// The operation timed.
    pub fn operation(&self) -> (r: &str)
        ensures
            r@ == self.operation@,
    {
        self.operation.as_str()
    }
}

} // verus!
