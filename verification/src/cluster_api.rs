//! High-level cluster API: the builder that prepares a cluster, and the
//! status, health and membership bookkeeping that the cluster handle keeps.
//!
//! The handle itself (locks, the user's state machine, the management
//! server) runs outside; it holds a [`ClusterCore`] and calls its methods.
//! Times are milliseconds since the Unix epoch; addresses are canonical
//! address texts.

use vstd::prelude::*;
use vstd::string::StringExecFns;
use crate::config::{Config, is_default_config, validation_issue, config_error_text, texts};
use crate::error::RaftError;
use crate::text::decimal;

verus! {

/// Role of a node in the Raft cluster.
#[derive(Debug, Clone, Copy, PartialEq, Eq, Structural)]
pub enum NodeRole {
    /// Node is the cluster leader
    Leader,
    /// Node is a follower
    Follower,
    /// Node is a candidate for leadership
    Candidate,
    /// Node is a learner (non-voting member)
    Learner,
}

/// Connectivity status of a node.
#[derive(Debug, Clone, Copy, PartialEq, Eq, Structural)]
pub enum NodeStatus {
    /// Node is online and reachable
    Online,
    /// Node is offline or unreachable
    Offline,
    /// Node status is unknown
    Unknown,
}

/// State of a Raft node.
#[derive(Debug, Clone, Copy, PartialEq, Eq, Structural)]
pub enum NodeState {
    /// Node is the leader
    Leader,
    /// Node is a follower
    Follower,
    /// Node is a candidate
    Candidate,
    /// Node is in pre-candidate state
    PreCandidate,
    /// Node is a learner
    Learner,
}

/// Overall health status.
#[derive(Debug, Clone, Copy, PartialEq, Eq, Structural)]
pub enum HealthStatus {
    /// Cluster is fully healthy
    Healthy,
    /// Cluster is functional but degraded
    Degraded,
    /// Cluster is unhealthy
    Unhealthy,
}

/// Status of an individual health check.
#[derive(Debug, Clone, Copy, PartialEq, Eq, Structural)]
pub enum CheckStatus {
    /// Check passed
    Pass,
    /// Check passed with warnings
    Warn,
    /// Check failed
    Fail,
}

/// Information about a cluster node.
#[derive(Debug, Clone)]
pub struct NodeInfo {
    /// Unique node identifier
    pub id: u64,
    /// Network address of the node
    pub address: String,
    /// Current role in the cluster
    pub role: NodeRole,
    /// Current connectivity status
    pub status: NodeStatus,
    /// Last successful contact with this node
    pub last_contact_ms: Option<u64>,
    /// Node metadata, as (key, value) pairs
    pub metadata: Vec<(String, String)>,
}

/// Individual health check result.
#[derive(Debug, Clone)]
pub struct HealthCheck {
    /// Name of the health check
    pub name: String,
    /// Status of this check
    pub status: CheckStatus,
    /// Details about the check result
    pub message: String,
    /// Time taken to perform the check, in milliseconds
    pub duration_ms: u64,
}

/// Health of the cluster.
#[derive(Debug, Clone)]
pub struct ClusterHealth {
    /// Overall health status
    pub status: HealthStatus,
    /// Individual health checks
    pub checks: Vec<HealthCheck>,
    /// Human-readable summary
    pub summary: String,
    /// When the health check was performed
    pub timestamp_ms: u64,
}

/// Result of an administrative operation.
#[derive(Debug, Clone)]
pub struct OperationResult {
    /// Whether the operation succeeded
    pub success: bool,
    /// Human-readable result message
    pub message: String,
    /// Unique identifier for tracking the operation
    pub operation_id: String,
    /// When the operation completed
    pub timestamp_ms: u64,
}

/// Current status of the Raft cluster.
#[derive(Debug, Clone)]
pub struct ClusterStatus {
    /// Unique cluster identifier
    pub cluster_id: String,
    /// Current leader node ID, if known
    pub leader_id: Option<u64>,
    /// Current Raft term
    pub term: u64,
    /// Highest log entry known to be committed
    pub commit_index: u64,
    /// Highest log entry applied to the state machine
    pub applied_index: u64,
    /// All nodes of the cluster
    pub nodes: Vec<NodeInfo>,
    /// Current state of this node
    pub state: NodeState,
    /// When this status was last updated
    pub last_updated_ms: u64,
}

/// What a cluster keeps besides its state machine: its node id, its
/// configuration, its status and its last health report.
pub struct ClusterCore {
    /// Node id of this cluster member
    pub node_id: u64,
    /// Validated configuration
    pub config: Config,
    /// Current status
    pub status: ClusterStatus,
    /// Last health report
    pub health: ClusterHealth,
    /// Address the management API serves on, if enabled
    pub management_api_addr: Option<String>,
}

/// Builder for clusters, with the defaults of [`Config`].
pub struct ClusterBuilder {
    node_id: u64,
    config: Config,
    management_api_addr: Option<String>,
}

/// A text is a random (version 4) UUID in hyphenated form.
pub open spec fn is_uuid_text(s: Seq<char>) -> bool {
    &&& s.len() == 36
    &&& s[8] == '-'
    &&& s[13] == '-'
    &&& s[14] == '4'
    &&& s[18] == '-'
    &&& s[23] == '-'
}

/// `Uuid::new_v4().to_string()`: a fresh random UUID in the hyphenated
/// lower-case form, 36 characters with the version digit 4; which UUID is
/// left unsaid, as it is random.
#[verifier::external_body]
pub(crate) fn new_uuid_text() -> (r: String)
    ensures
        is_uuid_text(r@),
{
    uuid::Uuid::new_v4().to_string()
}

impl ClusterBuilder {
    /// The node id the cluster will run as.
    pub closed spec fn node(self) -> u64 {
        self.node_id
    }

    /// The configuration built so far.
    pub closed spec fn current(self) -> Config {
        self.config
    }

    /// The management API address, if enabled.
    pub closed spec fn management_api(self) -> Option<String> {
        self.management_api_addr
    }

    /// A builder for node `node_id` with the default configuration.
    pub fn new(node_id: u64) -> (r: Self)
        ensures
            r.node() == node_id,
            r.current().node.id == Some(node_id),
            is_default_config(Config { node: crate::config::NodeConfig { id: None, ..r.current().node }, ..r.current() }),
            r.management_api() is None,
    {
        let mut config = Config::default();
        config.node.id = Some(node_id);
        ClusterBuilder { node_id, config, management_api_addr: None }
    }

    /// Set the bind address of the transport.
    pub fn bind_address(self, addr: String) -> (r: Self)
        ensures
            r.node() == self.node(),
            r.management_api() == self.management_api(),
            r.current() == (Config { transport: crate::config::TransportConfig { bind_address: addr, ..self.current().transport }, ..self.current() }),
    {
        let mut b = self;
        b.config.transport.bind_address = addr;
        b
    }

    /// Join an existing cluster through the given peers.
    pub fn join_cluster(self, peers: Vec<String>) -> (r: Self)
        ensures
            r.node() == self.node(),
            r.management_api() == self.management_api(),
            r.current() == (Config { transport: crate::config::TransportConfig { peers, ..self.current().transport }, ..self.current() }),
    {
        let mut b = self;
        b.config.transport.peers = peers;
        b
    }

    /// Set the data directory.
    pub fn data_dir(self, path: String) -> (r: Self)
        ensures
            r.node() == self.node(),
            r.management_api() == self.management_api(),
            r.current() == (Config { node: crate::config::NodeConfig { data_dir: path, ..self.current().node }, ..self.current() }),
    {
        let mut b = self;
        b.config.node.data_dir = path;
        b
    }

    /// Set the election timeout; the upper bound is 2000 ms above it.
    pub fn election_timeout(self, timeout_ms: u64) -> (r: Self)
        requires
            timeout_ms + 2000 <= u64::MAX,
        ensures
            r.node() == self.node(),
            r.management_api() == self.management_api(),
            r.current() == (Config { raft: crate::config::RaftConfig {
                election_timeout_min_ms: timeout_ms,
                election_timeout_max_ms: (timeout_ms + 2000) as u64,
                ..self.current().raft }, ..self.current() }),
    {
        let mut b = self;
        b.config.raft.election_timeout_min_ms = timeout_ms;
        b.config.raft.election_timeout_max_ms = timeout_ms + 2000;
        b
    }

    /// Set the heartbeat interval.
    pub fn heartbeat_interval(self, interval_ms: u64) -> (r: Self)
        ensures
            r.node() == self.node(),
            r.management_api() == self.management_api(),
            r.current() == (Config { raft: crate::config::RaftConfig { heartbeat_interval_ms: interval_ms, ..self.current().raft }, ..self.current() }),
    {
        let mut b = self;
        b.config.raft.heartbeat_interval_ms = interval_ms;
        b
    }

    /// Set the maximum number of uncommitted log entries.
    pub fn max_log_entries(self, max: u64) -> (r: Self)
        ensures
            r.node() == self.node(),
            r.management_api() == self.management_api(),
            r.current() == (Config { raft: crate::config::RaftConfig { max_uncommitted_entries: max, ..self.current().raft }, ..self.current() }),
    {
        let mut b = self;
        b.config.raft.max_uncommitted_entries = max;
        b
    }

    /// Enable the management API on an address.
    pub fn enable_management_api(self, addr: String) -> (r: Self)
        ensures
            r.node() == self.node(),
            r.current() == self.current(),
            r.management_api() == Some(addr),
    {
        let mut b = self;
        b.management_api_addr = Some(addr);
        b
    }

    /// Enable distributed tracing to an OTLP endpoint.
    pub fn enable_tracing(self, endpoint: String) -> (r: Self)
        ensures
            r.node() == self.node(),
            r.management_api() == self.management_api(),
            r.current() == (Config { observability: crate::config::ObservabilityConfig { tracing: crate::config::TracingConfig {
                enabled: true, otlp_endpoint: Some(endpoint), ..self.current().observability.tracing },
                ..self.current().observability }, ..self.current() }),
    {
        let mut b = self;
        b.config.observability.tracing.enabled = true;
        b.config.observability.tracing.otlp_endpoint = Some(endpoint);
        b
    }

    /// Set the tracing sample rate, given as the bits of the double.
    pub fn tracing_sample_rate(self, rate_bits: u64) -> (r: Self)
        ensures
            r.node() == self.node(),
            r.management_api() == self.management_api(),
            r.current() == (Config { observability: crate::config::ObservabilityConfig { tracing: crate::config::TracingConfig {
                sample_rate_bits: rate_bits, ..self.current().observability.tracing },
                ..self.current().observability }, ..self.current() }),
    {
        let mut b = self;
        b.config.observability.tracing.sample_rate_bits = rate_bits;
        b
    }

    /// Enable debug mode.
    pub fn debug(self, enabled: bool) -> (r: Self)
        ensures
            r.node() == self.node(),
            r.management_api() == self.management_api(),
            r.current() == (Config { node: crate::config::NodeConfig { debug: enabled, ..self.current().node }, ..self.current() }),
    {
        let mut b = self;
        b.config.node.debug = enabled;
        b
    }

    /// Set the log level.
    pub fn log_level(self, level: String) -> (r: Self)
        ensures
            r.node() == self.node(),
            r.management_api() == self.management_api(),
            r.current() == (Config { observability: crate::config::ObservabilityConfig { logging: crate::config::LoggingConfig {
                level, ..self.current().observability.logging },
                ..self.current().observability }, ..self.current() }),
    {
        let mut b = self;
        b.config.observability.logging.level = level;
        b
    }

    /// Validate the configuration and prepare the cluster's bookkeeping at
    /// time `now_ms` under the cluster id `cluster_id`.
    pub fn build_at(self, now_ms: u64, cluster_id: String) -> (r: Result<ClusterCore, RaftError>)
        ensures
            match validation_issue(self.current()) {
                Some(_) => r matches Err(RaftError::InvalidConfiguration { component, message })
                    && component@ == "cluster_builder"@
                    && exists|e: crate::config::ConfigError| crate::config::reports_issue(Err::<(), crate::config::ConfigError>(e), validation_issue(self.current()))
                        && message@ == "Configuration validation failed: "@ + config_error_text(e),
                None => r matches Ok(c) && c.node_id == self.node() && c.config == self.current()
                    && c.management_api_addr == self.management_api()
                    && is_starting_core(c, cluster_id@, now_ms),
            },
    {
        match self.config.validate() {
            Ok(()) => {},
            Err(e) => {
                let text = e.message();
                let mut m = String::from_str("Configuration validation failed: ");
                m.append(text.as_str());
                return Err(RaftError::InvalidConfiguration {
                    component: String::from_str("cluster_builder"),
                    message: m,
                });
            },
        }
        let me = NodeInfo {
            id: self.node_id,
            address: self.config.transport.bind_address.clone(),
            role: NodeRole::Follower,
            status: NodeStatus::Online,
            last_contact_ms: Some(now_ms),
            metadata: Vec::new(),
        };
        let mut nodes: Vec<NodeInfo> = Vec::new();
        nodes.push(me);
        let status = ClusterStatus {
            cluster_id,
            leader_id: None,
            term: 0,
            commit_index: 0,
            applied_index: 0,
            nodes,
            state: NodeState::Follower,
            last_updated_ms: now_ms,
        };
        let health = ClusterHealth {
            status: HealthStatus::Healthy,
            checks: Vec::new(),
            summary: String::from_str("Cluster starting up"),
            timestamp_ms: now_ms,
        };
        Ok(ClusterCore {
            node_id: self.node_id,
            config: self.config,
            status,
            health,
            management_api_addr: self.management_api_addr,
        })
    }

    /// Validate the configuration and prepare the cluster's bookkeeping now,
    /// under a fresh random cluster id.
    pub fn build(self) -> (r: Result<ClusterCore, RaftError>)
        ensures
            validation_issue(self.current()) is Some ==> (r matches Err(RaftError::InvalidConfiguration { component, message })
                && component@ == "cluster_builder"@
                && exists|e: crate::config::ConfigError| crate::config::reports_issue(Err::<(), crate::config::ConfigError>(e), validation_issue(self.current()))
                    && message@ == "Configuration validation failed: "@ + config_error_text(e)),
            validation_issue(self.current()) is None ==> (r matches Ok(c) && c.node_id == self.node()
                && c.config == self.current() && c.management_api_addr == self.management_api()
                && is_uuid_text(c.status.cluster_id@)
                && is_starting_core(c, c.status.cluster_id@, c.status.last_updated_ms)),
    {
        let now = crate::clock::system_now_ms();
        let id = new_uuid_text();
        self.build_at(now, id)
    }
}

/// A freshly built cluster: one node (this one, at the bind address, an
/// online follower last contacted now), follower state at term zero, and a
/// healthy report "Cluster starting up" with no checks.
pub open spec fn is_starting_core(c: ClusterCore, cluster_id: Seq<char>, now_ms: u64) -> bool {
    &&& c.status.cluster_id@ == cluster_id
    &&& c.status.leader_id is None
    &&& c.status.term == 0
    &&& c.status.commit_index == 0
    &&& c.status.applied_index == 0
    &&& c.status.nodes@.len() == 1
    &&& c.status.nodes@[0].id == c.node_id
    &&& c.status.nodes@[0].address@ == c.config.transport.bind_address@
    &&& c.status.nodes@[0].role == NodeRole::Follower
    &&& c.status.nodes@[0].status == NodeStatus::Online
    &&& c.status.nodes@[0].last_contact_ms == Some(now_ms)
    &&& c.status.nodes@[0].metadata@.len() == 0
    &&& c.status.state == NodeState::Follower
    &&& c.status.last_updated_ms == now_ms
    &&& c.health.status == HealthStatus::Healthy
    &&& c.health.checks@.len() == 0
    &&& c.health.summary@ == "Cluster starting up"@
    &&& c.health.timestamp_ms == now_ms
}

/// The ids of a list of nodes.
pub open spec fn node_ids(nodes: Seq<NodeInfo>) -> Seq<u64> {
    nodes.map_values(|n: NodeInfo| n.id)
}

/// The three checks a health report holds: consensus (1 ms), storage (2 ms)
/// and network (5 ms), all passing.
pub open spec fn standard_checks(checks: Seq<HealthCheck>) -> bool {
    &&& checks.len() == 3
    &&& checks[0].name@ == "consensus"@ && checks[0].status == CheckStatus::Pass
        && checks[0].message@ == "Consensus algorithm functioning normally"@ && checks[0].duration_ms == 1
    &&& checks[1].name@ == "storage"@ && checks[1].status == CheckStatus::Pass
        && checks[1].message@ == "Storage backend operational"@ && checks[1].duration_ms == 2
    &&& checks[2].name@ == "network"@ && checks[2].status == CheckStatus::Pass
        && checks[2].message@ == "Network connectivity good"@ && checks[2].duration_ms == 5
}

/// A health report of a working cluster at time `now_ms`.
pub open spec fn is_operational_health(h: ClusterHealth, now_ms: u64) -> bool {
    &&& h.status == HealthStatus::Healthy
    &&& standard_checks(h.checks@)
    &&& h.summary@ == "All systems operational"@
    &&& h.timestamp_ms == now_ms
}

fn check(name: &str, message: &str, duration_ms: u64) -> (r: HealthCheck)
    ensures
        r.name@ == name@,
        r.status == CheckStatus::Pass,
        r.message@ == message@,
        r.duration_ms == duration_ms,
{
    HealthCheck {
        name: String::from_str(name),
        status: CheckStatus::Pass,
        message: String::from_str(message),
        duration_ms,
    }
}

fn operational_health(now_ms: u64) -> (r: ClusterHealth)
    ensures
        is_operational_health(r, now_ms),
{
    let mut checks: Vec<HealthCheck> = Vec::new();
    checks.push(check("consensus", "Consensus algorithm functioning normally", 1));
    checks.push(check("storage", "Storage backend operational", 2));
    checks.push(check("network", "Network connectivity good", 5));
    ClusterHealth {
        status: HealthStatus::Healthy,
        checks,
        summary: String::from_str("All systems operational"),
        timestamp_ms: now_ms,
    }
}

fn numbered_message(prefix: &str, id: u64, suffix: &str) -> (r: String)
    ensures
        r@ == prefix@ + decimal(id as nat) + suffix@,
{
    let mut m = String::from_str(prefix);
    crate::text::push_decimal(&mut m, id);
    m.append(suffix);
    m
}

/// Remove every node with the given id, keeping the others in order.
fn remove_nodes_with_id(nodes: &mut Vec<NodeInfo>, id: u64)
    ensures
        final(nodes)@ == old(nodes)@.filter(|n: NodeInfo| n.id != id),
{
    let ghost pred = |n: NodeInfo| n.id != id;
    let ghost orig = nodes@;
    let ghost mut j: int = 0;
    let mut i: usize = 0;
    while i < nodes.len()
        invariant
            0 <= j <= orig.len(),
            pred == (|n: NodeInfo| n.id != id),
            orig == old(nodes)@,
            nodes@ == orig.take(j).filter(pred) + orig.skip(j),
            i == orig.take(j).filter(pred).len(),
        decreases orig.len() - j,
    {
        proof {
            crate::seqs::lemma_filter_take_step(orig, pred, j);
            assert(nodes@[i as int] == orig[j]);
        }
        if nodes[i].id == id {
            let ghost before = nodes@;
            nodes.remove(i);
            proof {
                assert(nodes@ =~= orig.take(j + 1).filter(pred) + orig.skip(j + 1));
                j = j + 1;
            }
        } else {
            proof {
                assert(nodes@ =~= orig.take(j + 1).filter(pred) + orig.skip(j + 1));
                j = j + 1;
            }
            i = i + 1;
        }
    }
    proof {
        assert(orig.skip(j).len() == 0);
        assert(j == orig.len());
        crate::seqs::lemma_take_all(orig);
        assert(nodes@ =~= orig.filter(pred));
    }
}

/// The position of the first node with an id, if any.
pub open spec fn first_node(nodes: Seq<NodeInfo>, id: u64) -> Option<int> {
    if exists|i: int| 0 <= i < nodes.len() && #[trigger] nodes[i].id == id {
        Some(choose|i: int| 0 <= i < nodes.len() && #[trigger] nodes[i].id == id
            && forall|k: int| 0 <= k < i ==> #[trigger] nodes[k].id != id)
    } else {
        None
    }
}

/// Two descriptions of a node carry the same values.
pub open spec fn same_node(a: NodeInfo, b: NodeInfo) -> bool {
    &&& a.id == b.id
    &&& a.address@ == b.address@
    &&& a.role == b.role
    &&& a.status == b.status
    &&& a.last_contact_ms == b.last_contact_ms
    &&& a.metadata@.len() == b.metadata@.len()
    &&& forall|i: int| 0 <= i < a.metadata@.len() ==> #[trigger] a.metadata@[i].0@ == b.metadata@[i].0@
        && a.metadata@[i].1@ == b.metadata@[i].1@
}

fn copy_node(n: &NodeInfo) -> (r: NodeInfo)
    ensures
        same_node(r, *n),
{
    let mut metadata: Vec<(String, String)> = Vec::new();
    let mut i: usize = 0;
    while i < n.metadata.len()
        invariant
            i <= n.metadata@.len(),
            metadata@.len() == i,
            forall|k: int| 0 <= k < i ==> #[trigger] metadata@[k].0@ == n.metadata@[k].0@
                && metadata@[k].1@ == n.metadata@[k].1@,
        decreases n.metadata@.len() - i,
    {
        let (key, value) = &n.metadata[i];
        metadata.push((key.clone(), value.clone()));
        i = i + 1;
    }
    NodeInfo {
        id: n.id,
        address: n.address.clone(),
        role: n.role,
        status: n.status,
        last_contact_ms: n.last_contact_ms,
        metadata,
    }
}

impl ClusterCore {
    /// Add a node as a learner of unknown status at time `now_ms`,
    /// reporting the operation under `operation_id`.
    pub fn add_node_at(&mut self, node_id: u64, address: String, now_ms: u64, operation_id: String) -> (r: OperationResult)
        ensures
            final(self).status.nodes@.len() == old(self).status.nodes@.len() + 1,
            final(self).status.nodes@.take(old(self).status.nodes@.len() as int) == old(self).status.nodes@,
            final(self).status.nodes@.last().id == node_id,
            final(self).status.nodes@.last().address == address,
            final(self).status.nodes@.last().role == NodeRole::Learner,
            final(self).status.nodes@.last().status == NodeStatus::Unknown,
            final(self).status.nodes@.last().last_contact_ms is None,
            final(self).status.nodes@.last().metadata@.len() == 0,
            final(self).status.last_updated_ms == now_ms,
            final(self).status == (ClusterStatus { nodes: final(self).status.nodes, last_updated_ms: now_ms, ..old(self).status }),
            *final(self) == (ClusterCore { status: final(self).status, ..*old(self) }),
            r.success,
            r.message@ == "Node "@ + decimal(node_id as nat) + " added successfully"@,
            r.operation_id == operation_id,
            r.timestamp_ms == now_ms,
    {
        let ghost before = self.status.nodes@;
        self.status.nodes.push(NodeInfo {
            id: node_id,
            address,
            role: NodeRole::Learner,
            status: NodeStatus::Unknown,
            last_contact_ms: None,
            metadata: Vec::new(),
        });
        assert(self.status.nodes@.take(before.len() as int) =~= before);
        self.status.last_updated_ms = now_ms;
        OperationResult {
            success: true,
            message: numbered_message("Node ", node_id, " added successfully"),
            operation_id,
            timestamp_ms: now_ms,
        }
    }

    /// Add a node now, under a fresh operation id.
    pub fn add_node(&mut self, node_id: u64, address: String) -> (r: OperationResult)
        ensures
            final(self).status.nodes@.len() == old(self).status.nodes@.len() + 1,
            final(self).status.nodes@.take(old(self).status.nodes@.len() as int) == old(self).status.nodes@,
            final(self).status.nodes@.last().id == node_id,
            final(self).status.nodes@.last().role == NodeRole::Learner,
            r.success,
            r.message@ == "Node "@ + decimal(node_id as nat) + " added successfully"@,
            is_uuid_text(r.operation_id@),
    {
        let now = crate::clock::system_now_ms();
        let id = new_uuid_text();
        self.add_node_at(node_id, address, now, id)
    }

    /// Remove every node with the given id at time `now_ms`, reporting the
    /// operation under `operation_id`.
    pub fn remove_node_at(&mut self, node_id: u64, now_ms: u64, operation_id: String) -> (r: OperationResult)
        ensures
            final(self).status.nodes@ == old(self).status.nodes@.filter(|n: NodeInfo| n.id != node_id),
            final(self).status == (ClusterStatus { nodes: final(self).status.nodes, last_updated_ms: now_ms, ..old(self).status }),
            *final(self) == (ClusterCore { status: final(self).status, ..*old(self) }),
            r.success,
            r.message@ == "Node "@ + decimal(node_id as nat) + " removed successfully"@,
            r.operation_id == operation_id,
            r.timestamp_ms == now_ms,
    {
        remove_nodes_with_id(&mut self.status.nodes, node_id);
        self.status.last_updated_ms = now_ms;
        OperationResult {
            success: true,
            message: numbered_message("Node ", node_id, " removed successfully"),
            operation_id,
            timestamp_ms: now_ms,
        }
    }

    /// Remove every node with the given id now, under a fresh operation id.
    pub fn remove_node(&mut self, node_id: u64) -> (r: OperationResult)
        ensures
            final(self).status.nodes@ == old(self).status.nodes@.filter(|n: NodeInfo| n.id != node_id),
            r.success,
            r.message@ == "Node "@ + decimal(node_id as nat) + " removed successfully"@,
            is_uuid_text(r.operation_id@),
    {
        let now = crate::clock::system_now_ms();
        let id = new_uuid_text();
        self.remove_node_at(node_id, now, id)
    }

    /// Report a leadership transfer to `to_node` as initiated at `now_ms`.
    pub fn transfer_leadership_at(&self, to_node: u64, now_ms: u64, operation_id: String) -> (r: OperationResult)
        ensures
            r.success,
            r.message@ == "Leadership transfer to node "@ + decimal(to_node as nat) + " initiated"@,
            r.operation_id == operation_id,
            r.timestamp_ms == now_ms,
    {
        OperationResult {
            success: true,
            message: numbered_message("Leadership transfer to node ", to_node, " initiated"),
            operation_id,
            timestamp_ms: now_ms,
        }
    }

    /// Report a leadership transfer to `to_node` as initiated now.
    pub fn transfer_leadership(&self, to_node: u64) -> (r: OperationResult)
        ensures
            r.success,
            r.message@ == "Leadership transfer to node "@ + decimal(to_node as nat) + " initiated"@,
            is_uuid_text(r.operation_id@),
    {
        let now = crate::clock::system_now_ms();
        let id = new_uuid_text();
        self.transfer_leadership_at(to_node, now, id)
    }

    /// Check the cluster's health at `now_ms`, keep the report and return it.
    pub fn health_at(&mut self, now_ms: u64) -> (r: ClusterHealth)
        ensures
            is_operational_health(r, now_ms),
            is_operational_health(final(self).health, now_ms),
            *final(self) == (ClusterCore { health: final(self).health, ..*old(self) }),
    {
        self.health = operational_health(now_ms);
        operational_health(now_ms)
    }

    /// The node with an id, as the node endpoint answers it: the first
    /// node with that id, or none (answered as not found).
    pub fn get_node(&self, node_id: u64) -> (r: Option<NodeInfo>)
        ensures
            match first_node(self.status.nodes@, node_id) {
                Some(i) => r matches Some(n) && same_node(n, self.status.nodes@[i]),
                None => r is None,
            },
    {
        let nodes = &self.status.nodes;
        let mut i: usize = 0;
        while i < nodes.len()
            invariant
                i <= nodes@.len(),
                nodes@ == self.status.nodes@,
                forall|k: int| 0 <= k < i ==> #[trigger] nodes@[k].id != node_id,
            decreases nodes@.len() - i,
        {
            if nodes[i].id == node_id {
                proof {
                    let w = choose|w: int| 0 <= w < nodes@.len() && #[trigger] nodes@[w].id == node_id
                        && forall|k: int| 0 <= k < w ==> #[trigger] nodes@[k].id != node_id;
                    assert(nodes@[i as int].id == node_id);
                    if w < i as int {
                        assert(nodes@[w].id != node_id);
                    } else if w > i as int {
                        assert(nodes@[i as int].id != node_id);
                    }
                }
                return Some(copy_node(&nodes[i]));
            }
            i = i + 1;
        }
        None
    }

    /// Check the cluster's health now, keep the report and return it.
    pub fn health(&mut self) -> (r: ClusterHealth)
        ensures
            r.status == HealthStatus::Healthy,
            standard_checks(r.checks@),
            r.summary@ == "All systems operational"@,
            *final(self) == (ClusterCore { health: final(self).health, ..*old(self) }),
    {
        let now = crate::clock::system_now_ms();
        self.health_at(now)
    }
}

} // verus!
