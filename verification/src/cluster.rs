//! Cluster status types and the decisions of the cluster command loop.
//!
//! The command loop itself (channels, the task that serves them) runs
//! outside; it hands each command to [`command_reply`] and sends back what
//! that function decides.  Averages and rates that the status reports as
//! doubles are held as the bit patterns of those doubles.

use vstd::prelude::*;
use vstd::string::StringExecFns;
use crate::config::Config;
use crate::error::RaftError;

verus! {

/// The state machines a cluster runs: every node state machine is one.
pub trait ClusterStateMachine: crate::node::NodeStateMachine {}

impl<T: crate::node::NodeStateMachine> ClusterStateMachine for T {}

/// Health state of a cluster component.
#[derive(Debug, Clone, Copy, PartialEq, Eq, Structural)]
pub enum Health {
    /// Component is healthy
    Healthy,
    /// Component is degraded but functional
    Degraded,
    /// Component is unhealthy
    Unhealthy,
}

/// Node role in the Raft cluster.
#[derive(Debug, Clone, Copy, PartialEq, Eq, Structural)]
pub enum NodeRole {
    /// Node is a follower
    Follower,
    /// Node is a candidate
    Candidate,
    /// Node is the leader
    Leader,
}

/// Configuration of a cluster member to add.
#[derive(Debug, Clone)]
pub struct MemberConfig {
    /// Node ID of the member
    pub node_id: u64,
    /// Network address of the member
    pub address: String,
    /// Optional metadata of the member, as (key, value) pairs
    pub metadata: Option<Vec<(String, String)>>,
}

/// Health status of the cluster.
#[derive(Debug, Clone)]
pub struct HealthStatus {
    /// Overall cluster health
    pub overall: Health,
    /// Health of individual components, by name
    pub components: Vec<(String, Health)>,
    /// When the check ran, in milliseconds since the Unix epoch
    pub last_check_ms: u64,
}

/// Cluster performance and operational metrics.
#[derive(Debug, Clone, Copy, PartialEq, Eq, Structural)]
pub struct ClusterMetrics {
    /// Total number of proposals processed
    pub total_proposals: u64,
    /// Number of successful proposals
    pub successful_proposals: u64,
    /// Number of failed proposals
    pub failed_proposals: u64,
    /// Total number of queries processed
    pub total_queries: u64,
    /// Bits of the double average proposal latency in milliseconds
    pub avg_proposal_latency_ms_bits: u64,
    /// Bits of the double average query latency in milliseconds
    pub avg_query_latency_ms_bits: u64,
    /// Current memory usage in bytes
    pub memory_usage_bytes: u64,
    /// Storage size in bytes
    pub storage_size_bytes: u64,
}

/// Current status of the cluster.
#[derive(Debug, Clone)]
pub struct ClusterStatus {
    /// This node's ID
    pub node_id: u64,
    /// Current Raft role
    pub role: NodeRole,
    /// Current Raft term
    pub term: u64,
    /// Current commit index
    pub commit_index: u64,
    /// Last applied index
    pub applied_index: u64,
    /// Current cluster members
    pub members: Vec<u64>,
    /// Leader node ID, if known
    pub leader_id: Option<u64>,
    /// Health status of the cluster
    pub health: HealthStatus,
    /// Cluster metrics
    pub metrics: ClusterMetrics,
}

/// High-level cluster configuration information.
#[derive(Debug)]
pub struct ClusterConfig {
    /// Cluster name or identifier
    pub name: Option<String>,
    /// Number of nodes in the cluster
    pub node_count: usize,
    /// Replication factor
    pub replication_factor: usize,
    /// Election timeout range in milliseconds
    pub election_timeout_ms: (u64, u64),
    /// Heartbeat interval in milliseconds
    pub heartbeat_interval_ms: u64,
}

/// Information about a cluster member.
#[derive(Debug, Clone)]
pub struct MemberInfo {
    /// Node ID
    pub node_id: u64,
    /// Network address
    pub address: String,
    /// Current role
    pub role: NodeRole,
    /// Whether the node is reachable
    pub reachable: bool,
    /// When the node was last seen, in milliseconds since the Unix epoch
    pub last_seen_ms: u64,
    /// Node metadata, as (key, value) pairs
    pub metadata: Vec<(String, String)>,
}

/// Cluster membership information.
#[derive(Debug, Clone)]
pub struct ClusterMembership {
    /// All cluster members
    pub members: Vec<MemberInfo>,
    /// Current leader
    pub leader: Option<MemberInfo>,
    /// Nodes currently joining the cluster
    pub joining: Vec<MemberInfo>,
    /// Nodes currently leaving the cluster
    pub leaving: Vec<MemberInfo>,
}

/// Cluster performance statistics.
#[derive(Debug, Clone, Copy, PartialEq, Eq, Structural)]
pub struct ClusterStatistics {
    /// Uptime in seconds
    pub uptime_seconds: u64,
    /// Total operations processed
    pub total_operations: u64,
    /// Bits of the double current rate of operations per second
    pub ops_per_second_bits: u64,
    /// Bits of the double average latency in milliseconds
    pub avg_latency_ms_bits: u64,
    /// Bits of the double error rate in percent
    pub error_rate_percent_bits: u64,
}

/// Information about the cluster configuration and state.
#[derive(Debug)]
pub struct ClusterInfo {
    /// Cluster configuration
    pub config: ClusterConfig,
    /// Current membership
    pub membership: ClusterMembership,
    /// Performance statistics
    pub statistics: ClusterStatistics,
}

/// The operations the cluster command loop serves, with the arguments its
/// decisions read.
#[derive(Debug, Clone)]
pub enum ClusterCommandKind {
    /// Propose a command through consensus
    Propose,
    /// Execute a read-only query
    Query,
    /// Add a member to the cluster
    AddMember(MemberConfig),
    /// Remove a member from the cluster
    RemoveMember(u64),
    /// Transfer leadership to another node
    TransferLeadership(u64),
    /// Get the current cluster status
    GetStatus,
    /// Perform a health check
    HealthCheck,
    /// Get cluster information
    GetClusterInfo,
    /// Take a snapshot
    TakeSnapshot,
    /// Compact log entries up to an index
    CompactLog(u64),
}

/// What the command loop answers a command with.
#[derive(Debug)]
pub enum ClusterReply {
    /// The operation failed with this error
    Failed(RaftError),
    /// The current status
    Status(ClusterStatus),
    /// The current health
    Health(HealthStatus),
    /// The cluster information
    Info(ClusterInfo),
}

impl ClusterMetrics {
    /// All counters zero and all averages `0.0`.
    pub open spec fn zero() -> ClusterMetrics {
        ClusterMetrics {
            total_proposals: 0,
            successful_proposals: 0,
            failed_proposals: 0,
            total_queries: 0,
            avg_proposal_latency_ms_bits: 0,
            avg_query_latency_ms_bits: 0,
            memory_usage_bytes: 0,
            storage_size_bytes: 0,
        }
    }
}

impl Default for ClusterMetrics {
    fn default() -> (r: Self)
        ensures
            r == ClusterMetrics::zero(),
    {
        ClusterMetrics {
            total_proposals: 0,
            successful_proposals: 0,
            failed_proposals: 0,
            total_queries: 0,
            avg_proposal_latency_ms_bits: 0,
            avg_query_latency_ms_bits: 0,
            memory_usage_bytes: 0,
            storage_size_bytes: 0,
        }
    }
}

/// The cluster information is empty: no name, no nodes, zero timings, no
/// members and zero statistics.
pub open spec fn is_empty_info(i: ClusterInfo) -> bool {
    &&& i.config.name is None
    &&& i.config.node_count == 0
    &&& i.config.replication_factor == 0
    &&& i.config.election_timeout_ms == (0u64, 0u64)
    &&& i.config.heartbeat_interval_ms == 0
    &&& i.membership.members@.len() == 0
    &&& i.membership.leader is None
    &&& i.membership.joining@.len() == 0
    &&& i.membership.leaving@.len() == 0
    &&& i.statistics == (ClusterStatistics {
            uptime_seconds: 0,
            total_operations: 0,
            ops_per_second_bits: 0,
            avg_latency_ms_bits: 0,
            error_rate_percent_bits: 0,
        })
}

impl Default for ClusterInfo {
    fn default() -> (r: Self)
        ensures
            is_empty_info(r),
    {
        ClusterInfo {
            config: ClusterConfig {
                name: None,
                node_count: 0,
                replication_factor: 0,
                election_timeout_ms: (0, 0),
                heartbeat_interval_ms: 0,
            },
            membership: ClusterMembership {
                members: Vec::new(),
                leader: None,
                joining: Vec::new(),
                leaving: Vec::new(),
            },
            statistics: ClusterStatistics {
                uptime_seconds: 0,
                total_operations: 0,
                ops_per_second_bits: 0,
                avg_latency_ms_bits: 0,
                error_rate_percent_bits: 0,
            },
        }
    }
}

impl HealthStatus {
    /// A health report with the given overall state and no components.
    pub fn overall_only(overall: Health, now_ms: u64) -> (r: Self)
        ensures
            r.overall == overall,
            r.components@.len() == 0,
            r.last_check_ms == now_ms,
    {
        HealthStatus { overall, components: Vec::new(), last_check_ms: now_ms }
    }
}

impl ClusterStatus {
    /// The status reported for this node: a follower at term zero with no
    /// members, no known leader, zero metrics and the given overall health.
    pub open spec fn is_initial(s: ClusterStatus, node_id: u64, overall: Health, now_ms: u64) -> bool {
        &&& s.node_id == node_id
        &&& s.role == NodeRole::Follower
        &&& s.term == 0
        &&& s.commit_index == 0
        &&& s.applied_index == 0
        &&& s.members@.len() == 0
        &&& s.leader_id is None
        &&& s.health.overall == overall
        &&& s.health.components@.len() == 0
        &&& s.health.last_check_ms == now_ms
        &&& s.metrics == ClusterMetrics::zero()
    }

    /// The status of a node that has not started replicating.
    pub fn initial(node_id: u64, overall: Health, now_ms: u64) -> (r: Self)
        ensures
            ClusterStatus::is_initial(r, node_id, overall, now_ms),
    {
        ClusterStatus {
            node_id,
            role: NodeRole::Follower,
            term: 0,
            commit_index: 0,
            applied_index: 0,
            members: Vec::new(),
            leader_id: None,
            health: HealthStatus::overall_only(overall, now_ms),
            metrics: ClusterMetrics::default(),
        }
    }

    /// The status reported when the command loop cannot be reached: the
    /// node's initial status, unhealthy.
    pub fn unreachable(node_id: u64, now_ms: u64) -> (r: Self)
        ensures
            ClusterStatus::is_initial(r, node_id, Health::Unhealthy, now_ms),
    {
        ClusterStatus::initial(node_id, Health::Unhealthy, now_ms)
    }
}

/// The feature a command names when the loop does not implement it.
pub open spec fn unimplemented_feature(cmd: ClusterCommandKind) -> Option<Seq<char>> {
    match cmd {
        ClusterCommandKind::Propose => Some("cluster proposals"@),
        ClusterCommandKind::Query => Some("cluster queries"@),
        ClusterCommandKind::AddMember(_) => Some("add member"@),
        ClusterCommandKind::RemoveMember(_) => Some("remove member"@),
        ClusterCommandKind::TransferLeadership(_) => Some("transfer leadership"@),
        ClusterCommandKind::TakeSnapshot => Some("take snapshot"@),
        ClusterCommandKind::CompactLog(_) => Some("compact log"@),
        _ => None,
    }
}

/// The reply the loop of node `node_id` owes a command at time `now_ms`:
/// the operations that change the cluster fail as not implemented; a status
/// request gets the node's initial status, healthy; a health check gets a healthy report;
/// an information request gets the empty information.
pub open spec fn reply_for(cmd: ClusterCommandKind, node_id: u64, now_ms: u64, r: ClusterReply) -> bool {
    match unimplemented_feature(cmd) {
        Some(f) => r matches ClusterReply::Failed(RaftError::NotImplemented { feature }) && feature@ == f,
        None => match cmd {
            ClusterCommandKind::GetStatus => r matches ClusterReply::Status(s)
                && ClusterStatus::is_initial(s, node_id, Health::Healthy, now_ms),
            ClusterCommandKind::HealthCheck => r matches ClusterReply::Health(h)
                && h.overall == Health::Healthy && h.components@.len() == 0 && h.last_check_ms == now_ms,
            _ => r matches ClusterReply::Info(i) && is_empty_info(i),
        },
    }
}

fn not_implemented(feature: &str) -> (r: ClusterReply)
    ensures
        r matches ClusterReply::Failed(RaftError::NotImplemented { feature: f }) && f@ == feature@,
{
    ClusterReply::Failed(RaftError::NotImplemented { feature: String::from_str(feature) })
}

/// Decide the reply to one command of the cluster command loop of node
/// `node_id`.
pub fn command_reply(cmd: &ClusterCommandKind, node_id: u64, now_ms: u64) -> (r: ClusterReply)
    ensures
        reply_for(*cmd, node_id, now_ms, r),
{
    match cmd {
        ClusterCommandKind::Propose => not_implemented("cluster proposals"),
        ClusterCommandKind::Query => not_implemented("cluster queries"),
        ClusterCommandKind::AddMember(_) => not_implemented("add member"),
        ClusterCommandKind::RemoveMember(_) => not_implemented("remove member"),
        ClusterCommandKind::TransferLeadership(_) => not_implemented("transfer leadership"),
        ClusterCommandKind::GetStatus => ClusterReply::Status(ClusterStatus::initial(node_id, Health::Healthy, now_ms)),
        ClusterCommandKind::HealthCheck => ClusterReply::Health(HealthStatus::overall_only(Health::Healthy, now_ms)),
        ClusterCommandKind::GetClusterInfo => ClusterReply::Info(ClusterInfo::default()),
        ClusterCommandKind::TakeSnapshot => not_implemented("take snapshot"),
        ClusterCommandKind::CompactLog(_) => not_implemented("compact log"),
    }
}

/// The node id a cluster runs as, taken from its configuration.
pub fn cluster_node_id(config: &Config) -> (r: Result<u64, RaftError>)
    ensures
        match config.node.id {
            Some(id) => r == Ok::<u64, RaftError>(id),
            None => r matches Err(RaftError::MissingConfiguration { parameter, component })
                && parameter@ == "node_id"@ && component@ == "cluster"@,
        },
{
    match config.node.id {
        Some(id) => Ok(id),
        None => Err(RaftError::MissingConfiguration {
            parameter: String::from_str("node_id"),
            component: String::from_str("cluster"),
        }),
    }
}

/// The error of an operation whose command could not be handed to the loop.
pub fn command_channel_closed() -> (r: RaftError)
    ensures
        r matches RaftError::ServiceUnavailable { service, reason }
            && service@ == "cluster"@ && reason@ == "cluster command channel closed"@,
{
    RaftError::ServiceUnavailable {
        service: String::from_str("cluster"),
        reason: String::from_str("cluster command channel closed"),
    }
}

/// The error of an operation whose reply never came back; `operation` names
/// it (for example "proposal" or "add member").
pub fn response_channel_closed(operation: &str) -> (r: RaftError)
    ensures
        r matches RaftError::Internal { message } && message@ == operation@ + " response channel closed"@,
{
    let mut m = String::from_str(operation);
    m.append(" response channel closed");
    RaftError::Internal { message: m }
}

} // verus!
