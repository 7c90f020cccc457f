//! Request and response shapes of the management API, with the rules that
//! derive their summary fields (overall health, readiness, cluster size).
//!
//! Times are milliseconds since the Unix epoch, durations milliseconds.

use vstd::prelude::*;
use vstd::string::StringExecFns;

verus! {

/// State of a node.
#[derive(Debug, Clone, Copy, PartialEq, Eq, Structural)]
pub enum NodeState {
    /// Follower
    Follower,
    /// Candidate
    Candidate,
    /// Leader
    Leader,
    /// Learner
    Learner,
    /// Offline
    Offline,
}

/// Role of a member.
#[derive(Debug, Clone, Copy, PartialEq, Eq, Structural)]
pub enum NodeRole {
    /// Voting member
    Voter,
    /// Non-voting member
    Learner,
}

/// Health of the cluster.
#[derive(Debug, Clone, Copy, PartialEq, Eq, Structural)]
pub enum ClusterHealth {
    /// Healthy
    Healthy,
    /// Degraded
    Degraded,
    /// Unhealthy
    Unhealthy,
    /// Unknown
    Unknown,
}

/// Health of a service or check.
#[derive(Debug, Clone, Copy, PartialEq, Eq, Structural)]
pub enum HealthStatus {
    /// Healthy
    Healthy,
    /// Degraded
    Degraded,
    /// Unhealthy
    Unhealthy,
}

/// A member of the cluster.
#[derive(Debug, Clone)]
pub struct ClusterMember {
    /// Node id
    pub id: u64,
    /// Network address
    pub address: String,
    /// Whether the member is online
    pub online: bool,
    /// Last time the member was seen
    pub last_seen_ms: Option<u64>,
    /// Replication match index
    pub match_index: Option<u64>,
    /// Replication next index
    pub next_index: Option<u64>,
    /// Role
    pub role: NodeRole,
    /// Metadata, as (key, value) pairs
    pub metadata: Vec<(String, String)>,
}

/// Status of the cluster.
#[derive(Debug)]
pub struct ClusterStatus {
    /// Known leader
    pub leader_id: Option<u64>,
    /// Current term
    pub term: u64,
    /// Number of members
    pub cluster_size: usize,
    /// The members
    pub members: Vec<ClusterMember>,
    /// State of this node
    pub state: NodeState,
    /// Index of the last log entry
    pub last_log_index: u64,
    /// Term of the last log entry
    pub last_log_term: u64,
    /// Commit index
    pub commit_index: u64,
    /// Applied index
    pub applied_index: u64,
    /// Health of the cluster
    pub health: ClusterHealth,
    /// When the status was taken
    pub timestamp_ms: u64,
}

/// Request to add a member.
#[derive(Debug, Clone)]
pub struct AddMemberRequest {
    /// Node id
    pub node_id: u64,
    /// Network address
    pub address: String,
    /// Role (voter when not given)
    pub role: NodeRole,
    /// Metadata, as (key, value) pairs
    pub metadata: Vec<(String, String)>,
}

/// Request to remove a member.
#[derive(Debug, Clone, Copy, PartialEq, Eq, Structural)]
pub struct RemoveMemberRequest {
    /// Node id
    pub node_id: u64,
    /// Remove even when the member is unreachable
    pub force: bool,
}

/// Request to transfer leadership.
#[derive(Debug, Clone, Copy, PartialEq, Eq, Structural)]
pub struct TransferLeadershipRequest {
    /// Node to become leader
    pub target_node_id: u64,
    /// How long to wait, in milliseconds (10 s when not given)
    pub timeout_ms: u64,
}

/// Cluster membership configuration.
#[derive(Debug, Clone)]
pub struct ClusterConfiguration {
    /// Index of the configuration
    pub config_index: u64,
    /// The members
    pub members: Vec<ClusterMember>,
    /// Whether the configuration is committed
    pub committed: bool,
}

/// Result of a membership operation.
#[derive(Debug, Clone)]
pub struct MemberOperationResponse {
    /// Whether the operation succeeded
    pub success: bool,
    /// Message
    pub message: String,
    /// Configuration after the operation
    pub cluster_config: Option<ClusterConfiguration>,
}

/// One health check.
#[derive(Debug, Clone)]
pub struct HealthCheck {
    /// Name of the check
    pub name: String,
    /// Result
    pub status: HealthStatus,
    /// Details
    pub message: Option<String>,
    /// Time the check took, in milliseconds
    pub duration_ms: u64,
}

/// Health of the service.
#[derive(Debug, Clone)]
pub struct HealthResponse {
    /// Overall status
    pub status: HealthStatus,
    /// When the response was made
    pub timestamp_ms: u64,
    /// Individual checks
    pub checks: Vec<HealthCheck>,
    /// Uptime in milliseconds
    pub uptime_ms: u64,
}

/// One readiness check.
#[derive(Debug, Clone)]
pub struct ReadinessCheck {
    /// Name of the check
    pub name: String,
    /// Whether it is ready
    pub ready: bool,
    /// Details
    pub message: Option<String>,
}

/// Readiness of the service.
#[derive(Debug, Clone)]
pub struct ReadinessResponse {
    /// Whether every check is ready
    pub ready: bool,
    /// When the response was made
    pub timestamp_ms: u64,
    /// Individual checks
    pub checks: Vec<ReadinessCheck>,
}

/// Metrics in text form.
#[derive(Debug, Clone)]
pub struct MetricsResponse {
    /// The metrics text
    pub metrics: String,
    /// Its content type
    pub content_type: String,
    /// When it was produced
    pub timestamp_ms: u64,
}

/// Error body of the API.
#[derive(Debug)]
pub struct ErrorResponse {
    /// Error kind
    pub error: String,
    /// Message
    pub message: String,
    /// Details
    pub details: Option<serde_json::Value>,
    /// Request id
    pub request_id: Option<String>,
    /// When the error happened
    pub timestamp_ms: u64,
}

/// Events streamed by the API.
#[derive(Debug, Clone)]
pub enum ClusterEvent {
    /// The leader changed
    LeadershipChange { old_leader: Option<u64>, new_leader: Option<u64>, term: u64, timestamp_ms: u64 },
    /// A member was added
    MemberAdded { member: ClusterMember, timestamp_ms: u64 },
    /// A member was removed
    MemberRemoved { node_id: u64, timestamp_ms: u64 },
    /// The health changed
    HealthChange { old_status: ClusterHealth, new_status: ClusterHealth, timestamp_ms: u64 },
    /// A log entry was committed
    LogCommitted { index: u64, term: u64, timestamp_ms: u64 },
}

/// Request to subscribe to events.
#[derive(Debug)]
pub struct SubscriptionRequest {
    /// Event types to receive
    pub event_types: Vec<String>,
    /// Filters by field, as (field, value) pairs
    pub filters: Option<Vec<(String, serde_json::Value)>>,
}

/// The role of a member when none is given.
pub fn default_voter_role() -> (r: NodeRole)
    ensures
        r == NodeRole::Voter,
{
    NodeRole::Voter
}

/// The leadership transfer timeout when none is given: 10 s.
pub fn default_leadership_timeout() -> (r: u64)
    ensures
        r == 10_000,
{
    10_000
}

impl ClusterStatus {
    /// The status of a cluster at `now_ms`: the given leader, term, members
    /// and state, zero indexes and unknown health.
    pub fn new_at(leader_id: Option<u64>, term: u64, members: Vec<ClusterMember>, state: NodeState, now_ms: u64) -> (r: Self)
        ensures
            r.leader_id == leader_id,
            r.term == term,
            r.cluster_size == members@.len(),
            r.members == members,
            r.state == state,
            r.last_log_index == 0,
            r.last_log_term == 0,
            r.commit_index == 0,
            r.applied_index == 0,
            r.health == ClusterHealth::Unknown,
            r.timestamp_ms == now_ms,
    {
        let cluster_size = members.len();
        ClusterStatus {
            leader_id,
            term,
            cluster_size,
            members,
            state,
            last_log_index: 0,
            last_log_term: 0,
            commit_index: 0,
            applied_index: 0,
            health: ClusterHealth::Unknown,
            timestamp_ms: now_ms,
        }
    }

    /// The status of a cluster now.
    pub fn new(leader_id: Option<u64>, term: u64, members: Vec<ClusterMember>, state: NodeState) -> (r: Self)
        ensures
            r.leader_id == leader_id,
            r.term == term,
            r.cluster_size == members@.len(),
            r.members == members,
            r.state == state,
            r.health == ClusterHealth::Unknown,
    {
        ClusterStatus::new_at(leader_id, term, members, state, crate::clock::system_now_ms())
    }
}

impl ClusterMember {
    /// A member that has not been seen yet, without replication indexes
    /// or metadata.
    pub fn new(id: u64, address: String, role: NodeRole) -> (r: Self)
        ensures
            r.id == id,
            r.address == address,
            !r.online,
            r.last_seen_ms is None,
            r.match_index is None,
            r.next_index is None,
            r.role == role,
            r.metadata@.len() == 0,
    {
        ClusterMember {
            id,
            address,
            online: false,
            last_seen_ms: None,
            match_index: None,
            next_index: None,
            role,
            metadata: Vec::new(),
        }
    }
}

impl ErrorResponse {
    /// An error body at `now_ms`, with optional details.
    pub fn at(error: &str, message: &str, details: Option<serde_json::Value>, now_ms: u64) -> (r: Self)
        ensures
            r.error@ == error@,
            r.message@ == message@,
            r.details == details,
            r.request_id is None,
            r.timestamp_ms == now_ms,
    {
        ErrorResponse {
            error: String::from_str(error),
            message: String::from_str(message),
            details,
            request_id: None,
            timestamp_ms: now_ms,
        }
    }

    /// An error body made now.
    pub fn new(error: &str, message: &str) -> (r: Self)
        ensures
            r.error@ == error@,
            r.message@ == message@,
            r.details is None,
            r.request_id is None,
    {
        ErrorResponse::at(error, message, None, crate::clock::system_now_ms())
    }

    /// An error body with details, made now.
    pub fn with_details(error: &str, message: &str, details: serde_json::Value) -> (r: Self)
        ensures
            r.error@ == error@,
            r.message@ == message@,
            r.details == Some(details),
            r.request_id is None,
    {
        ErrorResponse::at(error, message, Some(details), crate::clock::system_now_ms())
    }
}

/// The overall status after a check is added: unhealthy when any check is,
/// otherwise degraded when any check is, otherwise as it was.
pub open spec fn status_with_checks(current: HealthStatus, checks: Seq<HealthCheck>) -> HealthStatus {
    if exists|i: int| 0 <= i < checks.len() && #[trigger] checks[i].status == HealthStatus::Unhealthy {
        HealthStatus::Unhealthy
    } else if exists|i: int| 0 <= i < checks.len() && #[trigger] checks[i].status == HealthStatus::Degraded {
        HealthStatus::Degraded
    } else {
        current
    }
}

fn any_with_status(checks: &Vec<HealthCheck>, s: HealthStatus) -> (r: bool)
    ensures
        r == exists|i: int| 0 <= i < checks@.len() && #[trigger] checks@[i].status == s,
{
    let mut i: usize = 0;
    while i < checks.len()
        invariant
            i <= checks@.len(),
            forall|k: int| 0 <= k < i ==> #[trigger] checks@[k].status != s,
        decreases checks@.len() - i,
    {
        if checks[i].status == s {
            return true;
        }
        i = i + 1;
    }
    false
}

impl HealthResponse {
    /// A healthy response with no checks at `now_ms`.
    pub fn healthy_at(uptime_ms: u64, now_ms: u64) -> (r: Self)
        ensures
            r.status == HealthStatus::Healthy,
            r.timestamp_ms == now_ms,
            r.checks@.len() == 0,
            r.uptime_ms == uptime_ms,
    {
        HealthResponse { status: HealthStatus::Healthy, timestamp_ms: now_ms, checks: Vec::new(), uptime_ms }
    }

    /// A healthy response with no checks, made now.
    pub fn healthy(uptime_ms: u64) -> (r: Self)
        ensures
            r.status == HealthStatus::Healthy,
            r.checks@.len() == 0,
            r.uptime_ms == uptime_ms,
    {
        HealthResponse::healthy_at(uptime_ms, crate::clock::system_now_ms())
    }

    /// The response with one more check, its status lowered by it.
    pub fn with_check(self, check: HealthCheck) -> (r: Self)
        ensures
            r.checks@ == self.checks@.push(check),
            r.status == status_with_checks(self.status, r.checks@),
            r.timestamp_ms == self.timestamp_ms,
            r.uptime_ms == self.uptime_ms,
    {
        let mut h = self;
        h.checks.push(check);
        if any_with_status(&h.checks, HealthStatus::Unhealthy) {
            h.status = HealthStatus::Unhealthy;
        } else if any_with_status(&h.checks, HealthStatus::Degraded) {
            h.status = HealthStatus::Degraded;
        }
        h
    }
}

/// Once a check is unhealthy the response stays unhealthy, whatever is
/// added after it.
pub proof fn lemma_unhealthy_sticks(current: HealthStatus, checks: Seq<HealthCheck>, more: HealthCheck)
    requires
        exists|i: int| 0 <= i < checks.len() && #[trigger] checks[i].status == HealthStatus::Unhealthy,
    ensures
        status_with_checks(current, checks) == HealthStatus::Unhealthy,
        status_with_checks(current, checks.push(more)) == HealthStatus::Unhealthy,
{
    let i = choose|i: int| 0 <= i < checks.len() && #[trigger] checks[i].status == HealthStatus::Unhealthy;
    assert(checks.push(more)[i].status == HealthStatus::Unhealthy);
}

/// The status after adding the checks one by one with
/// [`HealthResponse::with_check`], starting from `start`.
pub open spec fn status_after_checks(start: HealthStatus, checks: Seq<HealthCheck>) -> HealthStatus
    decreases checks.len(),
{
    if checks.len() == 0 {
        start
    } else {
        status_with_checks(status_after_checks(start, checks.drop_last()), checks)
    }
}

/// Adding one check to a response whose status is the worst of its checks
/// (starting from healthy) leaves a status that is again the worst of all
/// its checks.
pub proof fn lemma_with_check_keeps_worst(checks: Seq<HealthCheck>, check: HealthCheck)
    ensures
        status_with_checks(status_with_checks(HealthStatus::Healthy, checks), checks.push(check))
            == status_with_checks(HealthStatus::Healthy, checks.push(check)),
{
    let all = checks.push(check);
    if exists|i: int| 0 <= i < checks.len() && #[trigger] checks[i].status == HealthStatus::Unhealthy {
        let i = choose|i: int| 0 <= i < checks.len() && #[trigger] checks[i].status == HealthStatus::Unhealthy;
        assert(all[i].status == HealthStatus::Unhealthy);
    } else if exists|i: int| 0 <= i < checks.len() && #[trigger] checks[i].status == HealthStatus::Degraded {
        let i = choose|i: int| 0 <= i < checks.len() && #[trigger] checks[i].status == HealthStatus::Degraded;
        assert(all[i].status == HealthStatus::Degraded);
        if exists|j: int| 0 <= j < all.len() && #[trigger] all[j].status == HealthStatus::Unhealthy {
            let j = choose|j: int| 0 <= j < all.len() && #[trigger] all[j].status == HealthStatus::Unhealthy;
            if j < checks.len() {
                assert(checks[j].status == HealthStatus::Unhealthy);
            }
        }
    } else {
        assert forall|j: int| 0 <= j < checks.len() implies #[trigger] all[j].status == checks[j].status by {}
    }
}

/// Adding checks one by one to a healthy response gives the worst status
/// among them: unhealthy if any check is, else degraded if any is, else
/// healthy.
pub proof fn lemma_checks_in_turn(checks: Seq<HealthCheck>)
    ensures
        status_after_checks(HealthStatus::Healthy, checks) == status_with_checks(HealthStatus::Healthy, checks),
    decreases checks.len(),
{
    if checks.len() > 0 {
        let init = checks.drop_last();
        lemma_checks_in_turn(init);
        lemma_with_check_keeps_worst(init, checks.last());
        assert(init.push(checks.last()) == checks);
    }
}

/// Every check is ready.
pub open spec fn all_ready(checks: Seq<ReadinessCheck>) -> bool {
    forall|i: int| 0 <= i < checks.len() ==> #[trigger] checks[i].ready
}

impl ReadinessResponse {
    /// The readiness of a set of checks at `now_ms`: ready when all are.
    pub fn new_at(checks: Vec<ReadinessCheck>, now_ms: u64) -> (r: Self)
        ensures
            r.ready == all_ready(checks@),
            r.checks == checks,
            r.timestamp_ms == now_ms,
    {
        let mut ready = true;
        let mut i: usize = 0;
        while i < checks.len()
            invariant
                i <= checks@.len(),
                ready == forall|k: int| 0 <= k < i ==> #[trigger] checks@[k].ready,
            decreases checks@.len() - i,
        {
            ready = ready && checks[i].ready;
            i = i + 1;
        }
        ReadinessResponse { ready, timestamp_ms: now_ms, checks }
    }

    /// The readiness of a set of checks, made now.
    pub fn new(checks: Vec<ReadinessCheck>) -> (r: Self)
        ensures
            r.ready == all_ready(checks@),
            r.checks == checks,
    {
        ReadinessResponse::new_at(checks, crate::clock::system_now_ms())
    }
}

} // verus!
