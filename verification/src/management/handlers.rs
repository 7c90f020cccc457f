//! Decisions of the management API endpoints: request validation, the
//! bodies and status codes of the answers, and how an error is answered.
//!
//! Serving HTTP and publishing events stay with the caller; here each
//! endpoint is a function from the request's values to the answer.

use vstd::prelude::*;
use vstd::string::StringExecFns;
use crate::error::{RaftError, ErrorCategory, spec_category, category_name, error_text};
use crate::management::schemas::{
    AddMemberRequest, ClusterHealth, ClusterMember, ClusterStatus, ErrorResponse, HealthCheck,
    HealthResponse, HealthStatus, MemberOperationResponse, NodeRole, NodeState, ReadinessCheck,
    ReadinessResponse, RemoveMemberRequest, TransferLeadershipRequest, status_with_checks,
};
use crate::text::{cat3, contains_str, decimal, has_infix, u64_to_string};

verus! {

/// HTTP status: success.
pub const STATUS_OK: u16 = 200;
/// HTTP status: bad request.
pub const STATUS_BAD_REQUEST: u16 = 400;
/// HTTP status: not found.
pub const STATUS_NOT_FOUND: u16 = 404;
/// HTTP status: conflict.
pub const STATUS_CONFLICT: u16 = 409;
/// HTTP status: internal server error.
pub const STATUS_INTERNAL_ERROR: u16 = 500;
/// HTTP status: service unavailable.
pub const STATUS_SERVICE_UNAVAILABLE: u16 = 503;

/// Handle of the cluster the endpoints act on.
#[derive(Debug, Clone, Copy)]
pub struct ClusterHandle {}

impl ClusterHandle {
    /// A handle of the local cluster.
    pub fn new() -> (r: Self)
        ensures
            r == (ClusterHandle {}),
    {
        ClusterHandle {}
    }
}

/// State shared by the endpoints.
#[derive(Debug, Clone, Copy)]
pub struct AppState {
    /// The cluster
    pub cluster: ClusterHandle,
    /// When the service started, in milliseconds since the Unix epoch
    pub start_time_ms: u64,
}

/// Query of the cluster status endpoint.
#[derive(Debug, Clone, Copy, Default)]
pub struct ClusterStatusQuery {
    /// Include detailed member information
    pub detailed: bool,
    /// Include health information
    pub include_health: bool,
}

/// Error answered by an endpoint.
#[derive(Debug)]
pub enum ApiError {
    /// Input validation error
    ValidationError(String),
    /// Resource not found
    NotFound(String),
    /// Operation conflict
    Conflict(String),
    /// Internal server error
    Internal(String),
    /// Service unavailable
    ServiceUnavailable(String),
    /// Error of the consensus layer
    RaftError(RaftError),
}

/// The status code a consensus error is answered with: bad request for
/// validation errors, conflict for consensus errors whose text speaks of
/// `not leader`, service unavailable for transport and storage errors, and
/// internal error otherwise.
pub open spec fn raft_error_status(e: RaftError) -> u16 {
    let c = spec_category(e);
    if c == ErrorCategory::Validation {
        STATUS_BAD_REQUEST
    } else if c == ErrorCategory::Raft && has_infix(error_text(e), "not leader"@) {
        STATUS_CONFLICT
    } else if c == ErrorCategory::Transport || c == ErrorCategory::Storage {
        STATUS_SERVICE_UNAVAILABLE
    } else {
        STATUS_INTERNAL_ERROR
    }
}

/// How an error is answered: status code, error type and message.
pub open spec fn api_error_parts(e: ApiError) -> (u16, Seq<char>, Seq<char>) {
    match e {
        ApiError::ValidationError(m) => (STATUS_BAD_REQUEST, "validation_error"@, m@),
        ApiError::NotFound(m) => (STATUS_NOT_FOUND, "not_found"@, m@),
        ApiError::Conflict(m) => (STATUS_CONFLICT, "conflict"@, m@),
        ApiError::Internal(m) => (STATUS_INTERNAL_ERROR, "internal_error"@, m@),
        ApiError::ServiceUnavailable(m) => (STATUS_SERVICE_UNAVAILABLE, "service_unavailable"@, m@),
        ApiError::RaftError(err) => (raft_error_status(err), category_name(spec_category(err)), error_text(err)),
    }
}

impl ApiError {
    /// The status code, error type and message this error is answered with.
    pub fn response_parts(&self) -> (r: (u16, String, String))
        ensures
            r.0 == api_error_parts(*self).0,
            r.1@ == api_error_parts(*self).1,
            r.2@ == api_error_parts(*self).2,
    {
        match self {
            ApiError::ValidationError(m) => (STATUS_BAD_REQUEST, String::from_str("validation_error"), m.clone()),
            ApiError::NotFound(m) => (STATUS_NOT_FOUND, String::from_str("not_found"), m.clone()),
            ApiError::Conflict(m) => (STATUS_CONFLICT, String::from_str("conflict"), m.clone()),
            ApiError::Internal(m) => (STATUS_INTERNAL_ERROR, String::from_str("internal_error"), m.clone()),
            ApiError::ServiceUnavailable(m) => (
                STATUS_SERVICE_UNAVAILABLE,
                String::from_str("service_unavailable"),
                m.clone(),
            ),
            ApiError::RaftError(err) => {
                let category = err.error_category();
                let message = err.message();
                let status = if category == ErrorCategory::Validation {
                    STATUS_BAD_REQUEST
                } else if category == ErrorCategory::Raft && contains_str(message.as_str(), "not leader") {
                    STATUS_CONFLICT
                } else if category == ErrorCategory::Transport || category == ErrorCategory::Storage {
                    STATUS_SERVICE_UNAVAILABLE
                } else {
                    STATUS_INTERNAL_ERROR
                };
                (status, String::from_str(category.as_str()), message)
            },
        }
    }

    /// The status code and body this error is answered with, made at `now_ms`.
    pub fn error_response_at(&self, now_ms: u64) -> (r: (u16, ErrorResponse))
        ensures
            r.0 == api_error_parts(*self).0,
            r.1.error@ == api_error_parts(*self).1,
            r.1.message@ == api_error_parts(*self).2,
            r.1.details is None,
            r.1.request_id is None,
            r.1.timestamp_ms == now_ms,
    {
        let (status, error_type, message) = self.response_parts();
        (status, ErrorResponse::at(error_type.as_str(), message.as_str(), None, now_ms))
    }
}

impl From<RaftError> for ApiError {
    fn from(err: RaftError) -> (r: ApiError) {
        ApiError::RaftError(err)
    }
}

impl vstd::std_specs::convert::FromSpecImpl<RaftError> for ApiError {
    open spec fn obeys_from_spec() -> bool {
        true
    }

    open spec fn from_spec(err: RaftError) -> ApiError {
        ApiError::RaftError(err)
    }
}

/// The cluster status the status endpoint reports at `now_ms`: three voters
/// on the local ports 8080 to 8082, node 1 leading in term 42, every index at
/// 1000, and health reported healthy when it is asked for.
pub fn cluster_status_at(query: ClusterStatusQuery, now_ms: u64) -> (r: ClusterStatus)
    ensures
        r.leader_id == Some(1u64),
        r.term == 42,
        r.cluster_size == 3,
        r.members@.len() == 3,
        r.members@[0].id == 1 && r.members@[0].address@ == "127.0.0.1:8080"@,
        r.members@[1].id == 2 && r.members@[1].address@ == "127.0.0.1:8081"@,
        r.members@[2].id == 3 && r.members@[2].address@ == "127.0.0.1:8082"@,
        forall|i: int| 0 <= i < 3 ==> (#[trigger] r.members@[i]).role == NodeRole::Voter && !r.members@[i].online,
        r.state == NodeState::Leader,
        r.last_log_index == 1000,
        r.last_log_term == 0,
        r.commit_index == 1000,
        r.applied_index == 1000,
        r.health == (if query.include_health { ClusterHealth::Healthy } else { ClusterHealth::Unknown }),
        r.timestamp_ms == now_ms,
{
    let mut members: Vec<ClusterMember> = Vec::new();
    members.push(ClusterMember::new(1, String::from_str("127.0.0.1:8080"), NodeRole::Voter));
    members.push(ClusterMember::new(2, String::from_str("127.0.0.1:8081"), NodeRole::Voter));
    members.push(ClusterMember::new(3, String::from_str("127.0.0.1:8082"), NodeRole::Voter));
    let mut status = ClusterStatus::new_at(Some(1), 42, members, NodeState::Leader, now_ms);
    if query.include_health {
        status.health = ClusterHealth::Healthy;
    }
    status.last_log_index = 1000;
    status.commit_index = 1000;
    status.applied_index = 1000;
    status
}

/// The cluster status the status endpoint reports now.
pub fn get_cluster_status(query: ClusterStatusQuery) -> (r: ClusterStatus)
    ensures
        r.leader_id == Some(1u64),
        r.term == 42,
        r.cluster_size == 3,
        r.state == NodeState::Leader,
        r.health == (if query.include_health { ClusterHealth::Healthy } else { ClusterHealth::Unknown }),
{
    cluster_status_at(query, crate::clock::system_now_ms())
}

/// A successful membership answer with a message and no configuration.
fn member_success(message: String) -> (r: MemberOperationResponse)
    ensures
        r.success,
        r.message == message,
        r.cluster_config is None,
{
    MemberOperationResponse { success: true, message, cluster_config: None }
}

/// The answer to a request to add a member: refused when the node id is 0
/// or the address is empty, accepted otherwise.
pub fn add_member(request: &AddMemberRequest) -> (r: Result<MemberOperationResponse, ApiError>)
    ensures
        request.node_id == 0 ==> (r matches Err(ApiError::ValidationError(m))
            && m@ == "Node ID must be greater than 0"@),
        request.node_id != 0 && request.address@.len() == 0 ==> (r matches Err(ApiError::ValidationError(m))
            && m@ == "Address cannot be empty"@),
        request.node_id != 0 && request.address@.len() != 0 ==> (r matches Ok(resp)
            && resp.success && resp.cluster_config is None
            && resp.message@ == "Member "@ + decimal(request.node_id as nat) + " added successfully"@),
{
    if request.node_id == 0 {
        return Err(ApiError::ValidationError(String::from_str("Node ID must be greater than 0")));
    }
    if request.address.as_str().unicode_len() == 0 {
        return Err(ApiError::ValidationError(String::from_str("Address cannot be empty")));
    }
    let id = u64_to_string(request.node_id);
    Ok(member_success(cat3("Member ", id.as_str(), " added successfully")))
}

/// The member an accepted add request announces.
pub fn added_member(request: &AddMemberRequest) -> (r: ClusterMember)
    ensures
        r.id == request.node_id,
        r.address == request.address,
        r.role == request.role,
        !r.online,
        r.metadata@.len() == 0,
{
    ClusterMember::new(request.node_id, request.address.clone(), request.role)
}

/// The answer to a request to remove a member: refused for node id 0,
/// accepted otherwise, whether forced or not.
pub fn remove_member(node_id: u64, request: Option<RemoveMemberRequest>) -> (r: Result<MemberOperationResponse, ApiError>)
    ensures
        node_id == 0 ==> (r matches Err(ApiError::ValidationError(m)) && m@ == "Invalid node ID"@),
        node_id != 0 ==> (r matches Ok(resp) && resp.success && resp.cluster_config is None
            && resp.message@ == "Member "@ + decimal(node_id as nat) + " removed successfully"@),
{
    let _force = match request {
        Some(r) => r.force,
        None => false,
    };
    if node_id == 0 {
        return Err(ApiError::ValidationError(String::from_str("Invalid node ID")));
    }
    let id = u64_to_string(node_id);
    Ok(member_success(cat3("Member ", id.as_str(), " removed successfully")))
}

/// The answer to a request to transfer leadership: refused for target 0,
/// accepted otherwise.
pub fn transfer_leadership(request: &TransferLeadershipRequest) -> (r: Result<MemberOperationResponse, ApiError>)
    ensures
        request.target_node_id == 0 ==> (r matches Err(ApiError::ValidationError(m))
            && m@ == "Target node ID must be greater than 0"@),
        request.target_node_id != 0 ==> (r matches Ok(resp) && resp.success && resp.cluster_config is None
            && resp.message@ == "Leadership transfer to node "@ + decimal(request.target_node_id as nat)
            + " initiated"@),
{
    if request.target_node_id == 0 {
        return Err(ApiError::ValidationError(String::from_str("Target node ID must be greater than 0")));
    }
    let id = u64_to_string(request.target_node_id);
    Ok(member_success(cat3("Leadership transfer to node ", id.as_str(), " initiated")))
}

/// The status code a health answer is sent with: success unless unhealthy.
pub open spec fn health_status_code(s: HealthStatus) -> u16 {
    match s {
        HealthStatus::Healthy => STATUS_OK,
        HealthStatus::Degraded => STATUS_OK,
        HealthStatus::Unhealthy => STATUS_SERVICE_UNAVAILABLE,
    }
}

/// The time since `start_ms` at `now_ms`, zero when the clock went back.
pub open spec fn uptime(start_ms: u64, now_ms: u64) -> u64 {
    if now_ms >= start_ms { (now_ms - start_ms) as u64 } else { 0 }
}

fn healthy_check(name: &str, message: &str, duration_ms: u64) -> (r: HealthCheck)
    ensures
        r.name@ == name@,
        r.status == HealthStatus::Healthy,
        r.message matches Some(m) && m@ == message@,
        r.duration_ms == duration_ms,
{
    HealthCheck {
        name: String::from_str(name),
        status: HealthStatus::Healthy,
        message: Some(String::from_str(message)),
        duration_ms,
    }
}

/// The health answer of a service started at `start_ms`, at `now_ms`: the
/// storage, consensus and transport checks, all healthy, taking 5, 2 and
/// 3 ms, and the status code of the overall health.
pub fn health_check_at(start_ms: u64, now_ms: u64) -> (r: (u16, HealthResponse))
    ensures
        r.1.uptime_ms == uptime(start_ms, now_ms),
        r.1.timestamp_ms == now_ms,
        r.1.status == HealthStatus::Healthy,
        r.1.checks@.len() == 3,
        r.1.checks@[0].name@ == "storage"@ && r.1.checks@[0].duration_ms == 5,
        r.1.checks@[0].message matches Some(m) && m@ == "Storage is accessible"@,
        r.1.checks@[1].name@ == "raft"@ && r.1.checks@[1].duration_ms == 2,
        r.1.checks@[1].message matches Some(m) && m@ == "Raft consensus is operational"@,
        r.1.checks@[2].name@ == "transport"@ && r.1.checks@[2].duration_ms == 3,
        r.1.checks@[2].message matches Some(m) && m@ == "P2P transport is operational"@,
        forall|i: int| 0 <= i < 3 ==> (#[trigger] r.1.checks@[i]).status == HealthStatus::Healthy,
        r.0 == health_status_code(r.1.status),
{
    let up = if now_ms >= start_ms { now_ms - start_ms } else { 0 };
    let mut response = HealthResponse::healthy_at(up, now_ms);
    response = response.with_check(healthy_check("storage", "Storage is accessible", 5));
    response = response.with_check(healthy_check("raft", "Raft consensus is operational", 2));
    response = response.with_check(healthy_check("transport", "P2P transport is operational", 3));
    assert(forall|i: int| 0 <= i < response.checks@.len() ==> (#[trigger] response.checks@[i]).status
        == HealthStatus::Healthy);
    let code = match response.status {
        HealthStatus::Healthy => STATUS_OK,
        HealthStatus::Degraded => STATUS_OK,
        HealthStatus::Unhealthy => STATUS_SERVICE_UNAVAILABLE,
    };
    (code, response)
}

/// The health answer of the service now.
pub fn health_check(state: &AppState) -> (r: (u16, HealthResponse))
    ensures
        r.1.status == HealthStatus::Healthy,
        r.1.checks@.len() == 3,
        r.0 == STATUS_OK,
{
    health_check_at(state.start_time_ms, crate::clock::system_now_ms())
}

fn ready_check(name: &str, message: &str) -> (r: ReadinessCheck)
    ensures
        r.name@ == name@,
        r.ready,
        r.message matches Some(m) && m@ == message@,
{
    ReadinessCheck { name: String::from_str(name), ready: true, message: Some(String::from_str(message)) }
}

/// The readiness answer at `now_ms`: the consensus, storage and transport
/// checks, all ready, and the status code of the overall readiness.
pub fn readiness_check_at(now_ms: u64) -> (r: (u16, ReadinessResponse))
    ensures
        r.1.ready,
        r.1.timestamp_ms == now_ms,
        r.1.checks@.len() == 3,
        r.1.checks@[0].name@ == "raft_initialized"@,
        r.1.checks@[1].name@ == "storage_ready"@,
        r.1.checks@[2].name@ == "transport_ready"@,
        forall|i: int| 0 <= i < 3 ==> (#[trigger] r.1.checks@[i]).ready,
        r.0 == (if r.1.ready { STATUS_OK } else { STATUS_SERVICE_UNAVAILABLE }),
{
    let mut checks: Vec<ReadinessCheck> = Vec::new();
    checks.push(ready_check("raft_initialized", "Raft node is initialized and ready"));
    checks.push(ready_check("storage_ready", "Storage backend is ready"));
    checks.push(ready_check("transport_ready", "Transport layer is ready"));
    let response = ReadinessResponse::new_at(checks, now_ms);
    let code = if response.ready { STATUS_OK } else { STATUS_SERVICE_UNAVAILABLE };
    (code, response)
}

/// The readiness answer now.
pub fn readiness_check() -> (r: (u16, ReadinessResponse))
    ensures
        r.1.ready,
        r.0 == STATUS_OK,
{
    readiness_check_at(crate::clock::system_now_ms())
}

/// The content type of the metrics answer.
pub open spec fn metrics_content_type() -> Seq<char> {
    "text/plain; version=0.0.4"@
}

/// The metrics the metrics endpoint reports, in the Prometheus text format.
pub open spec fn metrics_text() -> Seq<char> {
    "# HELP raft_term Current Raft term\n# TYPE raft_term gauge\nraft_term 42\n\n# HELP raft_log_index Current log index\n# TYPE raft_log_index gauge\nraft_log_index 1000\n\n# HELP raft_commit_index Current commit index\n# TYPE raft_commit_index gauge\nraft_commit_index 1000\n\n# HELP cluster_members Number of cluster members\n# TYPE cluster_members gauge\ncluster_members 3\n\n# HELP management_api_requests_total Total number of API requests\n# TYPE management_api_requests_total counter\nmanagement_api_requests_total{method=\"GET\",path=\"/v1/metrics\"} 1\n"@
}

/// The metrics answer: success, the Prometheus content type and the metrics
/// text.
pub fn get_metrics() -> (r: (u16, String, String))
    ensures
        r.0 == STATUS_OK,
        r.1@ == metrics_content_type(),
        r.2@ == metrics_text(),
{
    (
        STATUS_OK,
        String::from_str("text/plain; version=0.0.4"),
        String::from_str("# HELP raft_term Current Raft term\n# TYPE raft_term gauge\nraft_term 42\n\n# HELP raft_log_index Current log index\n# TYPE raft_log_index gauge\nraft_log_index 1000\n\n# HELP raft_commit_index Current commit index\n# TYPE raft_commit_index gauge\nraft_commit_index 1000\n\n# HELP cluster_members Number of cluster members\n# TYPE cluster_members gauge\ncluster_members 3\n\n# HELP management_api_requests_total Total number of API requests\n# TYPE management_api_requests_total counter\nmanagement_api_requests_total{method=\"GET\",path=\"/v1/metrics\"} 1\n"),
    )
}

} // verus!
