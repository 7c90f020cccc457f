//! Decisions of the management client: which node a request goes to next,
//! what the client learns of the leader, the time allowed to each request,
//! and how an answer becomes the result of each operation.
//!
//! Connecting to nodes and exchanging messages belong to the caller, which
//! follows the routing steps and hands the answers over.

use vstd::prelude::*;
use vstd::string::StringExecFns;
use crate::error::RaftError;
use super::{
    BackupListResponse, BackupOperationResponse, ClusterStatusResponse, ConfigurationResponse,
    HealthResponse, LeadershipResponse, ManagementOperation, ManagementResponse,
    MemberOperationResponse, MetricsResponse,
};

verus! {

/// Time allowed to a request when the operation sets none, in milliseconds.
pub const DEFAULT_TIMEOUT_MS: u64 = 30_000;

/// Time allowed to a leadership transfer, in milliseconds.
pub const LEADERSHIP_TIMEOUT_MS: u64 = 60_000;

/// Time allowed to the creation of a backup, in milliseconds.
pub const BACKUP_TIMEOUT_MS: u64 = 300_000;

/// The time a request for an operation is allowed: a minute for a
/// leadership transfer, five minutes for a backup, the client's default
/// otherwise.
pub open spec fn request_timeout_spec(op: ManagementOperation, default_ms: u64) -> u64 {
    match op {
        ManagementOperation::TransferLeadership { .. } => LEADERSHIP_TIMEOUT_MS,
        ManagementOperation::CreateBackup { .. } => BACKUP_TIMEOUT_MS,
        _ => default_ms,
    }
}

/// The time a request for an operation is allowed.
pub fn request_timeout(op: &ManagementOperation, default_ms: u64) -> (r: u64)
    ensures
        r == request_timeout_spec(*op, default_ms),
{
    match op {
        ManagementOperation::TransferLeadership { .. } => LEADERSHIP_TIMEOUT_MS,
        ManagementOperation::CreateBackup { .. } => BACKUP_TIMEOUT_MS,
        _ => default_ms,
    }
}

/// Where the client sends its requests: the leader it knows of first, then
/// each member it knows an address of, in order.
pub struct RequestRouter {
    /// The leader the client knows of
    pub current_leader: Option<u64>,
    /// The members the client knows an address of, in order
    pub members: Vec<u64>,
    /// Time allowed to a request when the operation sets none
    pub default_timeout_ms: u64,
}

/// The message when no member answered.
pub open spec fn no_members_message() -> Seq<char> {
    "No available cluster members"@
}

impl RequestRouter {
    /// A router that knows no leader and no member, with the default timeout.
    pub fn new() -> (r: Self)
        ensures
            r.current_leader is None,
            r.members@.len() == 0,
            r.default_timeout_ms == DEFAULT_TIMEOUT_MS,
    {
        RequestRouter { current_leader: None, members: Vec::new(), default_timeout_ms: DEFAULT_TIMEOUT_MS }
    }

    /// The router with another default timeout.
    pub fn with_timeout(self, timeout_ms: u64) -> (r: Self)
        ensures
            r.current_leader == self.current_leader,
            r.members@ == self.members@,
            r.default_timeout_ms == timeout_ms,
    {
        let mut r = self;
        r.default_timeout_ms = timeout_ms;
        r
    }

    /// Learn the address of a member; a member already known keeps its
    /// place.
    pub fn add_member(&mut self, node_id: u64)
        ensures
            final(self).current_leader == old(self).current_leader,
            final(self).default_timeout_ms == old(self).default_timeout_ms,
            final(self).members@ == (if old(self).members@.contains(node_id) {
                old(self).members@
            } else {
                old(self).members@.push(node_id)
            }),
    {
        let mut i: usize = 0;
        while i < self.members.len()
            invariant
                i <= self.members@.len(),
                self.members@ == old(self).members@,
                self.current_leader == old(self).current_leader,
                self.default_timeout_ms == old(self).default_timeout_ms,
                forall|k: int| 0 <= k < i ==> #[trigger] self.members@[k] != node_id,
            decreases self.members@.len() - i,
        {
            if self.members[i] == node_id {
                assert(self.members@[i as int] == node_id);
                return;
            }
            i = i + 1;
        }
        self.members.push(node_id);
    }

    /// Forget the leader, after a request to it failed.
    pub fn leader_failed(&mut self)
        ensures
            final(self).current_leader is None,
            final(self).members@ == old(self).members@,
            final(self).default_timeout_ms == old(self).default_timeout_ms,
    {
        self.current_leader = None;
    }

    /// Learn from an answer of a member other than the leader: a cluster
    /// status that names a leader makes it the leader the client knows of.
    pub fn member_answered(&mut self, response: &ManagementResponse)
        ensures
            final(self).members@ == old(self).members@,
            final(self).default_timeout_ms == old(self).default_timeout_ms,
            final(self).current_leader == (match *response {
                ManagementResponse::ClusterStatus(status) => match status.leader {
                    Some(l) => Some(l),
                    None => old(self).current_leader,
                },
                _ => old(self).current_leader,
            }),
    {
        match response {
            ManagementResponse::ClusterStatus(status) => {
                match status.leader {
                    Some(l) => {
                        self.current_leader = Some(l);
                    },
                    None => {},
                }
            },
            _ => {},
        }
    }

    /// The members to try in turn once the leader is out of the picture.
    pub fn fallback_order(&self) -> (r: Vec<u64>)
        ensures
            r@ == self.members@,
    {
        self.members.clone()
    }

    /// The error when no member answered.
    pub fn no_member_answered(&self) -> (r: RaftError)
        ensures
            r matches RaftError::Internal { message } && message@ == no_members_message(),
    {
        RaftError::Internal { message: String::from_str("No available cluster members") }
    }
}

/// The message of the error for an answer of another kind than the one
/// expected: the answer's own failure message, or `Unexpected response type`.
pub open spec fn unexpected_message(response: ManagementResponse) -> Seq<char> {
    match response {
        ManagementResponse::Error { message } => message@,
        _ => "Unexpected response type"@,
    }
}

fn unexpected(response: ManagementResponse) -> (r: RaftError)
    ensures
        r matches RaftError::Internal { message } && message@ == unexpected_message(response),
{
    match response {
        ManagementResponse::Error { message } => RaftError::Internal { message },
        _ => RaftError::Internal { message: String::from_str("Unexpected response type") },
    }
}

/// The result of a cluster status request.
pub fn cluster_status_result(response: ManagementResponse) -> (r: Result<ClusterStatusResponse, RaftError>)
    ensures
        match response {
            ManagementResponse::ClusterStatus(s) => r matches Ok(x) && x == s,
            _ => r matches Err(RaftError::Internal { message }) && message@ == unexpected_message(response),
        },
{
    match response {
        ManagementResponse::ClusterStatus(s) => Ok(s),
        other => Err(unexpected(other)),
    }
}

/// The result of a membership change.
pub fn member_operation_result(response: ManagementResponse) -> (r: Result<MemberOperationResponse, RaftError>)
    ensures
        match response {
            ManagementResponse::MemberOperation(s) => r matches Ok(x) && x == s,
            _ => r matches Err(RaftError::Internal { message }) && message@ == unexpected_message(response),
        },
{
    match response {
        ManagementResponse::MemberOperation(s) => Ok(s),
        other => Err(unexpected(other)),
    }
}

/// The result of a leadership transfer.
pub fn leadership_result(response: ManagementResponse) -> (r: Result<LeadershipResponse, RaftError>)
    ensures
        match response {
            ManagementResponse::Leadership(s) => r matches Ok(x) && x == s,
            _ => r matches Err(RaftError::Internal { message }) && message@ == unexpected_message(response),
        },
{
    match response {
        ManagementResponse::Leadership(s) => Ok(s),
        other => Err(unexpected(other)),
    }
}

/// The result of a configuration request.
pub fn configuration_result(response: ManagementResponse) -> (r: Result<ConfigurationResponse, RaftError>)
    ensures
        match response {
            ManagementResponse::Configuration(s) => r matches Ok(x) && x == s,
            _ => r matches Err(RaftError::Internal { message }) && message@ == unexpected_message(response),
        },
{
    match response {
        ManagementResponse::Configuration(s) => Ok(s),
        other => Err(unexpected(other)),
    }
}

/// The result of a metrics request.
pub fn metrics_result(response: ManagementResponse) -> (r: Result<MetricsResponse, RaftError>)
    ensures
        match response {
            ManagementResponse::Metrics(s) => r matches Ok(x) && x == s,
            _ => r matches Err(RaftError::Internal { message }) && message@ == unexpected_message(response),
        },
{
    match response {
        ManagementResponse::Metrics(s) => Ok(s),
        other => Err(unexpected(other)),
    }
}

/// The result of a health request.
pub fn health_result(response: ManagementResponse) -> (r: Result<HealthResponse, RaftError>)
    ensures
        match response {
            ManagementResponse::Health(s) => r matches Ok(x) && x == s,
            _ => r matches Err(RaftError::Internal { message }) && message@ == unexpected_message(response),
        },
{
    match response {
        ManagementResponse::Health(s) => Ok(s),
        other => Err(unexpected(other)),
    }
}

/// The result of a backup creation.
pub fn backup_operation_result(response: ManagementResponse) -> (r: Result<BackupOperationResponse, RaftError>)
    ensures
        match response {
            ManagementResponse::BackupOperation(s) => r matches Ok(x) && x == s,
            _ => r matches Err(RaftError::Internal { message }) && message@ == unexpected_message(response),
        },
{
    match response {
        ManagementResponse::BackupOperation(s) => Ok(s),
        other => Err(unexpected(other)),
    }
}

/// The result of a backup listing.
pub fn backup_list_result(response: ManagementResponse) -> (r: Result<BackupListResponse, RaftError>)
    ensures
        match response {
            ManagementResponse::BackupList(s) => r matches Ok(x) && x == s,
            _ => r matches Err(RaftError::Internal { message }) && message@ == unexpected_message(response),
        },
{
    match response {
        ManagementResponse::BackupList(s) => Ok(s),
        other => Err(unexpected(other)),
    }
}

/// The result of an operation answered only by success, such as a
/// configuration update or a snapshot.
pub fn success_result(response: ManagementResponse) -> (r: Result<(), RaftError>)
    ensures
        match response {
            ManagementResponse::Success => r is Ok,
            _ => r matches Err(RaftError::Internal { message }) && message@ == unexpected_message(response),
        },
{
    match response {
        ManagementResponse::Success => Ok(()),
        other => Err(unexpected(other)),
    }
}

/// The error when a request to a node did not finish in time.
pub fn request_timed_out(node_id: u64) -> (r: RaftError)
    ensures
        r matches RaftError::Internal { message }
            && message@ == "Request to node "@ + crate::text::decimal(node_id as nat) + " timed out"@,
{
    let id = crate::text::u64_to_string(node_id);
    RaftError::Internal { message: crate::text::cat3("Request to node ", id.as_str(), " timed out") }
}

/// The error when no address of a node is known.
pub fn no_endpoint(node_id: u64) -> (r: RaftError)
    ensures
        r matches RaftError::Internal { message }
            && message@ == "No endpoint found for node "@ + crate::text::decimal(node_id as nat),
{
    let id = crate::text::u64_to_string(node_id);
    RaftError::Internal { message: crate::text::cat2("No endpoint found for node ", id.as_str()) }
}

/// The 32 bytes of the peer key the client derives from a member's node id:
/// the id's eight bytes, most significant first, then zeros.
pub open spec fn member_key_bytes(node_id: u64) -> Seq<u8> {
    Seq::new(32, |i: int| if i < 8 { ((node_id >> ((7 - i) * 8) as u64) & 0xff) as u8 } else { 0u8 })
}

/// The peer key bytes of a member's node id.
pub fn member_key(node_id: u64) -> (r: [u8; 32])
    ensures
        r@ == member_key_bytes(node_id),
{
    let mut out = [0u8; 32];
    let mut i: usize = 0;
    while i < 8
        invariant
            i <= 8,
            out@.len() == 32,
            forall|k: int| 0 <= k < i ==> out@[k] == member_key_bytes(node_id)[k],
            forall|k: int| 8 <= k < 32 ==> out@[k] == 0u8,
        decreases 8 - i,
    {
        let shift: u64 = ((7 - i) * 8) as u64;
        out[i] = ((node_id >> shift) & 0xff) as u8;
        i = i + 1;
    }
    assert(out@ =~= member_key_bytes(node_id));
    out
}

} // verus!
