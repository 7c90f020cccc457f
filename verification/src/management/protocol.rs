//! Management protocol between nodes: message wrappers, access control by
//! role, and the decisions of the management stream handler.
//!
//! Streams, channels and the serialisation of requests and responses run
//! outside; requests arrive here as encoded bytes and leave as framed
//! messages.

use vstd::prelude::*;
use vstd::string::StringExecFns;
use crate::error::RaftError;
use crate::transport::protocol::{MessageHeader, MessageType, LARGE_MESSAGE_THRESHOLD};
use super::{
    ManagementMessageType, ManagementOperation, ManagementPermissions, ManagementRequest,
    ManagementRole, spec_is_read_only, same_operation,
};

verus! {

/// Management message header extending the transport header.
#[derive(Debug, Clone)]
pub struct ManagementMessageHeader {
    /// Base message header
    pub base: MessageHeader,
    /// Management-specific operation type
    pub operation_type: Option<String>,
    /// Authorization token or node id
    pub authorization: Option<String>,
}

/// A management message with its payload and estimated size.
#[derive(Debug)]
pub struct ZeroCopyManagementMessage {
    /// Type of the message
    pub msg_type: ManagementMessageType,
    /// Optional request ID for correlation
    pub request_id: Option<[u8; 16]>,
    /// Operation carried, when known
    pub operation: Option<ManagementOperation>,
    /// Payload bytes
    pub payload: Vec<u8>,
    /// Estimated size of the message on the wire
    pub total_size: u32,
    /// Authorization token or node id
    pub authorization: Option<String>,
}

/// The size estimate of a management message: 4 bytes of length prefix,
/// 64 bytes of header and the payload length taken modulo 2^32.
pub open spec fn management_size(payload_len: nat) -> int {
    68 + (payload_len % 0x1_0000_0000) as int
}

/// The size estimate fits in 32 bits.
pub open spec fn management_size_fits(payload_len: nat) -> bool {
    management_size(payload_len) <= u32::MAX
}

fn copy_bytes(bytes: &[u8]) -> (r: Vec<u8>)
    ensures
        r@ == bytes@,
{
    let mut out: Vec<u8> = Vec::new();
    let mut i: usize = 0;
    while i < bytes.len()
        invariant
            i <= bytes@.len(),
            out@ == bytes@.take(i as int),
        decreases bytes@.len() - i,
    {
        out.push(bytes[i]);
        assert(out@ =~= bytes@.take(i as int + 1));
        i = i + 1;
    }
    assert(bytes@.take(bytes@.len() as int) =~= bytes@);
    out
}

impl ZeroCopyManagementMessage {
    /// The size estimate of a message with a payload of `payload_len` bytes.
    pub fn calculate_size(payload_len: usize) -> (r: u32)
        requires
            management_size_fits(payload_len as nat),
        ensures
            r == management_size(payload_len as nat),
    {
        let low = ((payload_len as u64) % 0x1_0000_0000u64) as u32;
        4 + 64 + low
    }

    /// A message holding a copy of the given payload.
    pub fn new_borrowed(msg_type: ManagementMessageType, request_id: Option<[u8; 16]>, payload: &[u8], authorization: Option<String>) -> (r: Self)
        requires
            management_size_fits(payload@.len()),
        ensures
            r.msg_type == msg_type,
            r.request_id == request_id,
            r.operation is None,
            r.payload@ == payload@,
            r.total_size == management_size(payload@.len()),
            r.authorization == authorization,
    {
        let total_size = ZeroCopyManagementMessage::calculate_size(payload.len());
        ZeroCopyManagementMessage { msg_type, request_id, operation: None, payload: copy_bytes(payload), total_size, authorization }
    }

    /// A message owning the given payload.
    pub fn new_owned(msg_type: ManagementMessageType, request_id: Option<[u8; 16]>, payload: Vec<u8>, authorization: Option<String>) -> (r: Self)
        requires
            management_size_fits(payload@.len()),
        ensures
            r.msg_type == msg_type,
            r.request_id == request_id,
            r.operation is None,
            r.payload@ == payload@,
            r.total_size == management_size(payload@.len()),
            r.authorization == authorization,
    {
        let total_size = ZeroCopyManagementMessage::calculate_size(payload.len());
        ZeroCopyManagementMessage { msg_type, request_id, operation: None, payload, total_size, authorization }
    }

    /// A request message carrying an operation, given the encoding of its
    /// [`ManagementRequest`] (or the text of the encoding's failure).
    pub fn new_request(operation: ManagementOperation, request_id: Option<[u8; 16]>, authorization: Option<String>, encoded: Result<Vec<u8>, String>) -> (r: Result<Self, RaftError>)
        requires
            encoded matches Ok(p) ==> management_size_fits(p@.len()),
        ensures
            match encoded {
                Ok(p) => r matches Ok(m) && m.msg_type == ManagementMessageType::Request
                    && m.request_id == request_id && m.operation == Some(operation)
                    && m.payload@ == p@ && m.total_size == management_size(p@.len())
                    && m.authorization == authorization,
                Err(e) => r matches Err(RaftError::Internal { message })
                    && message@ == "Failed to serialize payload: "@ + e@,
            },
    {
        match encoded {
            Ok(payload) => {
                let total_size = ZeroCopyManagementMessage::calculate_size(payload.len());
                Ok(ZeroCopyManagementMessage {
                    msg_type: ManagementMessageType::Request,
                    request_id,
                    operation: Some(operation),
                    payload,
                    total_size,
                    authorization,
                })
            },
            Err(e) => {
                let mut m = String::from_str("Failed to serialize payload: ");
                m.append(e.as_str());
                Err(RaftError::Internal { message: m })
            },
        }
    }

    /// The same message, owning its payload.
    pub fn into_owned(self) -> (r: Self)
        ensures
            r == self,
    {
        self
    }

    /// The payload bytes.
    pub fn payload_bytes(&self) -> (r: &[u8])
        ensures
            r@ == self.payload@,
    {
        self.payload.as_slice()
    }

    /// The payload length.
    pub fn payload_len(&self) -> (r: usize)
        ensures
            r == self.payload@.len(),
    {
        self.payload.len()
    }

    /// Whether the payload is large enough to be streamed.
    pub fn is_large_message(&self) -> (r: bool)
        ensures
            r == (self.payload@.len() > LARGE_MESSAGE_THRESHOLD),
    {
        self.payload.len() > LARGE_MESSAGE_THRESHOLD
    }
}

/// The request a management call sends: the operation, a 30-second
/// timeout and the authorization.
pub fn management_request(operation: &ManagementOperation, authorization: &Option<String>) -> (r: ManagementRequest)
    ensures
        same_operation(*operation, r.operation),
        r.timeout_ms == Some(30_000u64),
        r.authorization == *authorization,
{
    let auth = match authorization {
        Some(a) => Some(a.clone()),
        None => None,
    };
    ManagementRequest { operation: operation.duplicate(), timeout_ms: Some(30_000), authorization: auth }
}

/// A management request with its payload.
#[derive(Debug)]
pub struct ZeroCopyManagementRequest {
    /// Requested operation
    pub operation: ManagementOperation,
    /// Payload bytes
    pub payload: Vec<u8>,
    /// Timeout in milliseconds
    pub timeout_ms: Option<u64>,
    /// Authorization token
    pub authorization: Option<String>,
}

impl ZeroCopyManagementRequest {
    /// A request holding a copy of the given payload.
    pub fn new(operation: ManagementOperation, payload: &[u8], timeout_ms: Option<u64>, authorization: Option<String>) -> (r: Self)
        ensures
            r.operation == operation,
            r.payload@ == payload@,
            r.timeout_ms == timeout_ms,
            r.authorization == authorization,
    {
        ZeroCopyManagementRequest { operation, payload: copy_bytes(payload), timeout_ms, authorization }
    }

    /// The request as a [`ManagementRequest`].
    pub fn to_standard(&self) -> (r: ManagementRequest)
        ensures
            same_operation(self.operation, r.operation),
            r.timeout_ms == self.timeout_ms,
            r.authorization == self.authorization,
    {
        let auth = match &self.authorization {
            Some(a) => Some(a.clone()),
            None => None,
        };
        ManagementRequest { operation: self.operation.duplicate(), timeout_ms: self.timeout_ms, authorization: auth }
    }
}

/// Whether a role may perform an operation: administrators anything,
/// observers read-only operations, member managers read-only operations and
/// membership changes, monitors the status, health and metrics reads.  A
/// node without a role is treated as an observer.
pub open spec fn role_allows(role: Option<ManagementRole>, op: ManagementOperation) -> bool {
    match role {
        Some(ManagementRole::Admin) => true,
        Some(ManagementRole::Observer) => spec_is_read_only(op),
        Some(ManagementRole::MemberManager) => spec_is_read_only(op) || (match op {
            ManagementOperation::AddMember { .. } | ManagementOperation::RemoveMember { .. }
                | ManagementOperation::UpdateMemberRole { .. } => true,
            _ => false,
        }),
        Some(ManagementRole::Monitor) => match op {
            ManagementOperation::GetClusterStatus | ManagementOperation::GetHealthStatus
                | ManagementOperation::GetMetrics { .. } => true,
            _ => false,
        },
        None => spec_is_read_only(op),
    }
}

/// Decide whether a role may perform an operation.
pub fn role_permits(role: Option<ManagementRole>, operation: &ManagementOperation) -> (r: bool)
    ensures
        r == role_allows(role, *operation),
{
    match role {
        Some(ManagementRole::Admin) => true,
        Some(ManagementRole::Observer) => operation.is_read_only(),
        Some(ManagementRole::MemberManager) => {
            operation.is_read_only() || match operation {
                ManagementOperation::AddMember { .. } | ManagementOperation::RemoveMember { .. }
                    | ManagementOperation::UpdateMemberRole { .. } => true,
                _ => false,
            }
        },
        Some(ManagementRole::Monitor) => match operation {
            ManagementOperation::GetClusterStatus | ManagementOperation::GetHealthStatus
                | ManagementOperation::GetMetrics { .. } => true,
            _ => false,
        },
        None => operation.is_read_only(),
    }
}

/// The permissions the management handler knows, one entry per node.
pub struct PermissionTable {
    entries: Vec<ManagementPermissions>,
}

impl PermissionTable {
    /// The (node, role) pairs, in the order nodes were first given one.
    pub closed spec fn roles(&self) -> Seq<(u64, ManagementRole)> {
        self.entries@.map_values(|p: ManagementPermissions| (p.node_id, p.role))
    }

    /// Well-formed: one entry per node.
    pub open spec fn wf(&self) -> bool {
        forall|i: int, j: int| 0 <= i < j < self.roles().len() ==> self.roles()[i].0 != self.roles()[j].0
    }

    /// The role of a node, if it has one.
    pub open spec fn role_of(&self, node_id: u64) -> Option<ManagementRole> {
        if exists|i: int| 0 <= i < self.roles().len() && #[trigger] self.roles()[i].0 == node_id {
            Some(self.roles()[choose|i: int| 0 <= i < self.roles().len() && #[trigger] self.roles()[i].0 == node_id].1)
        } else {
            None
        }
    }

    /// An empty table.
    pub fn new() -> (r: Self)
        ensures
            r.wf(),
            r.roles().len() == 0,
    {
        PermissionTable { entries: Vec::new() }
    }

    fn find(&self, node_id: u64) -> (r: Option<usize>)
        requires
            self.wf(),
        ensures
            match r {
                Some(i) => i < self.roles().len() && self.roles()[i as int].0 == node_id
                    && self.role_of(node_id) == Some(self.roles()[i as int].1),
                None => self.role_of(node_id) is None,
            },
    {
        let mut i: usize = 0;
        while i < self.entries.len()
            invariant
                i <= self.roles().len(),
                self.wf(),
                forall|k: int| 0 <= k < i ==> #[trigger] self.roles()[k].0 != node_id,
            decreases self.roles().len() - i,
        {
            assert(self.roles()[i as int].0 == self.entries@[i as int].node_id);
            if self.entries[i].node_id == node_id {
                proof {
                    let w = choose|w: int| 0 <= w < self.roles().len() && #[trigger] self.roles()[w].0 == node_id;
                    if w != i as int {
                        if w < i as int {
                            assert(self.roles()[w].0 != node_id);
                        } else {
                            assert(self.roles()[i as int].0 != self.roles()[w].0);
                        }
                    }
                }
                return Some(i);
            }
            i = i + 1;
        }
        None
    }

    /// Give a node its permissions, replacing any it had.
    pub fn add_permissions(&mut self, permissions: ManagementPermissions)
        requires
            old(self).wf(),
        ensures
            final(self).wf(),
            final(self).role_of(permissions.node_id) == Some(permissions.role),
            forall|n: u64| n != permissions.node_id ==> #[trigger] final(self).role_of(n) == old(self).role_of(n),
    {
        let node = permissions.node_id;
        let role = permissions.role;
        let ghost before = self.roles();
        match self.find(node) {
            Some(i) => {
                self.entries.set(i, permissions);
                proof {
                    assert(self.roles() =~= before.update(i as int, (node, role)));
                    assert forall|a: int, b: int| 0 <= a < b < self.roles().len() implies self.roles()[a].0 != self.roles()[b].0 by {
                        assert(before[a].0 != before[b].0);
                    }
                    assert(self.roles()[i as int].0 == node);
                    let w = choose|w: int| 0 <= w < self.roles().len() && #[trigger] self.roles()[w].0 == node;
                    if w != i as int {
                        if w < i as int { assert(self.roles()[w].0 != self.roles()[i as int].0); }
                        else { assert(self.roles()[i as int].0 != self.roles()[w].0); }
                    }
                    assert forall|n: u64| n != node implies #[trigger] self.role_of(n) == old(self).role_of(n) by {
                        if exists|k: int| 0 <= k < before.len() && #[trigger] before[k].0 == n {
                            let k = choose|k: int| 0 <= k < before.len() && #[trigger] before[k].0 == n;
                            assert(self.roles()[k].0 == n);
                            let w1 = choose|w: int| 0 <= w < self.roles().len() && #[trigger] self.roles()[w].0 == n;
                            let w2 = choose|w: int| 0 <= w < before.len() && #[trigger] before[w].0 == n;
                            if w1 != w2 {
                                if w1 < w2 { assert(before[w1].0 != before[w2].0); }
                                else { assert(before[w2].0 != before[w1].0); }
                            }
                        }
                        if exists|k: int| 0 <= k < self.roles().len() && #[trigger] self.roles()[k].0 == n {
                            let k = choose|k: int| 0 <= k < self.roles().len() && #[trigger] self.roles()[k].0 == n;
                            assert(before[k].0 == n);
                        }
                    }
                }
            },
            None => {
                self.entries.push(permissions);
                proof {
                    assert(self.roles() =~= before.push((node, role)));
                    assert forall|a: int, b: int| 0 <= a < b < self.roles().len() implies self.roles()[a].0 != self.roles()[b].0 by {
                        if b == before.len() {
                            assert(before[a].0 != node);
                        }
                    }
                    let last = before.len() as int;
                    assert(self.roles()[last].0 == node);
                    let w = choose|w: int| 0 <= w < self.roles().len() && #[trigger] self.roles()[w].0 == node;
                    if w != last {
                        assert(before[w].0 == node);
                    }
                    assert forall|n: u64| n != node implies #[trigger] self.role_of(n) == old(self).role_of(n) by {
                        if exists|k: int| 0 <= k < before.len() && #[trigger] before[k].0 == n {
                            let k = choose|k: int| 0 <= k < before.len() && #[trigger] before[k].0 == n;
                            assert(self.roles()[k].0 == n);
                            let w1 = choose|w: int| 0 <= w < self.roles().len() && #[trigger] self.roles()[w].0 == n;
                            let w2 = choose|w: int| 0 <= w < before.len() && #[trigger] before[w].0 == n;
                            if w1 != w2 {
                                if w1 < w2 { assert(self.roles()[w1].0 != self.roles()[w2].0); }
                                else { assert(self.roles()[w2].0 != self.roles()[w1].0); }
                            }
                        }
                        if exists|k: int| 0 <= k < self.roles().len() && #[trigger] self.roles()[k].0 == n {
                            let k = choose|k: int| 0 <= k < self.roles().len() && #[trigger] self.roles()[k].0 == n;
                            assert(k < last);
                            assert(before[k].0 == n);
                        }
                    }
                }
            },
        }
    }

    /// Whether a node may perform an operation, by its role.
    pub fn check_permission(&self, node_id: u64, operation: &ManagementOperation) -> (r: bool)
        requires
            self.wf(),
        ensures
            r == role_allows(self.role_of(node_id), *operation),
    {
        let role = match self.find(node_id) {
            Some(i) => Some(self.entries[i].role),
            None => None,
        };
        role_permits(role, operation)
    }
}

/// Administrators may do anything; everyone may do what is read-only.
pub proof fn lemma_read_only_always_allowed(role: Option<ManagementRole>, op: ManagementOperation)
    requires
        spec_is_read_only(op),
        !(role matches Some(ManagementRole::Monitor)),
    ensures
        role_allows(role, op),
{
}

/// The management type of an incoming transport message: requests,
/// responses and errors keep their kind, heartbeats are health checks, and
/// anything else is treated as an error.
pub open spec fn management_type_of(t: MessageType) -> ManagementMessageType {
    match t {
        MessageType::Request => ManagementMessageType::Request,
        MessageType::Response => ManagementMessageType::Response,
        MessageType::Error => ManagementMessageType::Error,
        MessageType::Heartbeat => ManagementMessageType::HealthCheck,
        _ => ManagementMessageType::Error,
    }
}

/// The management message an incoming transport message stands for.
pub fn incoming_message(header: &MessageHeader, payload: Vec<u8>) -> (r: ZeroCopyManagementMessage)
    requires
        header.payload_len + 4 <= u32::MAX,
    ensures
        r.msg_type == management_type_of(header.msg_type),
        r.request_id == header.request_id,
        r.operation is None,
        r.payload@ == payload@,
        r.total_size == header.payload_len + 4,
        r.authorization is None,
{
    let msg_type = match header.msg_type {
        MessageType::Request => ManagementMessageType::Request,
        MessageType::Response => ManagementMessageType::Response,
        MessageType::Error => ManagementMessageType::Error,
        MessageType::Heartbeat => ManagementMessageType::HealthCheck,
        _ => ManagementMessageType::Error,
    };
    ZeroCopyManagementMessage {
        msg_type,
        request_id: header.request_id,
        operation: None,
        payload,
        total_size: header.payload_len + 4,
        authorization: None,
    }
}

/// What the management handler does with a message.
#[derive(Debug, Clone, Copy, PartialEq, Eq, Structural)]
pub enum ManagementAction {
    /// Forward the request to the cluster manager and answer with its reply
    ForwardRequest,
    /// Register an event subscription under the request id
    Subscribe,
    /// Answer a health check with success
    AnswerHealthCheck,
    /// Ignore (logged as unexpected)
    Ignore,
}

/// Decide what to do with a management message by its type.
pub fn management_action(msg_type: ManagementMessageType) -> (r: ManagementAction)
    ensures
        r == (match msg_type {
            ManagementMessageType::Request => ManagementAction::ForwardRequest,
            ManagementMessageType::Event => ManagementAction::Subscribe,
            ManagementMessageType::HealthCheck => ManagementAction::AnswerHealthCheck,
            _ => ManagementAction::Ignore,
        }),
{
    match msg_type {
        ManagementMessageType::Request => ManagementAction::ForwardRequest,
        ManagementMessageType::Event => ManagementAction::Subscribe,
        ManagementMessageType::HealthCheck => ManagementAction::AnswerHealthCheck,
        _ => ManagementAction::Ignore,
    }
}

/// Ways forwarding a request to the cluster manager can fail.
#[derive(Debug, Clone, Copy, PartialEq, Eq, Structural)]
pub enum ForwardFailure {
    /// The cluster manager does not take requests
    ManagerUnavailable,
    /// The reply channel closed without a reply
    ReplyLost,
    /// The whole exchange took too long
    Timeout,
}

/// The error text an answer reports for a failed forwarding.
pub fn forward_failure_text(f: ForwardFailure) -> (r: String)
    ensures
        r@ == (match f {
            ForwardFailure::ManagerUnavailable => "Cluster manager unavailable"@,
            ForwardFailure::ReplyLost => "Response channel closed"@,
            ForwardFailure::Timeout => "Management stream timeout"@,
        }),
{
    match f {
        ForwardFailure::ManagerUnavailable => String::from_str("Cluster manager unavailable"),
        ForwardFailure::ReplyLost => String::from_str("Response channel closed"),
        ForwardFailure::Timeout => String::from_str("Management stream timeout"),
    }
}

/// A request message for an operation under a fresh request id, given the
/// encoding of its request.
pub fn create_management_request(operation: ManagementOperation, authorization: Option<String>, encoded: Result<Vec<u8>, String>) -> (r: Result<ZeroCopyManagementMessage, RaftError>)
    requires
        encoded matches Ok(p) ==> management_size_fits(p@.len()),
    ensures
        match encoded {
            Ok(p) => r matches Ok(m) && m.msg_type == ManagementMessageType::Request
                && m.request_id is Some && m.operation == Some(operation)
                && m.payload@ == p@ && m.authorization == authorization,
            Err(e) => r matches Err(RaftError::Internal { message })
                && message@ == "Failed to serialize payload: "@ + e@,
        },
{
    let id = crate::transport::protocol::generate_request_id();
    ZeroCopyManagementMessage::new_request(operation, Some(id), authorization, encoded)
}

/// A health check under a fresh request id, with no payload.
pub fn create_health_check_message() -> (r: ZeroCopyManagementMessage)
    ensures
        r.msg_type == ManagementMessageType::HealthCheck,
        r.request_id is Some,
        r.payload@.len() == 0,
        r.authorization is None,
{
    let id = crate::transport::protocol::generate_request_id();
    ZeroCopyManagementMessage::new_owned(ManagementMessageType::HealthCheck, Some(id), Vec::new(), None)
}

/// Whether a management message should be streamed.
pub fn should_stream_message(message: &ZeroCopyManagementMessage) -> (r: bool)
    ensures
        r == (message.payload@.len() > LARGE_MESSAGE_THRESHOLD),
{
    message.is_large_message()
}

/// The number of a management message type.
pub open spec fn type_number(t: ManagementMessageType) -> u8 {
    match t {
        ManagementMessageType::Request => 0,
        ManagementMessageType::Response => 1,
        ManagementMessageType::Event => 2,
        ManagementMessageType::HealthCheck => 3,
        ManagementMessageType::Error => 4,
    }
}

/// The management message type of a number; unknown numbers are errors.
pub open spec fn type_of_number(v: u8) -> ManagementMessageType {
    if v == 0 {
        ManagementMessageType::Request
    } else if v == 1 {
        ManagementMessageType::Response
    } else if v == 2 {
        ManagementMessageType::Event
    } else if v == 3 {
        ManagementMessageType::HealthCheck
    } else {
        ManagementMessageType::Error
    }
}

impl From<ManagementMessageType> for u8 {
    fn from(msg_type: ManagementMessageType) -> (r: u8) {
        match msg_type {
            ManagementMessageType::Request => 0,
            ManagementMessageType::Response => 1,
            ManagementMessageType::Event => 2,
            ManagementMessageType::HealthCheck => 3,
            ManagementMessageType::Error => 4,
        }
    }
}

impl vstd::std_specs::convert::FromSpecImpl<ManagementMessageType> for u8 {
    open spec fn obeys_from_spec() -> bool {
        true
    }

    open spec fn from_spec(msg_type: ManagementMessageType) -> u8 {
        type_number(msg_type)
    }
}

impl From<u8> for ManagementMessageType {
    fn from(value: u8) -> (r: ManagementMessageType) {
        if value == 0 {
            ManagementMessageType::Request
        } else if value == 1 {
            ManagementMessageType::Response
        } else if value == 2 {
            ManagementMessageType::Event
        } else if value == 3 {
            ManagementMessageType::HealthCheck
        } else {
            ManagementMessageType::Error
        }
    }
}

impl vstd::std_specs::convert::FromSpecImpl<u8> for ManagementMessageType {
    open spec fn obeys_from_spec() -> bool {
        true
    }

    open spec fn from_spec(value: u8) -> ManagementMessageType {
        type_of_number(value)
    }
}

/// A message type survives the round trip through its number.
pub proof fn lemma_type_number_roundtrip(t: ManagementMessageType)
    ensures
        type_of_number(type_number(t)) == t,
        type_number(t) <= 4,
{
}

} // verus!
