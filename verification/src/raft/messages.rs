//! Consensus message routing and configuration changes.

use vstd::prelude::*;
use crate::error::RaftError;

verus! {

/// The consensus message type of the `raft-proto` crate.
#[verifier::external_type_specification]
#[verifier::external_body]
pub struct ExRaftMessage(raft_proto::eraftpb::Message);

/// The `from` field of a consensus message: the node it comes from.
pub uninterp spec fn raft_message_from(msg: raft_proto::eraftpb::Message) -> u64;

/// The `to` field of a consensus message: the node it is for.
pub uninterp spec fn raft_message_to(msg: raft_proto::eraftpb::Message) -> u64;

/// The number of the `msg_type` field of a consensus message.
pub uninterp spec fn raft_message_type_code(msg: raft_proto::eraftpb::Message) -> i32;

/// `Message::get_from`: the `from` field, a function of the message alone.
#[verifier::external_body]
fn message_sender(msg: &raft_proto::eraftpb::Message) -> (r: u64)
    ensures
        r == raft_message_from(*msg),
{
    msg.get_from()
}

/// `Message::get_to`: the `to` field, a function of the message alone.
#[verifier::external_body]
fn message_recipient(msg: &raft_proto::eraftpb::Message) -> (r: u64)
    ensures
        r == raft_message_to(*msg),
{
    msg.get_to()
}

/// `Message::get_msg_type`, as the enum's number: the `msg_type` field,
/// one of the nineteen message types (0 to 18) of the protocol.
#[verifier::external_body]
pub(crate) fn message_kind(msg: &raft_proto::eraftpb::Message) -> (r: i32)
    ensures
        r == raft_message_type_code(*msg),
        0 <= r <= 18,
{
    msg.get_msg_type() as i32
}

/// The error type of the `protobuf` crate.
#[verifier::external_type_specification]
#[verifier::external_body]
pub struct ExProtobufError(protobuf::ProtobufError);

/// The protobuf wire encoding of a consensus message, `None` where the
/// encoder refuses the message.
pub uninterp spec fn raft_message_encoding(msg: raft_proto::eraftpb::Message) -> Option<Seq<u8>>;

/// The consensus message that a byte string decodes to, `None` where it is
/// not a well-formed protobuf encoding of one.
pub uninterp spec fn raft_message_decoding(bytes: Seq<u8>) -> Option<raft_proto::eraftpb::Message>;

/// `protobuf::Message::write_to_bytes` on a consensus message: the message's
/// wire encoding, which depends on the message alone, or the encoder's error.
#[verifier::external_body]
fn encode_raft_message(msg: &raft_proto::eraftpb::Message) -> (r: Result<Vec<u8>, protobuf::ProtobufError>)
    ensures
        r is Ok <==> raft_message_encoding(*msg) is Some,
        r matches Ok(b) ==> raft_message_encoding(*msg) == Some(b@),
{
    protobuf::Message::write_to_bytes(msg)
}

/// `protobuf::Message::parse_from_bytes` for a consensus message: the
/// message the bytes decode to, which depends on the bytes alone, or the
/// decoder's error.
#[verifier::external_body]
fn decode_raft_message(data: &[u8]) -> (r: Result<raft_proto::eraftpb::Message, protobuf::ProtobufError>)
    ensures
        r is Ok <==> raft_message_decoding(data@) is Some,
        r matches Ok(m) ==> raft_message_decoding(data@) == Some(m),
{
    protobuf::Message::parse_from_bytes(data)
}

/// The text that `ProtobufError`'s `Display` gives. Nothing is stated of
/// it: for an I/O error the text comes from the operating system.
#[verifier::external_body]
fn protobuf_error_text(e: &protobuf::ProtobufError) -> String {
    format!("{}", e)
}

/// The encoding of a consensus message for the wire: its protobuf bytes,
/// or a serialization error naming the message type.
pub fn serialize_message(msg: &raft_proto::eraftpb::Message) -> (r: Result<Vec<u8>, RaftError>)
    ensures
        r is Ok <==> raft_message_encoding(*msg) is Some,
        r matches Ok(b) ==> raft_message_encoding(*msg) == Some(b@),
        r matches Err(e) ==> e matches RaftError::Serialization { message_type, .. }
            && message_type@ == "Message"@,
{
    match encode_raft_message(msg) {
        Ok(bytes) => Ok(bytes),
        Err(e) => Err(RaftError::Serialization { message_type: "Message".to_string(), details: protobuf_error_text(&e) }),
    }
}

/// The consensus message that wire bytes hold, or a serialization error
/// naming the message type where they hold none.
pub fn deserialize_message(data: &[u8]) -> (r: Result<raft_proto::eraftpb::Message, RaftError>)
    ensures
        r is Ok <==> raft_message_decoding(data@) is Some,
        r matches Ok(m) ==> raft_message_decoding(data@) == Some(m),
        r matches Err(e) ==> e matches RaftError::Serialization { message_type, .. }
            && message_type@ == "Message"@,
{
    match decode_raft_message(data) {
        Ok(m) => Ok(m),
        Err(e) => Err(RaftError::Serialization { message_type: "Message".to_string(), details: protobuf_error_text(&e) }),
    }
}

/// Type of a configuration change.
#[derive(Debug, Clone, Copy, PartialEq, Eq, Structural)]
pub enum ConfChangeType {
    /// Add a new node to the cluster
    AddNode,
    /// Remove an existing node from the cluster
    RemoveNode,
}

/// Context of a configuration change: where the node can be reached.
#[derive(Debug, Clone)]
pub struct ConfChangeContext {
    /// Network address of the node
    pub address: String,
    /// Optional endpoint id of the node
    pub p2p_node_id: Option<String>,
    /// Network addresses of the node's endpoint
    pub p2p_addresses: Vec<String>,
    /// Optional relay server URL for NAT traversal
    pub p2p_relay_url: Option<String>,
}

/// High-level consensus message types.
#[derive(Debug, Clone, Copy, PartialEq, Eq, Structural)]
pub enum MessageType {
    /// Vote request for leader election
    Vote,
    /// Heartbeat to maintain leadership
    Heartbeat,
    /// Log append for replication
    Append,
    /// Snapshot transfer
    Snapshot,
    /// Response to a vote request
    VoteResponse,
    /// Response to a heartbeat
    HeartbeatResponse,
    /// Response to a log append
    AppendResponse,
    /// Response to a snapshot transfer
    SnapshotResponse,
}

/// The high-level type of a protocol message type, by its number: hup (0)
/// and vote requests (5) are votes, beats (1) and heartbeats (8) and every
/// type without a counterpart are heartbeats, proposals (2) and appends (3)
/// are appends, and the responses and snapshots (7) map to their own kinds.
pub open spec fn kind_for_code(code: i32) -> MessageType {
    if code == 0 || code == 5 {
        MessageType::Vote
    } else if code == 2 || code == 3 {
        MessageType::Append
    } else if code == 4 {
        MessageType::AppendResponse
    } else if code == 6 {
        MessageType::VoteResponse
    } else if code == 7 {
        MessageType::Snapshot
    } else if code == 9 {
        MessageType::HeartbeatResponse
    } else {
        MessageType::Heartbeat
    }
}

impl MessageType {
    /// The high-level type of a protocol message type, given by its number.
    pub fn from_type_code(code: i32) -> (r: Self)
        ensures
            r == kind_for_code(code),
    {
        if code == 0 || code == 5 {
            MessageType::Vote
        } else if code == 2 || code == 3 {
            MessageType::Append
        } else if code == 4 {
            MessageType::AppendResponse
        } else if code == 6 {
            MessageType::VoteResponse
        } else if code == 7 {
            MessageType::Snapshot
        } else if code == 9 {
            MessageType::HeartbeatResponse
        } else {
            MessageType::Heartbeat
        }
    }
}

/// Routing information of a consensus message.
#[derive(Debug, Clone, Copy, PartialEq, Eq, Structural)]
pub struct MessageRoute {
    /// Source node ID
    pub from: u64,
    /// Destination node ID
    pub to: u64,
    /// Type of the message
    pub msg_type: MessageType,
}

impl MessageRoute {
    /// The route of a message with the given ends and protocol type number.
    pub fn from_parts(from: u64, to: u64, code: i32) -> (r: Self)
        ensures
            r == (MessageRoute { from, to, msg_type: kind_for_code(code) }),
    {
        MessageRoute { from, to, msg_type: MessageType::from_type_code(code) }
    }

    /// The route of a consensus message.
    pub fn from_message(msg: &raft_proto::eraftpb::Message) -> (r: Self)
        ensures
            r == (MessageRoute {
                from: raft_message_from(*msg),
                to: raft_message_to(*msg),
                msg_type: kind_for_code(raft_message_type_code(*msg)),
            }),
    {
        let from = message_sender(msg);
        let to = message_recipient(msg);
        let code = message_kind(msg);
        MessageRoute::from_parts(from, to, code)
    }
}

} // verus!
