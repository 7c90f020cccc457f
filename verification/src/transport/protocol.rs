//! Wire protocol of the consensus transport: message kinds, the message
//! wrapper, and the frames that carry them.
//!
//! A frame is the header length as a 4-byte big-endian integer, the encoded
//! header, then the payload.  Encoding the header itself (a serialisation
//! of [`MessageHeader`]) happens outside; here the frame is assembled and
//! taken apart and its lengths are checked.

use vstd::prelude::*;
use vstd::string::StringExecFns;
use crate::error::RaftError;
use crate::text::decimal;
use rand::RngCore;

verus! {

/// Payloads above this size (64 KiB) are streamed.
pub const LARGE_MESSAGE_THRESHOLD: usize = 65536;

/// Largest accepted encoded header, in bytes.
pub const MAX_HEADER_SIZE: usize = 256;

/// Largest accepted payload (100 MiB).
pub const MAX_PAYLOAD_SIZE: u32 = 104_857_600;

/// Size of the chunks large payloads are streamed in (32 KiB).
pub const CHUNK_SIZE: usize = 32768;

/// Message types of the protocol.
#[derive(Debug, Clone, Copy, PartialEq, Eq, Structural)]
pub enum MessageType {
    /// RPC request message
    Request,
    /// RPC response message
    Response,
    /// Direct consensus message
    RaftMessage,
    /// Heartbeat for connection keep-alive
    Heartbeat,
    /// Error message indicating a protocol failure
    Error,
}

/// Protocol message header.
#[derive(Debug, Clone, Copy, PartialEq, Eq)]
pub struct MessageHeader {
    /// Type of message being sent
    pub msg_type: MessageType,
    /// Unique request identifier for correlation (16 random bytes)
    pub request_id: Option<[u8; 16]>,
    /// Length of the payload in bytes
    pub payload_len: u32,
}

/// RPC request.
#[derive(Debug, Clone)]
pub struct RpcRequest {
    /// Service name being called (e.g. "raft")
    pub service: String,
    /// Method name being invoked (e.g. "raft.message")
    pub method: String,
    /// Serialized request payload
    pub payload: Vec<u8>,
}

/// RPC response.
#[derive(Debug, Clone)]
pub struct RpcResponse {
    /// Whether the call succeeded
    pub success: bool,
    /// Serialized response payload if successful
    pub payload: Option<Vec<u8>>,
    /// Error message if unsuccessful
    pub error: Option<String>,
}

/// A message with its payload and its estimated frame size.
#[derive(Debug, Clone)]
pub struct ZeroCopyMessage {
    /// Message type for dispatch
    pub msg_type: MessageType,
    /// Optional request ID for correlation
    pub request_id: Option<[u8; 16]>,
    /// Payload bytes
    pub payload: Vec<u8>,
    /// Estimated size of the message on the wire
    pub total_size: u32,
}

/// The size estimate of a message: 4 bytes of length prefix, 32 bytes of
/// header and the payload length taken modulo 2^32.
pub open spec fn size_estimate(payload_len: nat) -> int {
    36 + (payload_len % 0x1_0000_0000) as int
}

/// The size estimate fits in 32 bits.
pub open spec fn size_fits(payload_len: nat) -> bool {
    size_estimate(payload_len) <= u32::MAX
}

impl ZeroCopyMessage {
    /// The size estimate of a message with a payload of `payload_len` bytes.
    pub fn calculate_size(payload_len: usize) -> (r: u32)
        requires
            size_fits(payload_len as nat),
        ensures
            r == size_estimate(payload_len as nat),
    {
        let low = ((payload_len as u64) % 0x1_0000_0000u64) as u32;
        4 + 32 + low
    }

    /// A message holding a copy of the given payload.
    pub fn new_borrowed(msg_type: MessageType, request_id: Option<[u8; 16]>, payload: &[u8]) -> (r: Self)
        requires
            size_fits(payload@.len()),
        ensures
            r.msg_type == msg_type,
            r.request_id == request_id,
            r.payload@ == payload@,
            r.total_size == size_estimate(payload@.len()),
    {
        let total_size = ZeroCopyMessage::calculate_size(payload.len());
        ZeroCopyMessage { msg_type, request_id, payload: copy_range(payload, 0, payload.len()), total_size }
    }

    /// A message owning the given payload.
    pub fn new_owned(msg_type: MessageType, request_id: Option<[u8; 16]>, payload: Vec<u8>) -> (r: Self)
        requires
            size_fits(payload@.len()),
        ensures
            r.msg_type == msg_type,
            r.request_id == request_id,
            r.payload@ == payload@,
            r.total_size == size_estimate(payload@.len()),
    {
        let total_size = ZeroCopyMessage::calculate_size(payload.len());
        ZeroCopyMessage { msg_type, request_id, payload, total_size }
    }

    /// The same message, owning its payload.
    pub fn into_owned(self) -> (r: Self)
        ensures
            r == self,
    {
        self
    }

    /// The payload bytes.
    pub fn payload_bytes(&self) -> (r: &[u8])
        ensures
            r@ == self.payload@,
    {
        self.payload.as_slice()
    }

    /// The payload length.
    pub fn payload_len(&self) -> (r: usize)
        ensures
            r == self.payload@.len(),
    {
        self.payload.len()
    }

    /// Whether the payload is large enough to be streamed.
    pub fn is_large_message(&self) -> (r: bool)
        ensures
            r == (self.payload@.len() > LARGE_MESSAGE_THRESHOLD),
    {
        self.payload.len() > LARGE_MESSAGE_THRESHOLD
    }

    /// The header that announces this message.
    pub fn header(&self) -> (r: MessageHeader)
        ensures
            r.msg_type == self.msg_type,
            r.request_id == self.request_id,
            r.payload_len == (self.payload@.len() % 0x1_0000_0000) as u32,
    {
        MessageHeader {
            msg_type: self.msg_type,
            request_id: self.request_id,
            payload_len: ((self.payload.len() as u64) % 0x1_0000_0000u64) as u32,
        }
    }
}

/// An RPC request whose service and method are fixed texts.
#[derive(Debug, Clone)]
pub struct ZeroCopyRpcRequest {
    /// Service name
    pub service: &'static str,
    /// Method name
    pub method: &'static str,
    /// Payload bytes
    pub payload: Vec<u8>,
}

impl ZeroCopyRpcRequest {
    /// A request holding a copy of the given payload.
    pub fn new_borrowed(service: &'static str, method: &'static str, payload: &[u8]) -> (r: Self)
        ensures
            r.service@ == service@,
            r.method@ == method@,
            r.payload@ == payload@,
    {
        ZeroCopyRpcRequest { service, method, payload: copy_range(payload, 0, payload.len()) }
    }

    /// A request owning the given payload.
    pub fn new_owned(service: &'static str, method: &'static str, payload: Vec<u8>) -> (r: Self)
        ensures
            r.service@ == service@,
            r.method@ == method@,
            r.payload@ == payload@,
    {
        ZeroCopyRpcRequest { service, method, payload }
    }

    /// The request as an [`RpcRequest`].
    pub fn to_standard(&self) -> (r: RpcRequest)
        ensures
            r.service@ == self.service@,
            r.method@ == self.method@,
            r.payload@ == self.payload@,
    {
        RpcRequest {
            service: String::from_str(self.service),
            method: String::from_str(self.method),
            payload: self.payload.clone(),
        }
    }
}

/// A heartbeat: no request id and no payload.
pub fn create_heartbeat_message() -> (r: ZeroCopyMessage)
    ensures
        r.msg_type == MessageType::Heartbeat,
        r.request_id is None,
        r.payload@.len() == 0,
        r.total_size == 36,
{
    ZeroCopyMessage::new_owned(MessageType::Heartbeat, None, Vec::new())
}

/// Whether a message is a heartbeat.
pub fn is_heartbeat_message(message: &ZeroCopyMessage) -> (r: bool)
    ensures
        r == (message.msg_type == MessageType::Heartbeat),
{
    message.msg_type == MessageType::Heartbeat
}

/// Whether a message should be streamed.
pub fn should_stream_message(message: &ZeroCopyMessage) -> (r: bool)
    ensures
        r == (message.payload@.len() > LARGE_MESSAGE_THRESHOLD),
{
    message.is_large_message()
}

/// `rand::thread_rng().fill_bytes`: sixteen random bytes; which ones is left
/// unsaid, as they are random.
#[verifier::external_body]
fn random_bytes_16() -> (r: [u8; 16]) {
    let mut id = [0u8; 16];
    RngCore::fill_bytes(&mut rand::thread_rng(), &mut id);
    id
}

/// A fresh random request id.
pub fn generate_request_id() -> (r: [u8; 16]) {
    random_bytes_16()
}

/// The big-endian bytes of a 32-bit length.
pub open spec fn be32(n: u32) -> Seq<u8> {
    seq![(n / 0x100_0000) as u8, ((n / 0x1_0000) % 0x100) as u8, ((n / 0x100) % 0x100) as u8, (n % 0x100) as u8]
}

/// The 32-bit length that four big-endian bytes hold.
pub open spec fn from_be32(b: Seq<u8>) -> int {
    b[0] * 0x100_0000 + b[1] * 0x1_0000 + b[2] * 0x100 + b[3]
}

/// The frame of a message: the header length, the header, the payload.
pub open spec fn frame_spec(header: Seq<u8>, payload: Seq<u8>) -> Seq<u8> {
    be32(header.len() as u32) + header + payload
}

proof fn lemma_be32_roundtrip(n: u32)
    ensures
        from_be32(be32(n)) == n,
        be32(n).len() == 4,
{
    let b = be32(n);
    assert(b[0] == n / 0x100_0000);
    assert(b[1] == (n / 0x1_0000) % 0x100);
    assert(b[2] == (n / 0x100) % 0x100);
    assert(b[3] == n % 0x100);
    assert(from_be32(b) == n) by (nonlinear_arith)
        requires
            b[0] == n / 0x100_0000,
            b[1] == (n / 0x1_0000) % 0x100,
            b[2] == (n / 0x100) % 0x100,
            b[3] == n % 0x100,
            from_be32(b) == b[0] * 0x100_0000 + b[1] * 0x1_0000 + b[2] * 0x100 + b[3],
            0 <= n <= u32::MAX;
}

fn be32_bytes(n: u32) -> (r: Vec<u8>)
    ensures
        r@ == be32(n),
{
    let mut v: Vec<u8> = Vec::new();
    v.push((n / 0x100_0000) as u8);
    v.push(((n / 0x1_0000) % 0x100) as u8);
    v.push(((n / 0x100) % 0x100) as u8);
    v.push((n % 0x100) as u8);
    assert(v@ =~= be32(n));
    v
}

fn append_bytes(out: &mut Vec<u8>, bytes: &[u8])
    ensures
        final(out)@ == old(out)@ + bytes@,
{
    let mut i: usize = 0;
    while i < bytes.len()
        invariant
            i <= bytes@.len(),
            out@ == old(out)@ + bytes@.take(i as int),
        decreases bytes@.len() - i,
    {
        out.push(bytes[i]);
        assert(bytes@.take(i as int + 1) =~= bytes@.take(i as int).push(bytes@[i as int]));
        assert(out@ =~= old(out)@ + bytes@.take(i as int + 1));
        i = i + 1;
    }
    assert(bytes@.take(bytes@.len() as int) =~= bytes@);
}

/// Assemble the frame of an encoded header and a payload.
pub fn encode_frame(header: &[u8], payload: &[u8]) -> (r: Vec<u8>)
    requires
        header@.len() <= u32::MAX,
    ensures
        r@ == frame_spec(header@, payload@),
{
    let mut out = be32_bytes(header.len() as u32);
    append_bytes(&mut out, header);
    append_bytes(&mut out, payload);
    out
}

/// Why a frame is refused.
pub open spec fn frame_error(bytes: Seq<u8>) -> Option<Seq<char>> {
    if bytes.len() < 4 {
        Some("Failed to read header length: frame shorter than 4 bytes"@)
    } else if from_be32(bytes.take(4)) > MAX_HEADER_SIZE {
        Some("Header too large: "@ + decimal(from_be32(bytes.take(4)) as nat) + " bytes (max 256)"@)
    } else if bytes.len() < 4 + from_be32(bytes.take(4)) {
        Some("Failed to read header: frame shorter than its header"@)
    } else {
        None
    }
}

/// Read the length a 4-byte prefix announces.
pub fn header_length(prefix: &[u8]) -> (r: u32)
    requires
        prefix@.len() == 4,
    ensures
        r == from_be32(prefix@),
{
    let b0 = prefix[0] as u32;
    let b1 = prefix[1] as u32;
    let b2 = prefix[2] as u32;
    let b3 = prefix[3] as u32;
    b0 * 0x100_0000 + b1 * 0x1_0000 + b2 * 0x100 + b3
}

/// Check the header length a frame announces: at most [`MAX_HEADER_SIZE`].
pub fn check_header_length(header_len: u32) -> (r: Result<usize, RaftError>)
    ensures
        header_len <= MAX_HEADER_SIZE ==> r == Ok::<usize, RaftError>(header_len as usize),
        header_len > MAX_HEADER_SIZE ==> (r matches Err(RaftError::Internal { message })
            && message@ == "Header too large: "@ + decimal(header_len as nat) + " bytes (max 256)"@),
{
    if header_len as usize > MAX_HEADER_SIZE {
        let mut m = String::from_str("Header too large: ");
        crate::text::push_decimal(&mut m, header_len as u64);
        m.append(" bytes (max 256)");
        return Err(RaftError::Internal { message: m });
    }
    Ok(header_len as usize)
}

/// Check the payload length a header announces: at most 100 MiB.
pub fn check_payload_length(payload_len: u32) -> (r: Result<usize, RaftError>)
    ensures
        payload_len <= MAX_PAYLOAD_SIZE ==> r == Ok::<usize, RaftError>(payload_len as usize),
        payload_len > MAX_PAYLOAD_SIZE ==> (r matches Err(RaftError::Internal { message })
            && message@ == "Payload too large: "@ + decimal(payload_len as nat) + " bytes"@),
{
    if payload_len > MAX_PAYLOAD_SIZE {
        let mut m = String::from_str("Payload too large: ");
        crate::text::push_decimal(&mut m, payload_len as u64);
        m.append(" bytes");
        return Err(RaftError::Internal { message: m });
    }
    Ok(payload_len as usize)
}

fn copy_range(bytes: &[u8], start: usize, end: usize) -> (r: Vec<u8>)
    requires
        start <= end <= bytes@.len(),
    ensures
        r@ == bytes@.subrange(start as int, end as int),
{
    let mut out: Vec<u8> = Vec::new();
    let mut i: usize = start;
    while i < end
        invariant
            start <= i <= end <= bytes@.len(),
            out@ == bytes@.subrange(start as int, i as int),
        decreases end - i,
    {
        out.push(bytes[i]);
        assert(out@ =~= bytes@.subrange(start as int, i as int + 1));
        i = i + 1;
    }
    out
}

/// Take a frame apart into its encoded header and what follows it.
pub fn decode_frame(bytes: &[u8]) -> (r: Result<(Vec<u8>, Vec<u8>), RaftError>)
    ensures
        match frame_error(bytes@) {
            Some(m) => r matches Err(RaftError::Internal { message }) && message@ == m,
            None => r matches Ok((h, p)) && ({
                let n = from_be32(bytes@.take(4));
                &&& h@ == bytes@.subrange(4, 4 + n)
                &&& p@ == bytes@.subrange(4 + n, bytes@.len() as int)
            }),
        },
{
    if bytes.len() < 4 {
        return Err(RaftError::Internal { message: String::from_str("Failed to read header length: frame shorter than 4 bytes") });
    }
    let prefix = copy_range(bytes, 0, 4);
    assert(prefix@ =~= bytes@.take(4));
    let n = header_length(prefix.as_slice());
    let header_len = match check_header_length(n) {
        Ok(len) => len,
        Err(e) => { return Err(e); },
    };
    if bytes.len() - 4 < header_len {
        return Err(RaftError::Internal { message: String::from_str("Failed to read header: frame shorter than its header") });
    }
    let header = copy_range(bytes, 4, 4 + header_len);
    let rest = copy_range(bytes, 4 + header_len, bytes.len());
    Ok((header, rest))
}

/// A frame gives back the header and the payload it was made of, when the
/// header is no longer than [`MAX_HEADER_SIZE`].
pub proof fn lemma_frame_roundtrip(header: Seq<u8>, payload: Seq<u8>)
    requires
        header.len() <= MAX_HEADER_SIZE,
    ensures
        frame_error(frame_spec(header, payload)) is None,
        ({
            let f = frame_spec(header, payload);
            let n = from_be32(f.take(4));
            &&& f.subrange(4, 4 + n) == header
            &&& f.subrange(4 + n, f.len() as int) == payload
        }),
{
    let f = frame_spec(header, payload);
    lemma_be32_roundtrip(header.len() as u32);
    assert(f.take(4) =~= be32(header.len() as u32));
    assert(from_be32(f.take(4)) == header.len());
    assert(f.subrange(4, 4 + header.len() as int) =~= header);
    assert(f.subrange(4 + header.len() as int, f.len() as int) =~= payload);
}

/// The size of the next chunk of a streamed payload with `remaining` bytes
/// left.
pub fn next_chunk_size(remaining: usize) -> (r: usize)
    ensures
        r == (if remaining < CHUNK_SIZE { remaining } else { CHUNK_SIZE }),
{
    if remaining < CHUNK_SIZE { remaining } else { CHUNK_SIZE }
}

/// What an incoming message is handed to.
#[derive(Debug, Clone, Copy, PartialEq, Eq, Structural)]
pub enum Dispatch {
    /// Handle as an RPC request and answer it
    Rpc,
    /// Pass directly to the consensus module
    DirectRaft,
    /// Ignore (logged as unexpected)
    Ignore,
}

/// Decide how to handle an incoming message by its type.
pub fn dispatch(msg_type: MessageType) -> (r: Dispatch)
    ensures
        r == (match msg_type {
            MessageType::Request => Dispatch::Rpc,
            MessageType::RaftMessage => Dispatch::DirectRaft,
            _ => Dispatch::Ignore,
        }),
{
    match msg_type {
        MessageType::Request => Dispatch::Rpc,
        MessageType::RaftMessage => Dispatch::DirectRaft,
        _ => Dispatch::Ignore,
    }
}

/// Whether an RPC request carries a consensus message: service "raft",
/// method "raft.message".
pub fn is_raft_rpc(request: &RpcRequest) -> (r: bool)
    ensures
        r == (request.service@ == "raft"@ && request.method@ == "raft.message"@),
{
    crate::text::str_eq(request.service.as_str(), "raft") && crate::text::str_eq(request.method.as_str(), "raft.message")
}

/// The answer to an RPC request: success when it carries a consensus
/// message that was handed on (`forward_error` is `None`), a failure quoting
/// the hand-over error, or a failure naming an unknown service and method.
pub fn rpc_response(request: &RpcRequest, forward_error: Option<&str>) -> (r: RpcResponse)
    ensures
        r.payload is None,
        (request.service@ == "raft"@ && request.method@ == "raft.message"@) ==> match forward_error {
            None => r.success && r.error is None,
            Some(e) => !r.success && (r.error matches Some(m) && m@ == "Failed to process message: "@ + e@),
        },
        !(request.service@ == "raft"@ && request.method@ == "raft.message"@) ==> (!r.success
            && (r.error matches Some(m) && m@ == "Unknown service/method: "@ + request.service@ + "/"@ + request.method@)),
{
    if is_raft_rpc(request) {
        match forward_error {
            None => RpcResponse { success: true, payload: None, error: None },
            Some(e) => {
                let mut m = String::from_str("Failed to process message: ");
                m.append(e);
                RpcResponse { success: false, payload: None, error: Some(m) }
            },
        }
    } else {
        let mut m = String::from_str("Unknown service/method: ");
        m.append(request.service.as_str());
        m.append("/");
        m.append(request.method.as_str());
        RpcResponse { success: false, payload: None, error: Some(m) }
    }
}

} // verus!
