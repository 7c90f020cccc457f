//! Decisions of the peer-to-peer consensus transport: how urgently a
//! consensus message is sent, where messages wait for their batch and which
//! of them a batch sends, how a connection to a peer is found, how messages
//! are labelled in the counters, and the transport's metrics.

use vstd::prelude::*;
use vstd::string::StringExecFns;
use crate::error::RaftError;

verus! {

/// Sending priority of consensus messages, most urgent first.
#[derive(Debug, Clone, Copy, PartialEq, Eq, Structural)]
pub enum RaftMessagePriority {
    /// Election messages (vote requests and their responses)
    Election,
    /// Heartbeats and their responses
    Heartbeat,
    /// Log append and every other message
    LogAppend,
    /// Snapshots (bulk transfer)
    Snapshot,
}

/// The priority of a message type, by its number in the protocol: vote
/// requests (5) and responses (6) are elections, heartbeats (8) and their
/// responses (9) are heartbeats, snapshots (7) are snapshots, and every other
/// type is a log append.
pub open spec fn priority_for_code(code: i32) -> RaftMessagePriority {
    if code == 5 || code == 6 {
        RaftMessagePriority::Election
    } else if code == 8 || code == 9 {
        RaftMessagePriority::Heartbeat
    } else if code == 7 {
        RaftMessagePriority::Snapshot
    } else {
        RaftMessagePriority::LogAppend
    }
}

/// The rank of a priority: 0 for the most urgent.
pub open spec fn priority_rank(p: RaftMessagePriority) -> u8 {
    match p {
        RaftMessagePriority::Election => 0,
        RaftMessagePriority::Heartbeat => 1,
        RaftMessagePriority::LogAppend => 2,
        RaftMessagePriority::Snapshot => 3,
    }
}

impl RaftMessagePriority {
    /// The priority of a message type, given by its number.
    pub fn from_type_code(code: i32) -> (r: Self)
        ensures
            r == priority_for_code(code),
    {
        if code == 5 || code == 6 {
            RaftMessagePriority::Election
        } else if code == 8 || code == 9 {
            RaftMessagePriority::Heartbeat
        } else if code == 7 {
            RaftMessagePriority::Snapshot
        } else {
            RaftMessagePriority::LogAppend
        }
    }

    /// The priority of a consensus message, by its type.
    pub fn from_raft_message(msg: &raft_proto::eraftpb::Message) -> (r: Self)
        ensures
            r == priority_for_code(crate::raft::messages::raft_message_type_code(*msg)),
    {
        let code = crate::raft::messages::message_kind(msg);
        RaftMessagePriority::from_type_code(code)
    }

    /// The rank of the priority: 0 for elections up to 3 for snapshots.
    pub fn as_u8(&self) -> (r: u8)
        ensures
            r == priority_rank(*self),
    {
        match self {
            RaftMessagePriority::Election => 0,
            RaftMessagePriority::Heartbeat => 1,
            RaftMessagePriority::LogAppend => 2,
            RaftMessagePriority::Snapshot => 3,
        }
    }
}

/// Elections outrank heartbeats, which outrank log appends, which outrank
/// snapshots.
pub proof fn lemma_priority_order()
    ensures
        priority_rank(RaftMessagePriority::Election) < priority_rank(RaftMessagePriority::Heartbeat),
        priority_rank(RaftMessagePriority::Heartbeat) < priority_rank(RaftMessagePriority::LogAppend),
        priority_rank(RaftMessagePriority::LogAppend) < priority_rank(RaftMessagePriority::Snapshot),
        forall|a: RaftMessagePriority, b: RaftMessagePriority| priority_rank(a) == priority_rank(b) ==> a == b,
{
}

/// How a message is sent.
#[derive(Debug, Clone, Copy, PartialEq, Eq, Structural)]
pub enum SendPlan {
    /// Try to send at once, buffering only when that fails
    Immediate,
    /// Buffer for the next batch
    Batch,
}

/// Decide how to send a message of the given priority: everything but
/// snapshots is tried at once; snapshots wait for the next batch.
pub fn send_plan(priority: RaftMessagePriority) -> (r: SendPlan)
    ensures
        r == (if priority == RaftMessagePriority::Snapshot { SendPlan::Batch } else { SendPlan::Immediate }),
{
    match priority {
        RaftMessagePriority::Snapshot => SendPlan::Batch,
        _ => SendPlan::Immediate,
    }
}

/// The error of a send attempted while the transport shuts down.
pub fn shutting_down_error() -> (r: RaftError)
    ensures
        r matches RaftError::Internal { message } && message@ == "Transport is shutting down"@,
{
    RaftError::Internal { message: String::from_str("Transport is shutting down") }
}

/// The name of a message type, by its number.
pub open spec fn msg_kind_name(code: i32) -> Seq<char> {
    if code == 0 { "MsgHup"@ }
    else if code == 1 { "MsgBeat"@ }
    else if code == 2 { "MsgPropose"@ }
    else if code == 3 { "MsgAppend"@ }
    else if code == 4 { "MsgAppendResponse"@ }
    else if code == 5 { "MsgRequestVote"@ }
    else if code == 6 { "MsgRequestVoteResponse"@ }
    else if code == 7 { "MsgSnapshot"@ }
    else if code == 8 { "MsgHeartbeat"@ }
    else if code == 9 { "MsgHeartbeatResponse"@ }
    else if code == 10 { "MsgUnreachable"@ }
    else if code == 11 { "MsgSnapStatus"@ }
    else if code == 12 { "MsgCheckQuorum"@ }
    else if code == 13 { "MsgTransferLeader"@ }
    else if code == 14 { "MsgTimeoutNow"@ }
    else if code == 15 { "MsgReadIndex"@ }
    else if code == 16 { "MsgReadIndexResp"@ }
    else if code == 17 { "MsgRequestPreVote"@ }
    else { "MsgRequestPreVoteResponse"@ }
}

fn msg_kind_text(code: i32) -> (r: &'static str)
    requires
        0 <= code <= 18,
    ensures
        r@ == msg_kind_name(code),
{
    proof {
        reveal_strlit("MsgHup");
        reveal_strlit("MsgBeat");
    }
    if code == 0 { "MsgHup" }
    else if code == 1 { "MsgBeat" }
    else if code == 2 { "MsgPropose" }
    else if code == 3 { "MsgAppend" }
    else if code == 4 { "MsgAppendResponse" }
    else if code == 5 { "MsgRequestVote" }
    else if code == 6 { "MsgRequestVoteResponse" }
    else if code == 7 { "MsgSnapshot" }
    else if code == 8 { "MsgHeartbeat" }
    else if code == 9 { "MsgHeartbeatResponse" }
    else if code == 10 { "MsgUnreachable" }
    else if code == 11 { "MsgSnapStatus" }
    else if code == 12 { "MsgCheckQuorum" }
    else if code == 13 { "MsgTransferLeader" }
    else if code == 14 { "MsgTimeoutNow" }
    else if code == 15 { "MsgReadIndex" }
    else if code == 16 { "MsgReadIndexResp" }
    else if code == 17 { "MsgRequestPreVote" }
    else { "MsgRequestPreVoteResponse" }
}

/// The counter label of a message type, by its number: "Raft_" and the
/// type's name.
pub fn message_label(code: i32) -> (r: String)
    requires
        0 <= code <= 18,
    ensures
        r@ == "Raft_"@ + msg_kind_name(code),
{
    let mut s = String::from_str("Raft_");
    s.append(msg_kind_text(code));
    s
}

/// Metrics of the transport.
#[derive(Debug, Clone, Copy, PartialEq, Eq, Structural)]
pub struct IrohRaftMetrics {
    /// Number of currently active peer connections
    pub active_connections: usize,
    /// Total number of messages sent since the transport started
    pub messages_sent: u64,
    /// Total number of messages received since the transport started
    pub messages_received: u64,
}

/// The sum of a list of counts.
pub open spec fn total(counts: Seq<u64>) -> int
    decreases counts.len(),
{
    if counts.len() == 0 { 0 } else { total(counts.drop_last()) + counts.last() }
}

proof fn lemma_total_prefix(counts: Seq<u64>, i: int)
    requires
        0 <= i < counts.len(),
    ensures
        total(counts.take(i + 1)) == total(counts.take(i)) + counts[i],
        0 <= total(counts.take(i)) <= total(counts.take(i + 1)),
{
    assert(counts.take(i + 1).drop_last() =~= counts.take(i));
    lemma_total_nonneg(counts.take(i));
}

proof fn lemma_total_nonneg(counts: Seq<u64>)
    ensures
        total(counts) >= 0,
    decreases counts.len(),
{
    if counts.len() > 0 {
        lemma_total_nonneg(counts.drop_last());
    }
}

proof fn lemma_total_monotone(counts: Seq<u64>, i: int)
    requires
        0 <= i <= counts.len(),
    ensures
        total(counts.take(i)) <= total(counts),
    decreases counts.len() - i,
{
    if i < counts.len() {
        lemma_total_prefix(counts, i);
        lemma_total_monotone(counts, i + 1);
    } else {
        assert(counts.take(i) =~= counts);
    }
}

fn sum_counts(counts: &Vec<u64>) -> (r: u64)
    requires
        total(counts@) <= u64::MAX,
    ensures
        r == total(counts@),
{
    let mut s: u64 = 0;
    let mut i: usize = 0;
    while i < counts.len()
        invariant
            i <= counts@.len(),
            s == total(counts@.take(i as int)),
            total(counts@) <= u64::MAX,
        decreases counts@.len() - i,
    {
        proof {
            lemma_total_prefix(counts@, i as int);
            lemma_total_monotone(counts@, i as int + 1);
        }
        s = s + counts[i];
        i = i + 1;
    }
    assert(counts@.take(counts@.len() as int) =~= counts@);
    s
}

/// The transport's metrics from its connection count and its per-type
/// message counts.
pub fn transport_metrics(active_connections: usize, sent_counts: &Vec<u64>, received_counts: &Vec<u64>) -> (r: IrohRaftMetrics)
    requires
        total(sent_counts@) <= u64::MAX,
        total(received_counts@) <= u64::MAX,
    ensures
        r.active_connections == active_connections,
        r.messages_sent == total(sent_counts@),
        r.messages_received == total(received_counts@),
{
    IrohRaftMetrics {
        active_connections,
        messages_sent: sum_counts(sent_counts),
        messages_received: sum_counts(received_counts),
    }
}


/// A connection idle for less than this is used again, in milliseconds.
pub const CONNECTION_REUSE_MS: u64 = 300_000;

/// How a connection to a peer is obtained.
#[derive(Debug, Clone, Copy, PartialEq, Eq, Structural)]
pub enum ConnectionPlan {
    /// Use the cached connection
    Reuse,
    /// Connect to the address the node registry holds
    RegistryAddress,
    /// Connect to the endpoint id (and addresses, relay) the peer announced
    PeerInfoAddress,
    /// Refuse: the peer is not known
    UnknownPeer,
    /// Refuse: the peer announced no endpoint id
    NoEndpointId,
}

/// The plan for a connection to a peer: a cached connection idle for less
/// than five minutes is used again; otherwise an unknown peer is refused,
/// the registry's address is used when it has one, then the endpoint id the
/// peer announced, and a peer without one is refused.
pub open spec fn connection_plan_spec(cached_idle_ms: Option<u64>, peer_known: bool, registry_has_addr: bool, peer_has_p2p_id: bool) -> ConnectionPlan {
    if cached_idle_ms matches Some(idle) && idle < CONNECTION_REUSE_MS {
        ConnectionPlan::Reuse
    } else if !peer_known {
        ConnectionPlan::UnknownPeer
    } else if registry_has_addr {
        ConnectionPlan::RegistryAddress
    } else if peer_has_p2p_id {
        ConnectionPlan::PeerInfoAddress
    } else {
        ConnectionPlan::NoEndpointId
    }
}

/// Decide how to obtain a connection to a peer.
pub fn connection_plan(cached_idle_ms: Option<u64>, peer_known: bool, registry_has_addr: bool, peer_has_p2p_id: bool) -> (r: ConnectionPlan)
    ensures
        r == connection_plan_spec(cached_idle_ms, peer_known, registry_has_addr, peer_has_p2p_id),
{
    match cached_idle_ms {
        Some(idle) => {
            if idle < CONNECTION_REUSE_MS {
                return ConnectionPlan::Reuse;
            }
        },
        None => {},
    }
    if !peer_known {
        ConnectionPlan::UnknownPeer
    } else if registry_has_addr {
        ConnectionPlan::RegistryAddress
    } else if peer_has_p2p_id {
        ConnectionPlan::PeerInfoAddress
    } else {
        ConnectionPlan::NoEndpointId
    }
}

/// The error of a refused connection: `Unknown peer N` or
/// `Peer N has no P2P node ID`.
pub fn connection_refusal(peer_id: u64, unknown: bool) -> (r: RaftError)
    ensures
        r matches RaftError::ClusterError { message } && message@ == (if unknown {
            "Unknown peer "@ + crate::text::decimal(peer_id as nat)
        } else {
            "Peer "@ + crate::text::decimal(peer_id as nat) + " has no P2P node ID"@
        }),
{
    let n = crate::text::u64_to_string(peer_id);
    if unknown {
        RaftError::ClusterError { message: crate::text::cat2("Unknown peer ", n.as_str()) }
    } else {
        RaftError::ClusterError { message: crate::text::cat3("Peer ", n.as_str(), " has no P2P node ID") }
    }
}

/// A consensus message waiting for its batch.
pub struct BufferedRaftMessage {
    /// The message
    pub message: raft_proto::eraftpb::Message,
    /// Its priority
    pub priority: RaftMessagePriority,
    /// When it was buffered, in milliseconds
    pub timestamp_ms: u64,
}

/// At most this many messages wait for one peer.
pub const MAX_BUFFERED: usize = 1000;

/// Where a message of a given rank goes: before the first waiting message
/// of a less urgent priority, or last.
pub open spec fn insert_position(q: Seq<BufferedRaftMessage>, rank: u8) -> int {
    if exists|k: int| 0 <= k < q.len() && #[trigger] priority_rank(q[k].priority) > rank {
        choose|k: int| 0 <= k < q.len() && #[trigger] priority_rank(q[k].priority) > rank
            && forall|j: int| 0 <= j < k ==> #[trigger] priority_rank(q[j].priority) <= rank
    } else {
        q.len() as int
    }
}

/// Buffer a message for its peer's next batch: it goes after the messages
/// at least as urgent, and the least urgent ones beyond the limit are
/// dropped from the back.
pub fn buffer_message(
    queue: &mut Vec<BufferedRaftMessage>,
    message: raft_proto::eraftpb::Message,
    priority: RaftMessagePriority,
    now_ms: u64,
)
    ensures
        ({
            let item = BufferedRaftMessage { message, priority, timestamp_ms: now_ms };
            let inserted = old(queue)@.insert(insert_position(old(queue)@, priority_rank(priority)), item);
            final(queue)@ == if inserted.len() > MAX_BUFFERED { inserted.take(MAX_BUFFERED as int) } else { inserted }
        }),
{
    let rank = priority.as_u8();
    let ghost q = queue@;
    let mut pos: usize = 0;
    while pos < queue.len() && queue[pos].priority.as_u8() <= rank
        invariant
            pos <= q.len(),
            queue@ == q,
            rank == priority_rank(priority),
            forall|j: int| 0 <= j < pos ==> #[trigger] priority_rank(q[j].priority) <= rank,
        decreases q.len() - pos,
    {
        pos = pos + 1;
    }
    proof {
        if pos < q.len() {
            assert(priority_rank(q[pos as int].priority) > rank);
            let w = choose|k: int| 0 <= k < q.len() && #[trigger] priority_rank(q[k].priority) > rank
                && forall|j: int| 0 <= j < k ==> #[trigger] priority_rank(q[j].priority) <= rank;
            if w < pos as int {
                assert(priority_rank(q[w].priority) <= rank);
            } else if w > pos as int {
                assert(priority_rank(q[pos as int].priority) <= rank);
            }
        } else {
            assert forall|k: int| 0 <= k < q.len() implies !(#[trigger] priority_rank(q[k].priority) > rank) by {
                assert(priority_rank(q[k].priority) <= rank);
            }
        }
    }
    queue.insert(pos, BufferedRaftMessage { message, priority, timestamp_ms: now_ms });
    if queue.len() > MAX_BUFFERED {
        queue.truncate(MAX_BUFFERED);
    }
}

/// Messages buffered longer than this are dropped unsent, in milliseconds.
pub const MESSAGE_MAX_AGE_MS: u64 = 30_000;

/// A batch sends at most this many messages to one peer.
pub const MAX_BATCH: usize = 100;

/// A message of this age is still sent.
pub open spec fn is_fresh(age_ms: u64) -> bool {
    age_ms <= MESSAGE_MAX_AGE_MS
}

/// The positions among the first `n` messages that are still fresh, in
/// order.
pub open spec fn fresh_positions(ages: Seq<u64>, n: int) -> Seq<usize>
    decreases n,
{
    if n <= 0 {
        Seq::empty()
    } else if is_fresh(ages[n - 1]) {
        fresh_positions(ages, n - 1).push((n - 1) as usize)
    } else {
        fresh_positions(ages, n - 1)
    }
}

/// What a batch does with the waiting messages of a peer.
pub struct BatchPlan {
    /// Positions of the messages to send, in order
    pub send: Vec<usize>,
    /// Number of messages taken from the front: those sent and the stale
    /// ones dropped among them
    pub consumed: usize,
}

/// Plan a batch for the messages of a peer, given their ages, front first:
/// messages are taken from the front; stale ones are dropped, fresh ones
/// sent, until a hundred are sent or none is left.  (A failed send puts its
/// message back at the front and ends the batch.)
pub fn batch_plan(ages_ms: &Vec<u64>) -> (r: BatchPlan)
    ensures
        r.consumed <= ages_ms@.len(),
        r.send@ == fresh_positions(ages_ms@, r.consumed as int),
        r.send@.len() == MAX_BATCH || r.consumed == ages_ms@.len(),
        r.send@.len() <= MAX_BATCH,
        forall|n: int| 0 <= n < r.consumed ==> #[trigger] fresh_positions(ages_ms@, n).len() < MAX_BATCH,
{
    let mut send: Vec<usize> = Vec::new();
    let mut i: usize = 0;
    while i < ages_ms.len() && send.len() < MAX_BATCH
        invariant
            i <= ages_ms@.len(),
            send@ == fresh_positions(ages_ms@, i as int),
            send@.len() <= MAX_BATCH,
            forall|n: int| 0 <= n < i ==> #[trigger] fresh_positions(ages_ms@, n).len() < MAX_BATCH,
        decreases ages_ms@.len() - i,
    {
        assert(fresh_positions(ages_ms@, i as int).len() < MAX_BATCH);
        if ages_ms[i] <= MESSAGE_MAX_AGE_MS {
            send.push(i);
        }
        i = i + 1;
    }
    BatchPlan { send, consumed: i }
}
} // verus!
