//! Messages of the simple transport, and a transport for tests that keeps
//! what it is asked to send.

use vstd::prelude::*;
use crate::error::RaftError;

verus! {

/// A message carried by the transport.
pub enum TransportMessage {
    /// Consensus message
    Raft {
        /// Source node ID
        from: u64,
        /// Consensus message
        message: raft_proto::eraftpb::Message,
    },
}

/// A transport for tests: sending a message only records it, in order.
pub struct MockTransport {
    node_id: u64,
    sent: Vec<raft_proto::eraftpb::Message>,
}

impl MockTransport {
    /// The messages sent so far, oldest first.
    pub closed spec fn sent(&self) -> Seq<raft_proto::eraftpb::Message> {
        self.sent@
    }

    /// The node the transport belongs to.
    pub closed spec fn node(&self) -> u64 {
        self.node_id
    }

    /// A transport for a node that has sent nothing.
    pub fn new(node_id: u64) -> (r: Self)
        ensures
            r.node() == node_id,
            r.sent().len() == 0,
    {
        MockTransport { node_id, sent: Vec::new() }
    }

    /// The node the transport belongs to.
    pub fn node_id(&self) -> (r: u64)
        ensures
            r == self.node(),
    {
        self.node_id
    }

    /// Send a message: it is recorded after the earlier ones.
    pub fn send_message(&mut self, message: raft_proto::eraftpb::Message) -> (r: Result<(), RaftError>)
        ensures
            r is Ok,
            final(self).sent() == old(self).sent().push(message),
            final(self).node() == old(self).node(),
    {
        self.sent.push(message);
        Ok(())
    }

    /// The messages sent so far, oldest first.
    pub fn sent_messages(&self) -> (r: &Vec<raft_proto::eraftpb::Message>)
        ensures
            r@ == self.sent(),
    {
        &self.sent
    }

    /// Forget the messages sent so far.
    pub fn clear_sent_messages(&mut self)
        ensures
            final(self).sent().len() == 0,
            final(self).node() == old(self).node(),
    {
        self.sent = Vec::new();
    }
}

} // verus!
