//! The state and the answers of the connection-pool and node-status actors.
//!
//! The pool actor owns a table of connections by peer id, each with the time
//! of its last activity, and answers commands one at a time; a connection
//! idle for more than five minutes is stale.  The status actor keeps the
//! status of its node and applies updates one at a time.  Running the actor's mailbox and
//! waiting for its replies belong to the caller: here each command is a step
//! on the actor's state, and each way a request can fail has its error.

use vstd::prelude::*;
use vstd::string::StringExecFns;
use crate::error::RaftError;
use crate::lock_free::{LockFreeConnectionPool, is_stale, pool_keys};

verus! {

/// Idle time after which a connection is stale, in milliseconds.
pub const STALE_TIMEOUT_MS: u64 = 300_000;

/// Time a handle waits for the actor's reply, in milliseconds.
pub const REPLY_TIMEOUT_MS: u64 = 100;

/// Connection pool metrics.
#[derive(Debug, Clone, Copy, PartialEq, Eq, Structural)]
pub struct ConnectionPoolMetrics {
    /// Connections in the pool
    pub active_connections: usize,
    /// Connections added
    pub total_created: u64,
    /// Connections removed on request
    pub total_removed: u64,
    /// Connections dropped as stale
    pub health_check_failures: u64,
}

/// The state of the connection-pool actor.
pub struct ConnectionPoolState<C> {
    pool: LockFreeConnectionPool<C>,
    total_created: u64,
    total_removed: u64,
    health_check_failures: u64,
}

impl<C> ConnectionPoolState<C> {
    /// The (peer id, connection, last activity) entries.
    pub closed spec fn entries(&self) -> Seq<(u64, C, u64)> {
        self.pool.entries()
    }

    /// The counters: added, removed on request, dropped as stale.
    pub closed spec fn counters(&self) -> (u64, u64, u64) {
        (self.total_created, self.total_removed, self.health_check_failures)
    }

    /// Each peer id occurs once, and stale means idle for five minutes.
    pub closed spec fn wf(&self) -> bool {
        self.pool.wf() && self.pool.timeout() == STALE_TIMEOUT_MS
    }

    /// The position of a peer id, if present.
    pub open spec fn position(&self, peer_id: u64) -> Option<int> {
        if exists|i: int| 0 <= i < self.entries().len() && #[trigger] self.entries()[i].0 == peer_id {
            Some(choose|i: int| 0 <= i < self.entries().len() && #[trigger] self.entries()[i].0 == peer_id)
        } else {
            None
        }
    }

    /// The metrics the actor reports.
    pub open spec fn metrics_view(&self) -> ConnectionPoolMetrics {
        ConnectionPoolMetrics {
            active_connections: self.entries().len() as usize,
            total_created: self.counters().0,
            total_removed: self.counters().1,
            health_check_failures: self.counters().2,
        }
    }

    /// An actor with no connection and zero counters.
    pub fn new() -> (r: Self)
        ensures
            r.wf(),
            r.entries().len() == 0,
            r.counters() == (0u64, 0u64, 0u64),
    {
        ConnectionPoolState {
            pool: LockFreeConnectionPool::new(STALE_TIMEOUT_MS),
            total_created: 0,
            total_removed: 0,
            health_check_failures: 0,
        }
    }

    /// The connection of a peer.
    pub fn get_connection(&self, peer_id: u64) -> (r: Option<&C>)
        requires
            self.wf(),
        ensures
            match self.position(peer_id) {
                Some(i) => r == Some(&self.entries()[i].1),
                None => r is None,
            },
    {
        proof {
            assert(self.position(peer_id) == self.pool.position(peer_id));
        }
        match self.pool.get(peer_id) {
            Some((c, _)) => Some(c),
            None => None,
        }
    }

    /// Add the connection of a peer, active at `now_ms`, in place of any it
    /// had; every addition is counted.
    pub fn add_connection(&mut self, peer_id: u64, connection: C, now_ms: u64)
        requires
            old(self).wf(),
            old(self).counters().0 < u64::MAX,
        ensures
            final(self).wf(),
            match old(self).position(peer_id) {
                Some(i) => final(self).entries() == old(self).entries().update(i, (peer_id, connection, now_ms)),
                None => final(self).entries() == old(self).entries().push((peer_id, connection, now_ms)),
            },
            final(self).counters() == (
                (old(self).counters().0 + 1) as u64,
                old(self).counters().1,
                old(self).counters().2,
            ),
    {
        proof {
            assert(old(self).entries() == old(self).pool.entries());
            assert(old(self).position(peer_id) == old(self).pool.position(peer_id));
        }
        let _ = self.pool.insert(peer_id, connection, now_ms);
        self.total_created = self.total_created + 1;
    }

    /// Remove the connection of a peer; a removal is counted when there was
    /// one.
    pub fn remove_connection(&mut self, peer_id: u64) -> (r: Option<C>)
        requires
            old(self).wf(),
            old(self).counters().1 < u64::MAX,
        ensures
            final(self).wf(),
            match old(self).position(peer_id) {
                Some(i) => r == Some(old(self).entries()[i].1)
                    && final(self).entries() == old(self).entries().remove(i)
                    && final(self).counters() == (
                        old(self).counters().0,
                        (old(self).counters().1 + 1) as u64,
                        old(self).counters().2,
                    ),
                None => r is None && final(self).entries() == old(self).entries()
                    && final(self).counters() == old(self).counters(),
            },
    {
        proof {
            assert(old(self).entries() == old(self).pool.entries());
            assert(old(self).position(peer_id) == old(self).pool.position(peer_id));
        }
        let removed = self.pool.remove(peer_id);
        match removed {
            Some(c) => {
                self.total_removed = self.total_removed + 1;
                Some(c)
            },
            None => None,
        }
    }

    /// The peer ids of the stale connections at `now_ms`, in table order.
    pub fn get_stale_connections(&self, now_ms: u64) -> (r: Vec<u64>)
        requires
            self.wf(),
        ensures
            r@ == pool_keys(self.entries().filter(|e: (u64, C, u64)| is_stale(e.2, now_ms, STALE_TIMEOUT_MS))),
    {
        let ghost gone = |e: (u64, C, u64)| is_stale(e.2, now_ms, STALE_TIMEOUT_MS);
        let ghost all = self.entries();
        let mut out: Vec<u64> = Vec::new();
        let mut i: usize = 0;
        let n = self.pool.len();
        while i < n
            invariant
                self.wf(),
                n == all.len(),
                all == self.entries(),
                i <= n,
                gone == (|e: (u64, C, u64)| is_stale(e.2, now_ms, STALE_TIMEOUT_MS)),
                out@ == pool_keys(all.take(i as int).filter(gone)),
            decreases n - i,
        {
            proof { crate::seqs::lemma_filter_take_step(all, gone, i as int); }
            let (key, last) = self.pool.entry_at(i);
            if now_ms >= last && now_ms - last > STALE_TIMEOUT_MS {
                out.push(key);
                assert(out@ =~= pool_keys(all.take(i as int + 1).filter(gone)));
            } else {
                assert(pool_keys(all.take(i as int + 1).filter(gone)) =~= pool_keys(all.take(i as int).filter(gone)));
            }
            i = i + 1;
        }
        proof { crate::seqs::lemma_take_all(all); }
        out
    }

    /// Drop the stale connections at `now_ms`, counting each as a failed
    /// health check.
    pub fn perform_health_check(&mut self, now_ms: u64)
        requires
            old(self).wf(),
            old(self).counters().2 + old(self).entries().len() <= u64::MAX,
        ensures
            final(self).wf(),
            final(self).entries() == old(self).entries().filter(
                |e: (u64, C, u64)| !is_stale(e.2, now_ms, STALE_TIMEOUT_MS),
            ),
            final(self).counters().0 == old(self).counters().0,
            final(self).counters().1 == old(self).counters().1,
            final(self).counters().2 == old(self).counters().2 + old(self).entries().filter(
                |e: (u64, C, u64)| is_stale(e.2, now_ms, STALE_TIMEOUT_MS),
            ).len(),
    {
        let stale = self.pool.cleanup_stale(now_ms);
        proof {
            let gone = |e: (u64, C, u64)| is_stale(e.2, now_ms, STALE_TIMEOUT_MS);
            old(self).entries().lemma_filter_len(gone);
        }
        let n = stale.len() as u64;
        self.health_check_failures = self.health_check_failures + n;
    }

    /// The metrics of the pool.
    pub fn get_metrics(&self) -> (r: ConnectionPoolMetrics)
        ensures
            r == self.metrics_view(),
    {
        ConnectionPoolMetrics {
            active_connections: self.pool.len(),
            total_created: self.total_created,
            total_removed: self.total_removed,
            health_check_failures: self.health_check_failures,
        }
    }
}

/// A request a handle sends to the actor.
#[derive(Debug, Clone, Copy, PartialEq, Eq, Structural)]
pub enum PoolRequest {
    /// Get a connection
    GetConnection,
    /// Add a connection
    AddConnection,
    /// Remove a connection
    RemoveConnection,
    /// Get the metrics
    GetMetrics,
}

/// How a request to the actor failed.
#[derive(Debug, Clone, Copy, PartialEq, Eq, Structural)]
pub enum RequestFailure {
    /// The actor no longer takes requests
    ActorClosed,
    /// No reply came within the reply timeout
    TimedOut,
    /// The actor dropped the reply
    ReplyDropped,
}

/// The name of a request in timeout errors.
pub open spec fn request_name(r: PoolRequest) -> Seq<char> {
    match r {
        PoolRequest::GetConnection => "get connection"@,
        PoolRequest::AddConnection => "add connection"@,
        PoolRequest::RemoveConnection => "remove connection"@,
        PoolRequest::GetMetrics => "get connection metrics"@,
    }
}

/// The message when the reply to a request was dropped.
pub open spec fn dropped_reply_message(r: PoolRequest) -> Seq<char> {
    match r {
        PoolRequest::GetConnection => "Get connection response channel closed"@,
        PoolRequest::AddConnection => "Add connection response channel closed"@,
        PoolRequest::RemoveConnection => "Remove connection response channel closed"@,
        PoolRequest::GetMetrics => "Get metrics response channel closed"@,
    }
}

/// The error of a failed request: an internal error when the actor is
/// closed or dropped the reply, a timeout of 100 ms naming the request
/// otherwise.
pub fn request_error(request: PoolRequest, failure: RequestFailure) -> (r: RaftError)
    ensures
        match failure {
            RequestFailure::ActorClosed => r matches RaftError::Internal { message }
                && message@ == "Connection pool actor is closed"@,
            RequestFailure::TimedOut => r matches RaftError::Timeout { operation, duration_ms }
                && operation@ == request_name(request) && duration_ms == REPLY_TIMEOUT_MS,
            RequestFailure::ReplyDropped => r matches RaftError::Internal { message }
                && message@ == dropped_reply_message(request),
        },
{
    match failure {
        RequestFailure::ActorClosed => RaftError::Internal {
            message: String::from_str("Connection pool actor is closed"),
        },
        RequestFailure::TimedOut => {
            let name = match request {
                PoolRequest::GetConnection => "get connection",
                PoolRequest::AddConnection => "add connection",
                PoolRequest::RemoveConnection => "remove connection",
                PoolRequest::GetMetrics => "get connection metrics",
            };
            RaftError::Timeout { operation: String::from_str(name), duration_ms: REPLY_TIMEOUT_MS }
        },
        RequestFailure::ReplyDropped => {
            let message = match request {
                PoolRequest::GetConnection => "Get connection response channel closed",
                PoolRequest::AddConnection => "Add connection response channel closed",
                PoolRequest::RemoveConnection => "Remove connection response channel closed",
                PoolRequest::GetMetrics => "Get metrics response channel closed",
            };
            RaftError::Internal { message: String::from_str(message) }
        },
    }
}

/// Role of a node in the consensus group.
#[derive(Debug, Clone, Copy, PartialEq, Eq, Structural)]
pub enum NodeRole {
    /// Follows a leader
    Follower,
    /// Campaigns for leadership
    Candidate,
    /// Leads the group
    Leader,
}

/// Status of a node, as the status actor keeps it.
#[derive(Debug, Clone)]
pub struct NodeStatus {
    /// The node
    pub node_id: u64,
    /// Its role
    pub role: NodeRole,
    /// Its current term
    pub term: u64,
    /// The leader it knows of
    pub leader_id: Option<u64>,
    /// Index of its last log entry
    pub last_log_index: u64,
    /// Index of its last committed entry
    pub committed_index: u64,
    /// Index of its last applied entry
    pub applied_index: u64,
    /// Peers it is connected to
    pub connected_peers: Vec<u64>,
    /// Seconds since it started
    pub uptime_seconds: u64,
}

/// An update the status actor applies.
#[derive(Debug, Clone)]
pub enum StatusUpdate {
    /// Replace the whole status
    Replace(NodeStatus),
    /// Set the role, term and leader
    Role { role: NodeRole, term: u64, leader_id: Option<u64> },
    /// Set the log indexes
    Indexes { last_log_index: u64, committed_index: u64, applied_index: u64 },
}

/// The status after an update: a replacement takes the new status whole;
/// a role update sets the role, term and leader; an index update sets the
/// three indexes; everything else is kept.
pub open spec fn updated_status(s: NodeStatus, u: StatusUpdate) -> NodeStatus {
    match u {
        StatusUpdate::Replace(n) => n,
        StatusUpdate::Role { role, term, leader_id } => NodeStatus { role, term, leader_id, ..s },
        StatusUpdate::Indexes { last_log_index, committed_index, applied_index } => NodeStatus {
            last_log_index,
            committed_index,
            applied_index,
            ..s
        },
    }
}

/// The state of the node-status actor.
pub struct NodeStatusState {
    /// The status kept
    pub status: NodeStatus,
}

impl NodeStatusState {
    /// An actor keeping an initial status.
    pub fn new(initial_status: NodeStatus) -> (r: Self)
        ensures
            r.status == initial_status,
    {
        NodeStatusState { status: initial_status }
    }

    /// Apply an update.
    pub fn apply(&mut self, update: StatusUpdate)
        ensures
            final(self).status == updated_status(old(self).status, update),
    {
        match update {
            StatusUpdate::Replace(n) => {
                self.status = n;
            },
            StatusUpdate::Role { role, term, leader_id } => {
                self.status.role = role;
                self.status.term = term;
                self.status.leader_id = leader_id;
            },
            StatusUpdate::Indexes { last_log_index, committed_index, applied_index } => {
                self.status.last_log_index = last_log_index;
                self.status.committed_index = committed_index;
                self.status.applied_index = applied_index;
            },
        }
    }

    /// The status kept.
    pub fn get_status(&self) -> (r: &NodeStatus)
        ensures
            *r == self.status,
    {
        &self.status
    }
}

/// A request to the status actor.
#[derive(Debug, Clone, Copy, PartialEq, Eq, Structural)]
pub enum StatusRequest {
    /// Get the status
    GetStatus,
    /// Replace the status
    UpdateStatus,
    /// Update the role
    UpdateRole,
    /// Update the indexes
    UpdateIndexes,
}

/// The name of a status request in timeout errors.
pub open spec fn status_request_name(r: StatusRequest) -> Seq<char> {
    match r {
        StatusRequest::GetStatus => "get node status"@,
        StatusRequest::UpdateStatus => "update node status"@,
        StatusRequest::UpdateRole => "update node role"@,
        StatusRequest::UpdateIndexes => "update node indexes"@,
    }
}

/// The message when the reply to a status request was dropped.
pub open spec fn status_dropped_message(r: StatusRequest) -> Seq<char> {
    match r {
        StatusRequest::GetStatus => "Node status response channel closed"@,
        StatusRequest::UpdateStatus => "Node status response channel closed"@,
        StatusRequest::UpdateRole => "Node role response channel closed"@,
        StatusRequest::UpdateIndexes => "Node indexes response channel closed"@,
    }
}

/// The error of a failed status request: an internal error when the actor
/// is closed or dropped the reply, a timeout of 100 ms naming the request
/// otherwise.
pub fn status_request_error(request: StatusRequest, failure: RequestFailure) -> (r: RaftError)
    ensures
        match failure {
            RequestFailure::ActorClosed => r matches RaftError::Internal { message }
                && message@ == "Node status actor is closed"@,
            RequestFailure::TimedOut => r matches RaftError::Timeout { operation, duration_ms }
                && operation@ == status_request_name(request) && duration_ms == REPLY_TIMEOUT_MS,
            RequestFailure::ReplyDropped => r matches RaftError::Internal { message }
                && message@ == status_dropped_message(request),
        },
{
    match failure {
        RequestFailure::ActorClosed => RaftError::Internal { message: String::from_str("Node status actor is closed") },
        RequestFailure::TimedOut => {
            let name = match request {
                StatusRequest::GetStatus => "get node status",
                StatusRequest::UpdateStatus => "update node status",
                StatusRequest::UpdateRole => "update node role",
                StatusRequest::UpdateIndexes => "update node indexes",
            };
            RaftError::Timeout { operation: String::from_str(name), duration_ms: REPLY_TIMEOUT_MS }
        },
        RequestFailure::ReplyDropped => {
            let message = match request {
                StatusRequest::GetStatus => "Node status response channel closed",
                StatusRequest::UpdateStatus => "Node status response channel closed",
                StatusRequest::UpdateRole => "Node role response channel closed",
                StatusRequest::UpdateIndexes => "Node indexes response channel closed",
            };
            RaftError::Internal { message: String::from_str(message) }
        },
    }
}

} // verus!
