//! Summaries of a test cluster's state: whether it has a leader and a
//! majority of active nodes.

use vstd::prelude::*;

verus! {

/// Status of one node of a test cluster.
#[derive(Debug, Clone, Copy, PartialEq, Eq, Structural)]
pub struct NodeStatus {
    /// The node
    pub node_id: u64,
    /// Whether it runs
    pub is_running: bool,
    /// Whether it leads
    pub is_leader: bool,
    /// Whether it is cut off from the others
    pub is_isolated: bool,
    /// Its current term
    pub current_term: u64,
    /// How many entries it has committed
    pub committed_entries_count: usize,
}

/// Status of a test cluster.
#[derive(Debug, Clone)]
pub struct ClusterStatus {
    /// Number of nodes
    pub total_nodes: usize,
    /// Number of running nodes that are not isolated
    pub active_nodes: usize,
    /// The leader, if any
    pub leader_id: Option<u64>,
    /// Status of each node, by node id
    pub nodes: Vec<(u64, NodeStatus)>,
}

impl ClusterStatus {
    /// Whether the cluster has a leader.
    pub fn has_leader(&self) -> (r: bool)
        ensures
            r == self.leader_id is Some,
    {
        self.leader_id.is_some()
    }

    /// Whether more than half of the nodes are active.
    pub fn has_majority(&self) -> (r: bool)
        ensures
            r == (self.active_nodes > self.total_nodes / 2),
    {
        self.active_nodes > self.total_nodes / 2
    }

    /// The status of the leader, when there is one and its status is known
    /// (the first entry for it).
    pub fn leader_status(&self) -> (r: Option<&NodeStatus>)
        ensures
            match self.leader_id {
                None => r is None,
                Some(id) => match r {
                    Some(s) => exists|i: int| 0 <= i < self.nodes@.len() && self.nodes@[i].0 == id
                        && self.nodes@[i].1 == *s
                        && forall|k: int| 0 <= k < i ==> #[trigger] self.nodes@[k].0 != id,
                    None => forall|i: int| 0 <= i < self.nodes@.len() ==> #[trigger] self.nodes@[i].0 != id,
                },
            },
    {
        match self.leader_id {
            None => None,
            Some(id) => {
                let mut i: usize = 0;
                while i < self.nodes.len()
                    invariant
                        i <= self.nodes@.len(),
                        self.leader_id == Some(id),
                        forall|k: int| 0 <= k < i ==> #[trigger] self.nodes@[k].0 != id,
                    decreases self.nodes@.len() - i,
                {
                    if self.nodes[i].0 == id {
                        return Some(&self.nodes[i].1);
                    }
                    i = i + 1;
                }
                None
            },
        }
    }
}

} // verus!
