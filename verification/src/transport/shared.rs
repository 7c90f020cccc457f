//! State the transport shares with the node: whether it runs, and what it
//! knows of each peer.

use vstd::prelude::*;
use vstd::string::StringExecFns;
use crate::text::decimal;

verus! {

/// What the transport knows of a peer.
#[derive(Clone, Debug)]
pub struct PeerInfo {
    /// Cluster node ID
    pub node_id: u64,
    /// Public key of the peer's endpoint
    pub public_key: [u8; 32],
    /// Optional network address
    pub address: Option<String>,
    /// Optional text form of the peer's endpoint id
    pub p2p_node_id: Option<String>,
    /// Network addresses of the peer's endpoint
    pub p2p_addresses: Vec<String>,
    /// Optional relay server URL for NAT traversal
    pub p2p_relay_url: Option<String>,
}

/// A registry entry: a cluster node and its endpoint id.
#[derive(Clone, Debug)]
pub struct NodeEntry {
    /// Cluster node ID
    pub cluster_node_id: u64,
    /// Endpoint id of the node, as text
    pub iroh_node_id: String,
}

/// State shared between the node and its transport.
pub struct SharedStateInner {
    /// Whether the node is running
    pub is_running: bool,
    /// What is known of each peer, one entry per node id
    pub peers: Vec<PeerInfo>,
}

/// The node ids of a list of peers.
pub open spec fn peer_ids(peers: Seq<PeerInfo>) -> Seq<u64> {
    peers.map_values(|p: PeerInfo| p.node_id)
}

/// The registry entry of a peer: its endpoint id when known, else its
/// cluster id in decimal.
pub open spec fn entry_of(p: PeerInfo, e: NodeEntry) -> bool {
    &&& e.cluster_node_id == p.node_id
    &&& e.iroh_node_id@ == (match p.p2p_node_id { Some(s) => s@, None => decimal(p.node_id as nat) })
}

impl SharedStateInner {
    /// The known peers, in the order they were first added.
    pub open spec fn peers(&self) -> Seq<PeerInfo> {
        self.peers@
    }

    /// Well-formed: one entry per node id.
    pub open spec fn wf(&self) -> bool {
        forall|i: int, j: int| 0 <= i < j < self.peers().len() ==> self.peers()[i].node_id != self.peers()[j].node_id
    }

    /// The position of a peer, if known.
    pub open spec fn position(&self, node_id: u64) -> Option<int> {
        if exists|i: int| 0 <= i < self.peers().len() && #[trigger] self.peers()[i].node_id == node_id {
            Some(choose|i: int| 0 <= i < self.peers().len() && #[trigger] self.peers()[i].node_id == node_id)
        } else {
            None
        }
    }

    /// A running node with no known peers.
    pub fn new() -> (r: Self)
        ensures
            r.wf(),
            r.is_running,
            r.peers().len() == 0,
    {
        SharedStateInner { is_running: true, peers: Vec::new() }
    }

    fn find(&self, node_id: u64) -> (r: Option<usize>)
        requires
            self.wf(),
        ensures
            match r {
                Some(i) => i < self.peers().len() && self.position(node_id) == Some(i as int),
                None => self.position(node_id) is None,
            },
    {
        let mut i: usize = 0;
        while i < self.peers.len()
            invariant
                i <= self.peers().len(),
                self.wf(),
                forall|k: int| 0 <= k < i ==> #[trigger] self.peers()[k].node_id != node_id,
            decreases self.peers().len() - i,
        {
            if self.peers[i].node_id == node_id {
                proof {
                    let w = choose|w: int| 0 <= w < self.peers().len() && #[trigger] self.peers()[w].node_id == node_id;
                    assert(w == i as int);
                }
                return Some(i);
            }
            i = i + 1;
        }
        None
    }

    /// What is known of a peer.
    pub fn get_peer(&self, peer_id: u64) -> (r: Option<&PeerInfo>)
        requires
            self.wf(),
        ensures
            match self.position(peer_id) {
                Some(i) => r == Some(&self.peers()[i]),
                None => r is None,
            },
    {
        match self.find(peer_id) {
            Some(i) => Some(&self.peers[i]),
            None => None,
        }
    }

    /// Add a peer, or replace what is known of it.
    pub fn add_peer(&mut self, peer_info: PeerInfo)
        requires
            old(self).wf(),
        ensures
            final(self).wf(),
            final(self).is_running == old(self).is_running,
            match old(self).position(peer_info.node_id) {
                Some(i) => final(self).peers() == old(self).peers().update(i, peer_info),
                None => final(self).peers() == old(self).peers().push(peer_info),
            },
    {
        let ghost p = peer_info;
        match self.find(peer_info.node_id) {
            Some(i) => {
                self.peers.set(i, peer_info);
            },
            None => {
                self.peers.push(peer_info);
                proof {
                    assert forall|a: int, b: int| 0 <= a < b < self.peers().len() implies self.peers()[a].node_id != self.peers()[b].node_id by {
                        if b == self.peers().len() - 1 {
                            assert(old(self).peers()[a].node_id != p.node_id);
                        }
                    }
                }
            },
        }
    }

    /// Forget a peer, returning what was known of it.
    pub fn remove_peer(&mut self, peer_id: u64) -> (r: Option<PeerInfo>)
        requires
            old(self).wf(),
        ensures
            final(self).wf(),
            final(self).is_running == old(self).is_running,
            match old(self).position(peer_id) {
                Some(i) => r == Some(old(self).peers()[i]) && final(self).peers() == old(self).peers().remove(i),
                None => r is None && final(self).peers() == old(self).peers(),
            },
    {
        match self.find(peer_id) {
            Some(i) => Some(self.peers.remove(i)),
            None => None,
        }
    }

    /// Record the endpoint id of a known node; unknown nodes are ignored.
    pub fn register_node(&mut self, cluster_id: u64, iroh_id: String)
        requires
            old(self).wf(),
        ensures
            final(self).wf(),
            final(self).is_running == old(self).is_running,
            match old(self).position(cluster_id) {
                Some(i) => final(self).peers() == old(self).peers().update(i, PeerInfo { p2p_node_id: Some(iroh_id), ..old(self).peers()[i] }),
                None => final(self).peers() == old(self).peers(),
            },
    {
        match self.find(cluster_id) {
            Some(i) => {
                let mut p = self.peers.remove(i);
                p.p2p_node_id = Some(iroh_id);
                self.peers.insert(i, p);
                assert(self.peers() =~= old(self).peers().update(i as int, PeerInfo { p2p_node_id: Some(iroh_id), ..old(self).peers()[i as int] }));
            },
            None => {},
        }
    }

    /// The registry entries of all known peers.
    pub fn list_nodes(&self) -> (r: Vec<NodeEntry>)
        ensures
            r@.len() == self.peers().len(),
            forall|i: int| 0 <= i < r@.len() ==> entry_of(self.peers()[i], #[trigger] r@[i]),
    {
        let mut out: Vec<NodeEntry> = Vec::new();
        let mut i: usize = 0;
        while i < self.peers.len()
            invariant
                i <= self.peers().len(),
                out@.len() == i,
                forall|k: int| 0 <= k < i ==> entry_of(self.peers()[k], #[trigger] out@[k]),
            decreases self.peers().len() - i,
        {
            let p = &self.peers[i];
            let id_text = match &p.p2p_node_id {
                Some(s) => s.clone(),
                None => crate::text::u64_to_string(p.node_id),
            };
            out.push(NodeEntry { cluster_node_id: p.node_id, iroh_node_id: id_text });
            i = i + 1;
        }
        out
    }
}

} // verus!
