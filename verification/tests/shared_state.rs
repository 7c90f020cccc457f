use iroh_raft::transport::shared::{PeerInfo, SharedStateInner};

fn peer(id: u64, addr: &str) -> PeerInfo {
    PeerInfo {
        node_id: id,
        public_key: [0u8; 32],
        address: Some(addr.to_string()),
        p2p_node_id: None,
        p2p_addresses: vec![],
        p2p_relay_url: None,
    }
}

#[test]
fn peers_are_kept_by_node_id() {
    let mut state = SharedStateInner::new();
    assert!(state.is_running);
    state.add_peer(peer(1, "a"));
    state.add_peer(peer(2, "b"));
    state.add_peer(peer(1, "c"));
    assert_eq!(state.peers.len(), 2);
    assert_eq!(state.get_peer(1).unwrap().address, Some("c".to_string()));
    assert!(state.remove_peer(2).is_some());
    assert!(state.remove_peer(2).is_none());
    state.register_node(5, "iroh-5".to_string());
    state.register_node(1, "iroh-1".to_string());
    let nodes = state.list_nodes();
    assert_eq!(nodes.len(), 1);
    assert!(nodes.iter().any(|n| n.cluster_node_id == 1 && n.iroh_node_id == "iroh-1"));
    assert!(!nodes.iter().any(|n| n.cluster_node_id == 5));
}

#[test]
fn node_without_endpoint_is_listed_by_number() {
    let mut state = SharedStateInner::new();
    state.add_peer(peer(42, "x"));
    let nodes = state.list_nodes();
    assert_eq!(nodes.len(), 1);
    assert_eq!(nodes[0].cluster_node_id, 42);
    assert_eq!(nodes[0].iroh_node_id, "42");
}
