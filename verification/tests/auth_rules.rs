use iroh_raft::error::RaftError;
use iroh_raft::management::auth::{AuthManager, IrohAuth, Permission, ResourceRestriction, TimeRestriction};
use iroh_raft::management::{ManagementOperation, ManagementRole, MemberRole};

fn manager() -> AuthManager {
    let mut m = AuthManager::new();
    m.add_trusted_issuer(1);
    m
}

#[test]
fn removed_issuer_can_no_longer_issue() {
    let mut m = manager();
    assert!(m.issue_token_at(1_000, 5, "p".to_string(), ManagementRole::Admin, 1, Some(10)).is_ok());
    m.remove_trusted_issuer(1);
    assert!(m.issue_token_at(1_000, 6, "p".to_string(), ManagementRole::Admin, 1, Some(10)).is_err());
}

#[test]
fn tokens_are_revoked_listed_and_cleaned() {
    let mut m = manager();
    let a = m.issue_token_at(1_000, 5, "pa".to_string(), ManagementRole::Admin, 1, Some(1_000)).unwrap();
    assert_eq!(a.expires_at_ms, 2_000);
    m.issue_token_at(1_000, 6, "pb".to_string(), ManagementRole::Observer, 1, Some(5_000)).unwrap();
    m.issue_token_at(1_000, 7, "pc".to_string(), ManagementRole::Monitor, 1, Some(9_000)).unwrap();
    let ids: Vec<u64> = m.list_active_tokens().iter().map(|t| t.node_id).collect();
    assert_eq!(ids, vec![5, 6, 7]);
    assert_eq!(m.get_active_token(6).unwrap().peer_id, "pb");

    m.revoke_token(6);
    assert!(m.get_active_token(6).is_none());
    assert!(m.get_active_token(5).is_some());

    m.cleanup_expired_tokens_at(3_000);
    let ids: Vec<u64> = m.list_active_tokens().iter().map(|t| t.node_id).collect();
    assert_eq!(ids, vec![7]);
}

#[test]
fn reissuing_replaces_the_nodes_token() {
    let mut m = manager();
    m.issue_token_at(1_000, 5, "pa".to_string(), ManagementRole::Admin, 1, Some(1_000)).unwrap();
    m.issue_token_at(1_500, 5, "pa".to_string(), ManagementRole::Observer, 1, Some(1_000)).unwrap();
    assert_eq!(m.list_active_tokens().len(), 1);
    let t = m.get_active_token(5).unwrap();
    assert_eq!(t.role, ManagementRole::Observer);
    assert_eq!(t.expires_at_ms, 2_500);
}

#[test]
fn expired_token_is_denied() {
    let mut m = manager();
    let t = m.issue_token_at(1_000, 5, "pa".to_string(), ManagementRole::Admin, 1, Some(1_000)).unwrap();
    assert!(m.check_permission_at(&t, &ManagementOperation::StepDown, 1_500).is_ok());
    assert!(m.check_permission_at(&t, &ManagementOperation::StepDown, 2_500).is_err());
}

#[test]
fn role_permission_restrictions_apply() {
    let mut m = manager();
    m.update_role_permission(
        ManagementRole::MemberManager,
        Permission {
            allowed_operations: vec!["remove_member".to_string(), "get_cluster_status".to_string()],
            time_restrictions: Some(TimeRestriction { valid_from_ms: 1_000, valid_until_ms: 5_000, max_session_duration_ms: 0 }),
            resource_restrictions: Some(ResourceRestriction { allowed_nodes: vec![2, 3], denied_nodes: vec![3], operation_limits: vec![] }),
        },
    );
    let t = m.issue_token_at(1_000, 9, "pm".to_string(), ManagementRole::MemberManager, 1, Some(100_000)).unwrap();
    let remove = |n: u64| ManagementOperation::RemoveMember { node_id: n };
    assert!(m.check_permission_at(&t, &remove(2), 2_000).is_ok());
    assert!(m.check_permission_at(&t, &remove(4), 2_000).is_err());
    assert!(m.check_permission_at(&t, &remove(3), 2_000).is_err());
    assert!(m.check_permission_at(&t, &remove(2), 6_000).is_err());
    assert!(m.check_permission_at(&t, &ManagementOperation::GetClusterStatus, 2_000).is_ok());
    match m.check_permission_at(&t, &ManagementOperation::StepDown, 2_000) {
        Err(RaftError::AuthorizationDenied { operation, peer_id }) => {
            assert_eq!(operation, "step_down");
            assert_eq!(peer_id, "9");
        }
        other => panic!("unexpected {:?}", other),
    }
    let add = ManagementOperation::AddMember { node_id: 2, address: "x".to_string(), role: MemberRole::Voter };
    assert!(m.check_permission_at(&t, &add, 2_000).is_err());
}

#[test]
fn whitelist_decides_who_may_connect() {
    let mut m = manager();
    m.issue_token_at(1_000, 5, "peer-a".to_string(), ManagementRole::Admin, 1, Some(u64::MAX / 4)).unwrap();
    let mut auth = IrohAuth::new(m);
    assert!(auth.is_node_allowed(&"anyone".to_string()));
    auth.add_to_whitelist("peer-a".to_string());
    auth.add_to_whitelist("peer-a".to_string());
    auth.add_to_whitelist("peer-b".to_string());
    assert!(auth.is_node_allowed(&"peer-a".to_string()));
    assert!(!auth.is_node_allowed(&"peer-c".to_string()));

    match auth.authenticate_connection_at(&"peer-c".to_string(), 5, 2_000) {
        Err(RaftError::AuthorizationDenied { operation, peer_id }) => {
            assert_eq!(operation, "authenticate_connection");
            assert_eq!(peer_id, "peer-c");
        }
        other => panic!("unexpected {:?}", other),
    }
    let t = auth.authenticate_connection_at(&"peer-a".to_string(), 5, 2_000).unwrap().unwrap();
    assert_eq!(t.node_id, 5);
    assert!(auth.authenticate_connection_at(&"peer-b".to_string(), 5, 2_000).unwrap().is_none());
    assert!(auth.authenticate_connection_at(&"peer-a".to_string(), 6, 2_000).unwrap().is_none());

    auth.remove_from_whitelist(&"peer-a".to_string());
    assert!(!auth.is_node_allowed(&"peer-a".to_string()));
    assert!(auth.is_node_allowed(&"peer-b".to_string()));
}

#[test]
fn issuing_now_checks_the_issuer_first() {
    let mut m = AuthManager::new();
    match m.issue_token(5, "p".to_string(), ManagementRole::Admin, 9, Some(u64::MAX)) {
        Err(RaftError::AuthorizationDenied { operation, peer_id }) => {
            assert_eq!(operation, "issue_token");
            assert_eq!(peer_id, "9");
        }
        other => panic!("unexpected {:?}", other),
    }
    m.add_trusted_issuer(9);
    match m.issue_token(5, "p".to_string(), ManagementRole::Admin, 9, Some(u64::MAX)) {
        Err(RaftError::InvalidInput { parameter, message }) => {
            assert_eq!(parameter, "duration");
            assert_eq!(message, "token expiry out of range");
        }
        other => panic!("unexpected {:?}", other),
    }
    assert!(m.list_active_tokens().is_empty());
    let t = m.issue_token(5, "p".to_string(), ManagementRole::Admin, 9, Some(60_000)).unwrap();
    assert_eq!(m.get_active_token(5).unwrap().expires_at_ms, t.expires_at_ms);
    let auth = IrohAuth::new(m);
    assert!(auth.authenticate_connection(&"p".to_string(), 5).unwrap().is_some());
    assert!(auth.authenticate_connection(&"q".to_string(), 5).unwrap().is_none());
}
