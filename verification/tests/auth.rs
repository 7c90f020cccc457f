use iroh_raft::management::auth::AuthManager;
use iroh_raft::management::{ManagementOperation, ManagementRole, MemberRole};

const PEER: &str = "k51qzi5uqu5dk5k12mcq2c8nnfa4cvz5hv0xlwxsltwf8q1vz6q3zlj4e8b40n6n1";

#[test]
fn test_auth_manager_creation() {
    let auth_manager = AuthManager::new();

    assert!(auth_manager.get_role_permission(&ManagementRole::Admin).is_some());
    assert!(auth_manager.get_role_permission(&ManagementRole::Observer).is_some());
    assert!(auth_manager.get_role_permission(&ManagementRole::MemberManager).is_some());
    assert!(auth_manager.get_role_permission(&ManagementRole::Monitor).is_some());
}

#[test]
fn test_token_issuance_and_validation() {
    let mut auth_manager = AuthManager::new();
    auth_manager.add_trusted_issuer(1);

    let token = auth_manager
        .issue_token(100, PEER.to_string(), ManagementRole::Admin, 1, Some(3600 * 1000))
        .unwrap();

    assert!(auth_manager.validate_token(&token).is_ok());

    let operation = ManagementOperation::GetClusterStatus;
    assert!(auth_manager.check_permission(&token, &operation).is_ok());
}

#[test]
fn test_permission_checking() {
    let mut auth_manager = AuthManager::new();
    auth_manager.add_trusted_issuer(1);

    let observer_token = auth_manager
        .issue_token(200, PEER.to_string(), ManagementRole::Observer, 1, Some(3600 * 1000))
        .unwrap();

    let read_operation = ManagementOperation::GetClusterStatus;
    assert!(auth_manager.check_permission(&observer_token, &read_operation).is_ok());

    let write_operation = ManagementOperation::AddMember {
        node_id: 999,
        address: "test".to_string(),
        role: MemberRole::Voter,
    };
    assert!(auth_manager.check_permission(&observer_token, &write_operation).is_err());
}

#[test]
fn test_token_expiration() {
    let mut auth_manager = AuthManager::new();
    auth_manager.add_trusted_issuer(1);

    let mut token = auth_manager
        .issue_token_at(1_000_000, 300, PEER.to_string(), ManagementRole::Admin, 1, Some(0))
        .unwrap();

    token.expires_at_ms = 1_000_000 - 1000;

    assert!(auth_manager.validate_token_at(&token, 1_000_010).is_err());
}

#[test]
fn untrusted_issuer_is_refused() {
    let mut auth_manager = AuthManager::new();
    let r = auth_manager.issue_token_at(1_000, 5, PEER.to_string(), ManagementRole::Admin, 7, Some(10));
    assert!(r.is_err());
}
