use iroh_raft::management::protocol::{
    create_health_check_message, create_management_request, forward_failure_text, incoming_message,
    management_action, management_request, role_permits, should_stream_message, ForwardFailure,
    ManagementAction, PermissionTable, ZeroCopyManagementMessage, ZeroCopyManagementRequest,
};
use iroh_raft::management::{
    operation_target_node, operation_to_string, ManagementMessageType, ManagementOperation,
    ManagementPermissions, ManagementRole, MemberRole,
};
use iroh_raft::transport::protocol::{MessageHeader, MessageType};
use iroh_raft::error::RaftError;

fn add_member() -> ManagementOperation {
    ManagementOperation::AddMember { node_id: 4, address: "a".to_string(), role: MemberRole::Voter }
}

#[test]
fn operation_classification() {
    let ops = vec![
        ManagementOperation::GetClusterStatus,
        add_member(),
        ManagementOperation::RemoveMember { node_id: 2 },
        ManagementOperation::TransferLeadership { target_node: Some(3) },
        ManagementOperation::StepDown,
        ManagementOperation::GetHealthStatus,
        ManagementOperation::ListBackups,
        ManagementOperation::CompactLog { index: 9 },
    ];
    for op in &ops {
        assert_ne!(op.is_read_only(), op.requires_admin(), "{:?}", op);
    }
    assert_eq!(operation_to_string(&add_member()), "add_member");
    assert_eq!(operation_to_string(&ManagementOperation::GetLogEntries { start: 1, end: 2 }), "get_log_entries");
    assert_eq!(operation_target_node(&add_member()), Some(4));
    assert_eq!(operation_target_node(&ManagementOperation::TransferLeadership { target_node: None }), None);
    assert_eq!(operation_target_node(&ManagementOperation::StepDown), None);
}

#[test]
fn roles_grant_operations() {
    let status = ManagementOperation::GetClusterStatus;
    let config = ManagementOperation::GetConfiguration;
    let remove = ManagementOperation::RemoveMember { node_id: 2 };
    let step_down = ManagementOperation::StepDown;
    assert!(role_permits(Some(ManagementRole::Admin), &step_down));
    assert!(role_permits(Some(ManagementRole::Observer), &config));
    assert!(!role_permits(Some(ManagementRole::Observer), &remove));
    assert!(role_permits(Some(ManagementRole::MemberManager), &remove));
    assert!(role_permits(Some(ManagementRole::MemberManager), &add_member()));
    assert!(!role_permits(Some(ManagementRole::MemberManager), &step_down));
    assert!(role_permits(Some(ManagementRole::Monitor), &status));
    assert!(!role_permits(Some(ManagementRole::Monitor), &config));
    assert!(role_permits(None, &config));
    assert!(!role_permits(None, &remove));
}

#[test]
fn permission_table_replaces_a_nodes_role() {
    let mut t = PermissionTable::new();
    let remove = ManagementOperation::RemoveMember { node_id: 2 };
    assert!(!t.check_permission(1, &remove));
    t.add_permissions(ManagementPermissions { node_id: 1, role: ManagementRole::Admin, allowed_operations: vec![] });
    t.add_permissions(ManagementPermissions { node_id: 2, role: ManagementRole::Monitor, allowed_operations: vec![] });
    assert!(t.check_permission(1, &remove));
    assert!(!t.check_permission(2, &remove));
    t.add_permissions(ManagementPermissions { node_id: 1, role: ManagementRole::Observer, allowed_operations: vec![] });
    assert!(!t.check_permission(1, &remove));
    assert!(t.check_permission(1, &ManagementOperation::GetLogInfo));
}

#[test]
fn incoming_transport_messages_map_to_management_types() {
    let cases = [
        (MessageType::Request, ManagementMessageType::Request),
        (MessageType::Response, ManagementMessageType::Response),
        (MessageType::Error, ManagementMessageType::Error),
        (MessageType::Heartbeat, ManagementMessageType::HealthCheck),
        (MessageType::RaftMessage, ManagementMessageType::Error),
    ];
    for (t, expected) in cases {
        let h = MessageHeader { msg_type: t, request_id: Some([7u8; 16]), payload_len: 3 };
        let m = incoming_message(&h, vec![1, 2, 3]);
        assert_eq!(m.msg_type, expected);
        assert_eq!(m.request_id, Some([7u8; 16]));
        assert_eq!(m.total_size, 7);
        assert_eq!(m.payload_bytes(), &[1, 2, 3]);
        assert!(m.authorization.is_none());
    }
    assert_eq!(management_action(ManagementMessageType::Request), ManagementAction::ForwardRequest);
    assert_eq!(management_action(ManagementMessageType::Event), ManagementAction::Subscribe);
    assert_eq!(management_action(ManagementMessageType::HealthCheck), ManagementAction::AnswerHealthCheck);
    assert_eq!(management_action(ManagementMessageType::Response), ManagementAction::Ignore);
    assert_eq!(management_action(ManagementMessageType::Error), ManagementAction::Ignore);
}

#[test]
fn forwarding_failures_have_fixed_texts() {
    assert_eq!(forward_failure_text(ForwardFailure::ManagerUnavailable), "Cluster manager unavailable");
    assert_eq!(forward_failure_text(ForwardFailure::ReplyLost), "Response channel closed");
    assert_eq!(forward_failure_text(ForwardFailure::Timeout), "Management stream timeout");
}

#[test]
fn management_messages_and_requests() {
    let m = ZeroCopyManagementMessage::new_borrowed(ManagementMessageType::Event, None, &[9u8; 10], Some("tok".to_string()));
    assert_eq!(m.total_size, 4 + 64 + 10);
    assert_eq!(m.payload_len(), 10);
    assert!(!m.is_large_message());
    assert!(!should_stream_message(&m));
    let m = m.into_owned();
    assert_eq!(m.authorization.as_deref(), Some("tok"));
    let big = ZeroCopyManagementMessage::new_owned(ManagementMessageType::Request, None, vec![0u8; 65537], None);
    assert!(big.is_large_message());
    assert!(should_stream_message(&big));

    let r = create_management_request(add_member(), Some("a".to_string()), Ok(vec![1, 2])).unwrap();
    assert_eq!(r.msg_type, ManagementMessageType::Request);
    assert!(r.request_id.is_some());
    assert_eq!(r.payload, vec![1, 2]);
    assert_eq!(r.total_size, 70);
    match create_management_request(add_member(), None, Err("boom".to_string())) {
        Err(RaftError::Internal { message }) => assert_eq!(message, "Failed to serialize payload: boom"),
        other => panic!("unexpected {:?}", other.map(|m| m.total_size)),
    }
    let h = create_health_check_message();
    assert_eq!(h.msg_type, ManagementMessageType::HealthCheck);
    assert!(h.request_id.is_some());
    assert!(h.payload.is_empty());

    let req = management_request(&ManagementOperation::StepDown, &Some("x".to_string()));
    assert_eq!(req.timeout_ms, Some(30_000));
    assert_eq!(req.authorization.as_deref(), Some("x"));
    assert!(matches!(req.operation, ManagementOperation::StepDown));

    let z = ZeroCopyManagementRequest::new(ManagementOperation::ListBackups, &[1, 2, 3], Some(5), None);
    let s = z.to_standard();
    assert!(matches!(s.operation, ManagementOperation::ListBackups));
    assert_eq!(s.timeout_ms, Some(5));
    assert!(s.authorization.is_none());
}

#[test]
fn message_type_numbers_round_trip() {
    for t in [
        ManagementMessageType::Request,
        ManagementMessageType::Response,
        ManagementMessageType::Event,
        ManagementMessageType::HealthCheck,
        ManagementMessageType::Error,
    ] {
        let n: u8 = t.into();
        assert!(n <= 4);
        assert_eq!(ManagementMessageType::from(n), t);
    }
    assert_eq!(ManagementMessageType::from(200u8), ManagementMessageType::Error);
}
