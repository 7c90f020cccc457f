use iroh_raft::error::RaftError;
use iroh_raft::raft::messages::{MessageRoute, MessageType as RaftKind};
use iroh_raft::transport::iroh::{
    batch_plan, buffer_message, connection_plan, connection_refusal, message_label, send_plan, shutting_down_error,
    BufferedRaftMessage, ConnectionPlan, RaftMessagePriority, SendPlan, MAX_BUFFERED,
};
use iroh_raft::transport::protocol::{
    dispatch, is_raft_rpc, rpc_response, Dispatch, MessageType, RpcRequest, ZeroCopyMessage, ZeroCopyRpcRequest,
};
use iroh_raft::transport::simple::MockTransport;
use raft_proto::eraftpb::{Message, MessageType as ProtoType};

#[test]
fn priorities_by_type_number() {
    assert_eq!(RaftMessagePriority::from_type_code(5), RaftMessagePriority::Election);
    assert_eq!(RaftMessagePriority::from_type_code(6), RaftMessagePriority::Election);
    assert_eq!(RaftMessagePriority::from_type_code(8), RaftMessagePriority::Heartbeat);
    assert_eq!(RaftMessagePriority::from_type_code(9), RaftMessagePriority::Heartbeat);
    assert_eq!(RaftMessagePriority::from_type_code(7), RaftMessagePriority::Snapshot);
    assert_eq!(RaftMessagePriority::from_type_code(3), RaftMessagePriority::LogAppend);
    assert_eq!(RaftMessagePriority::from_type_code(13), RaftMessagePriority::LogAppend);
    assert_eq!(send_plan(RaftMessagePriority::Snapshot), SendPlan::Batch);
    assert_eq!(send_plan(RaftMessagePriority::Election), SendPlan::Immediate);
    assert_eq!(send_plan(RaftMessagePriority::LogAppend), SendPlan::Immediate);
}

#[test]
fn message_labels_name_the_type() {
    assert_eq!(message_label(0), "Raft_MsgHup");
    assert_eq!(message_label(3), "Raft_MsgAppend");
    assert_eq!(message_label(8), "Raft_MsgHeartbeat");
    let all = [
        ProtoType::MsgHup, ProtoType::MsgBeat, ProtoType::MsgPropose, ProtoType::MsgAppend,
        ProtoType::MsgAppendResponse, ProtoType::MsgRequestVote, ProtoType::MsgRequestVoteResponse,
        ProtoType::MsgSnapshot, ProtoType::MsgHeartbeat, ProtoType::MsgHeartbeatResponse,
        ProtoType::MsgUnreachable, ProtoType::MsgSnapStatus, ProtoType::MsgCheckQuorum,
        ProtoType::MsgTransferLeader, ProtoType::MsgTimeoutNow, ProtoType::MsgReadIndex,
        ProtoType::MsgReadIndexResp, ProtoType::MsgRequestPreVote, ProtoType::MsgRequestPreVoteResponse,
    ];
    for (code, t) in all.iter().enumerate() {
        assert_eq!(message_label(code as i32), format!("Raft_{:?}", t));
    }
    match shutting_down_error() {
        RaftError::Internal { message } => assert_eq!(message, "Transport is shutting down"),
        other => panic!("unexpected {:?}", other),
    }
}

#[test]
fn routes_of_messages() {
    assert_eq!(RaftKind::from_type_code(0), RaftKind::Vote);
    assert_eq!(RaftKind::from_type_code(1), RaftKind::Heartbeat);
    assert_eq!(RaftKind::from_type_code(2), RaftKind::Append);
    assert_eq!(RaftKind::from_type_code(4), RaftKind::AppendResponse);
    assert_eq!(RaftKind::from_type_code(6), RaftKind::VoteResponse);
    assert_eq!(RaftKind::from_type_code(7), RaftKind::Snapshot);
    assert_eq!(RaftKind::from_type_code(9), RaftKind::HeartbeatResponse);
    assert_eq!(RaftKind::from_type_code(15), RaftKind::Heartbeat);
    let mut m = Message::default();
    m.set_msg_type(ProtoType::MsgRequestVoteResponse);
    m.from = 3;
    m.to = 4;
    let r = MessageRoute::from_message(&m);
    assert_eq!(r, MessageRoute::from_parts(3, 4, 6));
    assert_eq!(r.msg_type, RaftKind::VoteResponse);
}

#[test]
fn incoming_messages_are_dispatched_by_type() {
    assert_eq!(dispatch(MessageType::Request), Dispatch::Rpc);
    assert_eq!(dispatch(MessageType::RaftMessage), Dispatch::DirectRaft);
    assert_eq!(dispatch(MessageType::Heartbeat), Dispatch::Ignore);
    assert_eq!(dispatch(MessageType::Response), Dispatch::Ignore);
    assert_eq!(dispatch(MessageType::Error), Dispatch::Ignore);
}

#[test]
fn rpc_answers() {
    let raft = RpcRequest { service: "raft".to_string(), method: "raft.message".to_string(), payload: vec![] };
    assert!(is_raft_rpc(&raft));
    let ok = rpc_response(&raft, None);
    assert!(ok.success && ok.error.is_none() && ok.payload.is_none());
    let failed = rpc_response(&raft, Some("decode"));
    assert!(!failed.success);
    assert_eq!(failed.error.as_deref(), Some("Failed to process message: decode"));
    let other = RpcRequest { service: "kv".to_string(), method: "get".to_string(), payload: vec![1] };
    assert!(!is_raft_rpc(&other));
    let unknown = rpc_response(&other, None);
    assert!(!unknown.success);
    assert_eq!(unknown.error.as_deref(), Some("Unknown service/method: kv/get"));
}

#[test]
fn zero_copy_messages_and_requests() {
    let m = ZeroCopyMessage::new_borrowed(MessageType::Request, Some([1u8; 16]), &[5, 6, 7]);
    assert_eq!(m.payload_bytes(), &[5, 6, 7]);
    let h = m.header();
    assert_eq!(h.msg_type, MessageType::Request);
    assert_eq!(h.request_id, Some([1u8; 16]));
    assert_eq!(h.payload_len, 3);
    let m2 = m.clone().into_owned();
    assert_eq!(m2.payload, m.payload);
    assert_eq!(m2.total_size, m.total_size);

    let r = ZeroCopyRpcRequest::new_borrowed("raft", "raft.message", &[1, 2]);
    let s = r.to_standard();
    assert_eq!(s.service, "raft");
    assert_eq!(s.method, "raft.message");
    assert_eq!(s.payload, vec![1, 2]);
}

#[test]
fn test_mock_transport() {
    let mut transport = MockTransport::new(1);

    let mut message = Message::default();
    message.set_from(1);
    message.set_to(2);
    message.set_msg_type(ProtoType::MsgHeartbeat);

    transport.send_message(message.clone()).unwrap();

    let sent = transport.sent_messages();
    assert_eq!(sent.len(), 1);
    assert_eq!(sent[0].from, 1);
    assert_eq!(sent[0].to, 2);

    transport.clear_sent_messages();
    assert!(transport.sent_messages().is_empty());
    assert_eq!(transport.node_id(), 1);
}

#[test]
fn connection_plans_and_refusals() {
    assert_eq!(connection_plan(Some(1_000), false, false, false), ConnectionPlan::Reuse);
    assert_eq!(connection_plan(Some(300_000), false, true, true), ConnectionPlan::UnknownPeer);
    assert_eq!(connection_plan(None, true, true, true), ConnectionPlan::RegistryAddress);
    assert_eq!(connection_plan(None, true, false, true), ConnectionPlan::PeerInfoAddress);
    assert_eq!(connection_plan(Some(999_999), true, false, false), ConnectionPlan::NoEndpointId);
    match connection_refusal(4, true) {
        RaftError::ClusterError { message } => assert_eq!(message, "Unknown peer 4"),
        other => panic!("unexpected {:?}", other),
    }
    match connection_refusal(4, false) {
        RaftError::ClusterError { message } => assert_eq!(message, "Peer 4 has no P2P node ID"),
        other => panic!("unexpected {:?}", other),
    }
}

#[test]
fn buffered_messages_wait_in_priority_order() {
    let mut q: Vec<BufferedRaftMessage> = Vec::new();
    buffer_message(&mut q, Message::default(), RaftMessagePriority::LogAppend, 1);
    buffer_message(&mut q, Message::default(), RaftMessagePriority::Snapshot, 2);
    buffer_message(&mut q, Message::default(), RaftMessagePriority::Election, 3);
    buffer_message(&mut q, Message::default(), RaftMessagePriority::LogAppend, 4);
    let order: Vec<u64> = q.iter().map(|m| m.timestamp_ms).collect();
    assert_eq!(order, vec![3, 1, 4, 2]);
    for t in 0..(MAX_BUFFERED as u64) {
        buffer_message(&mut q, Message::default(), RaftMessagePriority::Heartbeat, 10 + t);
    }
    assert_eq!(q.len(), MAX_BUFFERED);
    assert_eq!(q[0].timestamp_ms, 3);
    assert!(q.iter().all(|m| m.priority != RaftMessagePriority::Snapshot));
}

#[test]
fn batches_drop_stale_messages_and_send_at_most_a_hundred() {
    let plan = batch_plan(&vec![10, 40_000, 30_000, 5]);
    assert_eq!(plan.send, vec![0, 2, 3]);
    assert_eq!(plan.consumed, 4);
    let ages: Vec<u64> = (0..150).map(|i| if i % 3 == 0 { 50_000 } else { 1 }).collect();
    let plan = batch_plan(&ages);
    assert_eq!(plan.send.len(), 100);
    assert_eq!(plan.consumed, 150);
    assert!(plan.send.iter().all(|&i| ages[i] <= 30_000));
}
