use iroh_raft::transport::iroh::RaftMessagePriority;
use raft_proto::eraftpb::{Message, MessageType};

#[test]
fn test_message_priority() {
    let mut vote_msg = Message::default();
    vote_msg.set_msg_type(MessageType::MsgRequestVote);
    assert_eq!(RaftMessagePriority::from_raft_message(&vote_msg), RaftMessagePriority::Election);

    let mut heartbeat_msg = Message::default();
    heartbeat_msg.set_msg_type(MessageType::MsgHeartbeat);
    assert_eq!(RaftMessagePriority::from_raft_message(&heartbeat_msg), RaftMessagePriority::Heartbeat);

    let mut append_msg = Message::default();
    append_msg.set_msg_type(MessageType::MsgAppend);
    assert_eq!(RaftMessagePriority::from_raft_message(&append_msg), RaftMessagePriority::LogAppend);

    let mut snapshot_msg = Message::default();
    snapshot_msg.set_msg_type(MessageType::MsgSnapshot);
    assert_eq!(RaftMessagePriority::from_raft_message(&snapshot_msg), RaftMessagePriority::Snapshot);
}

#[test]
fn iroh_test_priority_ordering() {
    assert!(RaftMessagePriority::Election.as_u8() < RaftMessagePriority::Heartbeat.as_u8());
    assert!(RaftMessagePriority::Heartbeat.as_u8() < RaftMessagePriority::LogAppend.as_u8());
    assert!(RaftMessagePriority::LogAppend.as_u8() < RaftMessagePriority::Snapshot.as_u8());
}
