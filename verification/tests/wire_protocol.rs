use iroh_raft::error::RaftError;
use iroh_raft::raft::messages::{MessageRoute, MessageType as RaftKind};
use iroh_raft::transport::protocol::{
    check_header_length, check_payload_length, create_heartbeat_message, decode_frame, encode_frame,
    generate_request_id, header_length, is_heartbeat_message, next_chunk_size, should_stream_message, MessageType,
    ZeroCopyMessage,
};

#[test]
fn frames_round_trip() {
    let frame = encode_frame(&[9, 8, 7], &[1, 2]);
    assert_eq!(frame, vec![0, 0, 0, 3, 9, 8, 7, 1, 2]);
    assert_eq!(header_length(&frame[..4]), 3);
    let (h, p) = decode_frame(&frame).unwrap();
    assert_eq!(h, vec![9, 8, 7]);
    assert_eq!(p, vec![1, 2]);
}

#[test]
fn oversized_lengths_are_refused() {
    assert_eq!(check_header_length(256).unwrap(), 256);
    match check_header_length(257) {
        Err(RaftError::Internal { message }) => assert_eq!(message, "Header too large: 257 bytes (max 256)"),
        other => panic!("unexpected {:?}", other),
    }
    match check_payload_length(104_857_601) {
        Err(RaftError::Internal { message }) => assert_eq!(message, "Payload too large: 104857601 bytes"),
        other => panic!("unexpected {:?}", other),
    }
    assert!(decode_frame(&[0, 0]).is_err());
}

#[test]
fn message_sizes_and_streaming() {
    assert_eq!(ZeroCopyMessage::calculate_size(10), 46);
    let small = ZeroCopyMessage::new_owned(MessageType::Request, None, vec![0; 10]);
    assert_eq!(small.total_size, 46);
    assert!(!small.is_large_message());
    let big = ZeroCopyMessage::new_owned(MessageType::Request, None, vec![0; 70_000]);
    assert!(should_stream_message(&big));
    let beat = create_heartbeat_message();
    assert!(is_heartbeat_message(&beat));
    assert_eq!(beat.payload_len(), 0);
    assert_eq!(next_chunk_size(100_000), 32768);
    assert_eq!(next_chunk_size(10), 10);
}

#[test]
fn request_ids_are_random() {
    let a = generate_request_id();
    let b = generate_request_id();
    assert_ne!(a, b);
}

#[test]
fn routes_name_the_kind_of_message() {
    let r = MessageRoute::from_parts(1, 2, 5);
    assert_eq!(r.msg_type, RaftKind::Vote);
    assert_eq!(MessageRoute::from_parts(1, 2, 3).msg_type, RaftKind::Append);
    let mut msg = raft_proto::eraftpb::Message::default();
    msg.set_from(7);
    msg.set_to(9);
    msg.set_msg_type(raft_proto::eraftpb::MessageType::MsgSnapshot);
    let route = MessageRoute::from_message(&msg);
    assert_eq!(route.from, 7);
    assert_eq!(route.to, 9);
    assert_eq!(route.msg_type, RaftKind::Snapshot);
}
