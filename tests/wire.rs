use supervisor::wire::{
    decode_message, encode_message, on_read, Message, MessageVariant, Received, WireError,
};

fn id_of(m: &Message) -> String {
    match &m.variant {
        MessageVariant::ProcessExited(id) => id.clone(),
    }
}

#[test]
fn encodes_short_id() {
    let m = Message::process_exited("A".to_string());
    assert_eq!(encode_message(&m), vec![0u8, 1, b'A']);
}

#[test]
fn round_trip_short_id() {
    let m = Message::process_exited("A".to_string());
    let bytes = encode_message(&m);
    let back = decode_message(&bytes).unwrap();
    assert_eq!(id_of(&back), "A");
}

#[test]
fn round_trip_with_trailing_bytes() {
    let m = Message::process_exited("worker-7".to_string());
    let mut bytes = encode_message(&m);
    bytes.extend_from_slice(&[9, 9, 9]);
    let back = decode_message(&bytes).unwrap();
    assert_eq!(id_of(&back), "worker-7");
}

#[test]
fn long_id_uses_two_byte_length() {
    let id = "x".repeat(300);
    let m = Message::process_exited(id.clone());
    let bytes = encode_message(&m);
    assert_eq!(&bytes[..4], &[0u8, 251, 44, 1]);
    assert_eq!(bytes.len(), 4 + 300);
    assert_eq!(id_of(&decode_message(&bytes).unwrap()), id);
}

#[test]
fn non_ascii_id_round_trips() {
    let m = Message::process_exited("tâche".to_string());
    let bytes = encode_message(&m);
    assert_eq!(bytes[1] as usize, "tâche".len());
    assert_eq!(id_of(&decode_message(&bytes).unwrap()), "tâche");
}

#[test]
fn unknown_tag_is_rejected() {
    let bytes = vec![1u8, 1, b'A'];
    assert!(matches!(decode_message(&bytes), Err(WireError::UnknownVariant(1))));
}

#[test]
fn truncated_frame_is_rejected() {
    let bytes = vec![0u8, 5, b'A'];
    assert!(matches!(decode_message(&bytes), Err(WireError::Malformed(_))));
}

#[test]
fn empty_frame_is_rejected() {
    assert!(matches!(decode_message(&[]), Err(WireError::Malformed(_))));
}

#[test]
fn read_of_a_frame_is_forwarded() {
    let mut buf = vec![0u8; 16];
    buf[..3].copy_from_slice(&[0, 1, b'A']);
    match on_read(&buf, Some(3)) {
        Received::Forward(m) => assert_eq!(id_of(&m), "A"),
        other => panic!("unexpected {other:?}"),
    }
}

#[test]
fn end_of_stream_or_failure_closes() {
    let buf = vec![0u8; 16];
    assert!(matches!(on_read(&buf, Some(0)), Received::Closed));
    assert!(matches!(on_read(&buf, None), Received::Closed));
}

#[test]
fn unreadable_frame_is_dropped() {
    let buf = vec![7u8, 1, b'A'];
    assert!(matches!(on_read(&buf, Some(3)), Received::Dropped(WireError::UnknownVariant(7))));
}

#[test]
fn huge_length_prefix_is_rejected() {
    let mut bytes = vec![0u8, 253];
    bytes.extend_from_slice(&[0xff; 8]);
    assert!(matches!(decode_message(&bytes), Err(WireError::Malformed(_))));
}

#[test]
fn id_beyond_limit_is_rejected() {
    let m = Message::process_exited("y".repeat(2037));
    let bytes = encode_message(&m);
    assert!(matches!(decode_message(&bytes), Err(WireError::Malformed(_))));
    let m = Message::process_exited("y".repeat(2036));
    let bytes = encode_message(&m);
    assert_eq!(id_of(&decode_message(&bytes).unwrap()).len(), 2036);
}

#[test]
fn wide_tag_form_is_read() {
    let bytes = vec![251u8, 0, 0, 1, b'A'];
    assert_eq!(id_of(&decode_message(&bytes).unwrap()), "A");
}
