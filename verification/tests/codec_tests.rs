use savant_core::message::{decode_message, encode_message, Message};

#[test]
fn test_message_codec_roundtrip() {
    let m = Message::new(0x0123_4567_89ab_cdef, vec![10, 20, 30]);
    let frame = encode_message(&m);
    assert_eq!(frame.len(), 12);
    let back = decode_message(&frame).unwrap();
    assert_eq!(back.meta.seq_id, 0x0123_4567_89ab_cdef);
    assert!(!back.meta.is_eos);
    assert_eq!(back.payload, vec![10, 20, 30]);
}

#[test]
fn test_message_codec_eos() {
    let m = Message::end_of_stream();
    let frame = encode_message(&m);
    assert_eq!(frame.len(), 9);
    assert_eq!(frame[8], 1);
    let back = decode_message(&frame).unwrap();
    assert!(back.meta.is_eos);
    assert_eq!(back.meta.seq_id, 0);
    assert!(back.payload.is_empty());
}

#[test]
fn test_message_codec_little_endian() {
    let m = Message::new(1, vec![]);
    let frame = encode_message(&m);
    assert_eq!(frame, vec![1, 0, 0, 0, 0, 0, 0, 0, 0]);
}

#[test]
fn test_message_decode_rejects_short_frames() {
    assert!(decode_message(&[]).is_none());
    assert!(decode_message(&[0; 8]).is_none());
    assert!(decode_message(&[0; 9]).is_some());
}

#[test]
fn test_message_decode_rejects_bad_flag() {
    let mut frame = vec![0u8; 9];
    frame[8] = 2;
    assert!(decode_message(&frame).is_none());
}

#[test]
fn test_message_with_seq_id() {
    let m = Message::new(5, vec![1]).with_seq_id(9);
    assert_eq!(m.meta.seq_id, 9);
    assert!(!m.meta.is_eos);
    assert_eq!(m.payload, vec![1]);
}
