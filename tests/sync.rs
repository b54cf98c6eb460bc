use yex::error::{Error, ErrorKind};
use yex::sync::{decode_message, encode_message, Message, SyncMessage};

fn round_trip(m: Message) {
    let bytes = encode_message(&m);
    assert_eq!(decode_message(&bytes).unwrap(), m);
}

#[test]
fn encodes_sync_step1() {
    let m = Message::Sync(SyncMessage::SyncStep1(vec![1, 2]));
    assert_eq!(encode_message(&m), vec![0, 0, 2, 1, 2]);
}

#[test]
fn encodes_sync_step2_and_update() {
    assert_eq!(encode_message(&Message::Sync(SyncMessage::SyncStep2(vec![7]))), vec![0, 1, 1, 7]);
    assert_eq!(encode_message(&Message::Sync(SyncMessage::Update(vec![]))), vec![0, 2, 0]);
}

#[test]
fn encodes_awareness_and_query() {
    assert_eq!(encode_message(&Message::Awareness(vec![5, 6, 7])), vec![1, 3, 5, 6, 7]);
    assert_eq!(encode_message(&Message::QueryAwareness), vec![3]);
}

#[test]
fn encodes_auth() {
    assert_eq!(encode_message(&Message::Auth(None)), vec![2, 1]);
    assert_eq!(
        encode_message(&Message::Auth(Some("no".to_string()))),
        vec![2, 0, 2, b'n', b'o']
    );
}

#[test]
fn encodes_custom() {
    assert_eq!(encode_message(&Message::Custom(7, vec![9])), vec![0, 7, 1, 9]);
}

#[test]
fn long_buffer_length_takes_two_bytes() {
    let data = vec![0u8; 200];
    let bytes = encode_message(&Message::Awareness(data.clone()));
    assert_eq!(&bytes[..3], &[1, 200 - 128 + 128, 1]);
    assert_eq!(bytes.len(), 203);
    assert_eq!(decode_message(&bytes).unwrap(), Message::Awareness(data));
}

#[test]
fn frames_round_trip() {
    round_trip(Message::Sync(SyncMessage::SyncStep1(vec![1, 2, 3])));
    round_trip(Message::Sync(SyncMessage::SyncStep2(vec![])));
    round_trip(Message::Sync(SyncMessage::Update(vec![0, 255])));
    round_trip(Message::Awareness(vec![4]));
    round_trip(Message::Auth(None));
    round_trip(Message::Auth(Some("denied: ünïcode".to_string())));
    round_trip(Message::QueryAwareness);
    round_trip(Message::Custom(42, vec![1, 1, 2, 3, 5]));
    round_trip(Message::Custom(255, vec![]));
}

#[test]
fn trailing_bytes_are_ignored() {
    let mut bytes = encode_message(&Message::Awareness(vec![1]));
    bytes.extend_from_slice(&[9, 9, 9]);
    assert_eq!(decode_message(&bytes).unwrap(), Message::Awareness(vec![1]));
}

#[test]
fn unknown_sync_sub_tag_passes_through_as_custom() {
    assert_eq!(decode_message(&[0, 5, 0]).unwrap(), Message::Custom(5, vec![]));
    assert_eq!(decode_message(&[0, 9, 2, 4, 4]).unwrap(), Message::Custom(9, vec![4, 4]));
}

#[test]
fn unknown_top_level_tag_is_a_protocol_violation() {
    let e = decode_message(&[7, 1, 9]).unwrap_err();
    assert!(matches!(e, Error::UnexpectedTag(7)));
    assert_eq!(e.kind(), ErrorKind::ProtocolViolation);
}

#[test]
fn empty_frame_is_malformed() {
    let e = decode_message(&[]).unwrap_err();
    assert!(matches!(e, Error::MalformedFrame));
    assert_eq!(e.kind(), ErrorKind::ProtocolViolation);
}

#[test]
fn truncated_frames_are_malformed() {
    assert!(matches!(decode_message(&[1, 5, 1, 2]).unwrap_err(), Error::MalformedFrame));
    assert!(matches!(decode_message(&[1, 5, 0]).unwrap_err(), Error::MalformedFrame));
    assert!(matches!(decode_message(&[0, 0]).unwrap_err(), Error::MalformedFrame));
    assert!(matches!(decode_message(&[2]).unwrap_err(), Error::MalformedFrame));
    assert!(matches!(decode_message(&[0x80]).unwrap_err(), Error::MalformedFrame));
}

#[test]
fn invalid_utf8_reason_is_a_decoding_error() {
    let e = decode_message(&[2, 0, 2, 0xff, 0xfe]).unwrap_err();
    assert!(matches!(e, Error::InvalidUtf8));
}

#[test]
fn auth_other_than_denied_is_granted() {
    assert_eq!(decode_message(&[2, 1]).unwrap(), Message::Auth(None));
    assert_eq!(decode_message(&[2, 9]).unwrap(), Message::Auth(None));
}
