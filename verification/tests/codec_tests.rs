use chat_hub::codec::{decode, encode, HEADER_LEN};
use chat_hub::wire::{ClientWsMessage, ClientWsMessageType};

fn msg(member_id: i64, name: &str, kind: ClientWsMessageType, text: &str) -> ClientWsMessage {
    ClientWsMessage {
        member_id,
        member_name: name.to_string(),
        message_type: kind,
        message: text.to_string(),
    }
}

fn assert_round_trip(m: &ClientWsMessage) {
    let frame = encode(m);
    let back = decode(&frame).expect("a frame built by encode must decode");
    assert_eq!(back.member_id, m.member_id);
    assert_eq!(back.member_name, m.member_name);
    assert_eq!(back.message_type, m.message_type);
    assert_eq!(back.message, m.message);
}

#[test]
fn round_trip_plain_text() {
    assert_round_trip(&msg(7, "ann", ClientWsMessageType::Message, "hi"));
}

#[test]
fn round_trip_empty_text_and_name() {
    assert_round_trip(&msg(0, "", ClientWsMessageType::Message, ""));
}

#[test]
fn round_trip_multi_byte_content() {
    assert_round_trip(&msg(-3, "héloïse", ClientWsMessageType::Message, "góðan dag — 你好 🎉"));
}

#[test]
fn round_trip_negative_member_id() {
    assert_round_trip(&msg(i64::MIN, "x", ClientWsMessageType::Leave, "bye"));
}

#[test]
fn round_trip_every_kind() {
    for kind in [
        ClientWsMessageType::Message,
        ClientWsMessageType::Leave,
        ClientWsMessageType::Kick,
    ] {
        assert_round_trip(&msg(42, "mod", kind, "text"));
    }
}

#[test]
fn frame_layout_is_exact() {
    let frame = encode(&msg(2, "ab", ClientWsMessageType::Leave, "c"));
    let mut expected: Vec<u8> = Vec::new();
    expected.push(1); // Leave tag
    expected.extend_from_slice(&2u64.to_le_bytes()); // member id
    expected.extend_from_slice(&2u64.to_le_bytes()); // name byte length
    expected.extend_from_slice(b"ab");
    expected.extend_from_slice(b"c");
    assert_eq!(frame, expected);
    assert_eq!(frame.len(), HEADER_LEN + 3);
}

#[test]
fn member_id_is_little_endian_two_s_complement() {
    let frame = encode(&msg(-1, "", ClientWsMessageType::Message, ""));
    assert_eq!(&frame[1..9], &[0xff; 8]);
}

#[test]
fn decode_rejects_short_frame() {
    assert!(decode(&[]).is_none());
    let frame = encode(&msg(1, "", ClientWsMessageType::Message, ""));
    assert!(decode(&frame[..HEADER_LEN - 1]).is_none());
}

#[test]
fn decode_rejects_unknown_tag() {
    let mut frame = encode(&msg(1, "a", ClientWsMessageType::Message, "b"));
    frame[0] = 3;
    assert!(decode(&frame).is_none());
}

#[test]
fn decode_rejects_name_length_past_end() {
    let mut frame = encode(&msg(1, "a", ClientWsMessageType::Message, "b"));
    frame[9] = 200; // name length far beyond the frame
    assert!(decode(&frame).is_none());
}

#[test]
fn decode_rejects_invalid_utf8_name() {
    let mut frame = encode(&msg(1, "a", ClientWsMessageType::Message, "b"));
    frame[HEADER_LEN] = 0xff; // lone 0xff is never valid UTF-8
    assert!(decode(&frame).is_none());
}

#[test]
fn decode_rejects_invalid_utf8_text() {
    let mut frame = encode(&msg(1, "a", ClientWsMessageType::Message, "b"));
    let last = frame.len() - 1;
    frame[last] = 0xff;
    assert!(decode(&frame).is_none());
}

#[test]
fn decode_reads_foreign_but_well_formed_frame() {
    // A frame nobody encoded with this crate, but of the documented shape.
    let mut frame: Vec<u8> = Vec::new();
    frame.push(2); // Kick
    frame.extend_from_slice(&9u64.to_le_bytes());
    frame.extend_from_slice(&0u64.to_le_bytes());
    frame.extend_from_slice("out!".as_bytes());
    let m = decode(&frame).expect("well-formed frame");
    assert_eq!(m.member_id, 9);
    assert_eq!(m.member_name, "");
    assert_eq!(m.message_type, ClientWsMessageType::Kick);
    assert_eq!(m.message, "out!");
}
