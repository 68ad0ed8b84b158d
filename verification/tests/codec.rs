use ctrader_openapi::codec::MsgCodec;
use ctrader_openapi::error::Error;
use ctrader_openapi::message::ProtoMessage;

fn sample() -> ProtoMessage {
    ProtoMessage {
        payload_type: 2100,
        payload: Some(vec![10, 1, 88, 18, 1, 89]),
        client_msg_id: Some("abc-123".to_string()),
    }
}

#[test]
fn body_of_heartbeat_is_four_bytes() {
    let body = ProtoMessage::heartbeat().encode_to_vec();
    assert_eq!(body, vec![0x08, 51, 0x12, 0x00]);
}

#[test]
fn body_has_fields_in_tag_order() {
    let m = ProtoMessage { payload_type: 300, payload: Some(vec![7, 8]), client_msg_id: Some("id".to_string()) };
    // 300 = 0b1_0010_1100 -> 0xAC 0x02
    assert_eq!(m.encode_to_vec(), vec![0x08, 0xAC, 0x02, 0x12, 2, 7, 8, 0x1A, 2, b'i', b'd']);
}

#[test]
fn body_matches_prost_field_encoders() {
    let m = sample();
    let mut expected: Vec<u8> = Vec::new();
    prost::encoding::uint32::encode(1, &m.payload_type, &mut expected);
    prost::encoding::bytes::encode(2, m.payload.as_ref().unwrap(), &mut expected);
    prost::encoding::string::encode(3, m.client_msg_id.as_ref().unwrap(), &mut expected);
    assert_eq!(m.encode_to_vec(), expected);
}

#[test]
fn body_round_trip() {
    let m = sample();
    let body = m.encode_to_vec();
    assert_eq!(ProtoMessage::decode_body(&body), Some(m));
}

#[test]
fn body_round_trip_without_optional_fields() {
    let m = ProtoMessage { payload_type: u32::MAX, payload: None, client_msg_id: None };
    let body = m.encode_to_vec();
    assert_eq!(body, vec![0x08, 0xFF, 0xFF, 0xFF, 0xFF, 0x0F]);
    assert_eq!(ProtoMessage::decode_body(&body), Some(m));
}

#[test]
fn empty_body_is_the_default_message() {
    assert_eq!(
        ProtoMessage::decode_body(&[]),
        Some(ProtoMessage { payload_type: 0, payload: None, client_msg_id: None })
    );
}

#[test]
fn decode_keeps_last_value_and_any_order() {
    // client_msg_id "a", payload_type 1, payload_type 2
    let body = vec![0x1A, 1, b'a', 0x08, 1, 0x08, 2];
    assert_eq!(
        ProtoMessage::decode_body(&body),
        Some(ProtoMessage { payload_type: 2, payload: None, client_msg_id: Some("a".to_string()) })
    );
}

#[test]
fn decode_skips_unknown_fields() {
    // field 4 varint 150, field 5 fixed64, field 6 length-delimited, field 7 fixed32, then payload_type 9
    let body = vec![
        0x20, 0x96, 0x01, 0x29, 1, 2, 3, 4, 5, 6, 7, 8, 0x32, 2, 0xAA, 0xBB, 0x3D, 1, 2, 3, 4, 0x08, 9,
    ];
    assert_eq!(
        ProtoMessage::decode_body(&body),
        Some(ProtoMessage { payload_type: 9, payload: None, client_msg_id: None })
    );
}

#[test]
fn decode_skips_unknown_group() {
    // field 4 start group, inner field 1 varint 5, field 4 end group, then payload_type 3
    let body = vec![0x23, 0x08, 5, 0x24, 0x08, 3];
    assert_eq!(
        ProtoMessage::decode_body(&body),
        Some(ProtoMessage { payload_type: 3, payload: None, client_msg_id: None })
    );
}

#[test]
fn decode_rejects_malformed_bodies() {
    // truncated varint
    assert_eq!(ProtoMessage::decode_body(&[0x08, 0x80]), None);
    // wrong wire type for payload_type
    assert_eq!(ProtoMessage::decode_body(&[0x0A, 0x00]), None);
    // wrong wire type for payload
    assert_eq!(ProtoMessage::decode_body(&[0x10, 0x00]), None);
    // length beyond the input
    assert_eq!(ProtoMessage::decode_body(&[0x12, 0x05, 1, 2]), None);
    // tag zero
    assert_eq!(ProtoMessage::decode_body(&[0x00, 0x00]), None);
    // wire type 7
    assert_eq!(ProtoMessage::decode_body(&[0x0F]), None);
    // invalid UTF-8 in the correlation id
    assert_eq!(ProtoMessage::decode_body(&[0x1A, 2, 0xC3, 0x28]), None);
    // unmatched end group
    assert_eq!(ProtoMessage::decode_body(&[0x24]), None);
    // eleven-byte varint
    assert_eq!(
        ProtoMessage::decode_body(&[0x08, 0xFF, 0xFF, 0xFF, 0xFF, 0xFF, 0xFF, 0xFF, 0xFF, 0xFF, 0xFF, 0x01]),
        None
    );
    // tenth byte of a varint above one
    assert_eq!(
        ProtoMessage::decode_body(&[0x08, 0xFF, 0xFF, 0xFF, 0xFF, 0xFF, 0xFF, 0xFF, 0xFF, 0xFF, 0x02]),
        None
    );
}

#[test]
fn decode_truncates_payload_type_to_32_bits() {
    // varint of 2^32 + 5
    let body = vec![0x08, 0x85, 0x80, 0x80, 0x80, 0x10];
    assert_eq!(
        ProtoMessage::decode_body(&body),
        Some(ProtoMessage { payload_type: 5, payload: None, client_msg_id: None })
    );
}

#[test]
fn decode_accepts_ten_byte_varint() {
    // u64::MAX truncates to u32::MAX
    let body = vec![0x08, 0xFF, 0xFF, 0xFF, 0xFF, 0xFF, 0xFF, 0xFF, 0xFF, 0xFF, 0x01];
    assert_eq!(
        ProtoMessage::decode_body(&body),
        Some(ProtoMessage { payload_type: u32::MAX, payload: None, client_msg_id: None })
    );
}

#[test]
fn frame_is_length_then_body() {
    let mut codec = MsgCodec::new();
    let mut buf = vec![0xEE];
    codec.encode(&ProtoMessage::heartbeat(), &mut buf).unwrap();
    assert_eq!(buf, vec![0xEE, 0, 0, 0, 4, 0x08, 51, 0x12, 0x00]);
}

#[test]
fn frame_round_trip() {
    let m = sample();
    let mut codec = MsgCodec::new();
    let mut buf = Vec::new();
    codec.encode(&m, &mut buf).unwrap();
    buf.extend_from_slice(&[1, 2, 3]);
    assert_eq!(codec.decode(&mut buf), Ok(Some(m)));
    assert_eq!(buf, vec![1, 2, 3]);
    assert_eq!(codec.pending_len(), None);
}

#[test]
fn frame_round_trip_of_large_payload() {
    let m = ProtoMessage { payload_type: 2131, payload: Some(vec![0xAB; 70_000]), client_msg_id: None };
    let mut codec = MsgCodec::new();
    let mut buf = Vec::new();
    codec.encode(&m, &mut buf).unwrap();
    // body: 3 bytes of type field, 1 key + 3 length bytes, 70000 bytes
    assert_eq!(&buf[..4], &[0x00, 0x01, 0x11, 0x77]);
    assert_eq!(buf.len(), 4 + 70_007);
    assert_eq!(codec.decode(&mut buf), Ok(Some(m)));
    assert!(buf.is_empty());
}

#[test]
fn decoder_tolerates_partial_reads() {
    let m = sample();
    let mut frame = Vec::new();
    MsgCodec::new().encode(&m, &mut frame).unwrap();
    let mut codec = MsgCodec::default();
    let mut buf = Vec::new();
    let mut got = None;
    for (i, byte) in frame.iter().enumerate() {
        buf.push(*byte);
        let r = codec.decode(&mut buf).unwrap();
        if i + 1 < frame.len() {
            assert_eq!(r, None);
        } else {
            got = r;
        }
    }
    assert_eq!(got, Some(m));
    assert!(buf.is_empty());
}

#[test]
fn decoder_reads_header_with_exactly_four_bytes() {
    let mut codec = MsgCodec::new();
    let mut buf = vec![0, 0, 0, 2];
    assert_eq!(codec.decode(&mut buf), Ok(None));
    assert_eq!(codec.pending_len(), Some(2));
    assert!(buf.is_empty());
    buf.extend_from_slice(&[0x08, 7]);
    assert_eq!(
        codec.decode(&mut buf),
        Ok(Some(ProtoMessage { payload_type: 7, payload: None, client_msg_id: None }))
    );
}

#[test]
fn decoder_takes_empty_frame_as_default_message() {
    let mut codec = MsgCodec::new();
    let mut buf = vec![0, 0, 0, 0];
    assert_eq!(
        codec.decode(&mut buf),
        Ok(Some(ProtoMessage { payload_type: 0, payload: None, client_msg_id: None }))
    );
}

#[test]
fn decoder_reports_malformed_body() {
    let mut codec = MsgCodec::new();
    let mut buf = vec![0, 0, 0, 2, 0x08, 0x80, 9];
    assert_eq!(codec.decode(&mut buf), Err(Error::DecodeProtoMessageError));
    assert_eq!(buf, vec![9]);
    assert_eq!(codec.pending_len(), Some(2));
}

#[test]
fn decoder_yields_two_frames_in_order() {
    let a = ProtoMessage { payload_type: 1, payload: None, client_msg_id: None };
    let b = ProtoMessage { payload_type: 2, payload: Some(vec![]), client_msg_id: None };
    let mut codec = MsgCodec::new();
    let mut buf = Vec::new();
    codec.encode(&a, &mut buf).unwrap();
    codec.encode(&b, &mut buf).unwrap();
    assert_eq!(codec.decode(&mut buf), Ok(Some(a)));
    assert_eq!(codec.decode(&mut buf), Ok(Some(b)));
    assert_eq!(codec.decode(&mut buf), Ok(None));
}
