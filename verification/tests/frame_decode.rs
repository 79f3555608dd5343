use std::collections::BTreeMap;

use firehose_frame::frame::{decode_of_encoded, Error, ErrorFrame, Frame, FrameHeader, MessageFrame};
use ipld_core::ipld::Ipld;
use serde_ipld_dagcbor::to_vec;

fn map_of(entries: Vec<(&str, Ipld)>) -> Ipld {
    let mut m = BTreeMap::new();
    for (k, v) in entries {
        m.insert(k.to_string(), v);
    }
    Ipld::Map(m)
}

fn framed(header: &Ipld, body: &[u8]) -> Vec<u8> {
    let mut buf = to_vec(header).unwrap();
    buf.extend_from_slice(body);
    buf
}

#[test]
fn message_with_tag_and_body() {
    let header = map_of(vec![("op", Ipld::Integer(1)), ("t", Ipld::String("commit".to_string()))]);
    let buf = framed(&header, &[0xDE, 0xAD, 0xBE, 0xEF]);
    let frame = Frame::decode(&buf).unwrap();
    assert_eq!(
        frame,
        Frame::Message(
            Some("commit".to_string()),
            MessageFrame { body: vec![0xDE, 0xAD, 0xBE, 0xEF] },
        )
    );
}

#[test]
fn error_frame_discards_body() {
    let header = map_of(vec![("op", Ipld::Integer(-1))]);
    let buf = framed(&header, &[0x01]);
    let frame = Frame::decode(&buf).unwrap();
    assert_eq!(frame, Frame::Error(ErrorFrame {}));
}

#[test]
fn message_without_tag() {
    let header = map_of(vec![("op", Ipld::Integer(1))]);
    let buf = framed(&header, &[5, 6, 7]);
    let frame = Frame::decode(&buf).unwrap();
    assert_eq!(frame, Frame::Message(None, MessageFrame { body: vec![5, 6, 7] }));
}

#[test]
fn exact_fit_rejected() {
    let header = map_of(vec![("op", Ipld::Integer(1)), ("t", Ipld::String("commit".to_string()))]);
    let buf = to_vec(&header).unwrap();
    match Frame::decode(&buf) {
        Err(Error::InvalidFrameData(carried)) => assert_eq!(carried, buf),
        other => panic!("expected InvalidFrameData, got {:?}", other),
    }
}

#[test]
fn unknown_op_rejected() {
    for op in [0i128, 2, -2, 100, i64::MAX as i128] {
        let header = map_of(vec![("op", Ipld::Integer(op))]);
        let buf = framed(&header, &[1, 2]);
        match Frame::decode(&buf) {
            Err(Error::InvalidFrameType(v)) => assert_eq!(v, header),
            other => panic!("expected InvalidFrameType for op {}, got {:?}", op, other),
        }
    }
}

#[test]
fn missing_op_rejected() {
    let header = map_of(vec![("t", Ipld::String("commit".to_string()))]);
    let buf = framed(&header, &[1]);
    assert!(matches!(Frame::decode(&buf), Err(Error::InvalidFrameType(_))));
}

#[test]
fn non_integer_op_rejected() {
    let header = map_of(vec![("op", Ipld::String("1".to_string()))]);
    let buf = framed(&header, &[1]);
    assert!(matches!(Frame::decode(&buf), Err(Error::InvalidFrameType(_))));
}

#[test]
fn non_map_header_rejected() {
    let header = Ipld::Integer(5);
    let buf = framed(&header, &[1]);
    match Frame::decode(&buf) {
        Err(Error::InvalidFrameType(v)) => assert_eq!(v, Ipld::Integer(5)),
        other => panic!("expected InvalidFrameType, got {:?}", other),
    }
}

#[test]
fn ill_typed_tag_tolerated() {
    let header = map_of(vec![("op", Ipld::Integer(1)), ("t", Ipld::Integer(9))]);
    let buf = framed(&header, &[0xAB]);
    let frame = Frame::decode(&buf).unwrap();
    assert_eq!(frame, Frame::Message(None, MessageFrame { body: vec![0xAB] }));

    let header = map_of(vec![("op", Ipld::Integer(1)), ("t", Ipld::Bytes(vec![1, 2]))]);
    let buf = framed(&header, &[0xCD]);
    let frame = Frame::decode(&buf).unwrap();
    assert_eq!(frame, Frame::Message(None, MessageFrame { body: vec![0xCD] }));
}

#[test]
fn extra_header_fields_ignored() {
    let header = map_of(vec![
        ("op", Ipld::Integer(1)),
        ("t", Ipld::String("z".to_string())),
        ("extra", Ipld::Integer(42)),
    ]);
    let buf = framed(&header, &[7]);
    let frame = Frame::decode(&buf).unwrap();
    assert_eq!(frame, Frame::Message(Some("z".to_string()), MessageFrame { body: vec![7] }));
}

#[test]
fn truncated_header_is_frame_data_error() {
    let header = map_of(vec![("op", Ipld::Integer(1)), ("t", Ipld::String("commit".to_string()))]);
    let encoded_header = to_vec(&header).unwrap();
    let buf = framed(&header, &[1, 2, 3]);
    for cut in 1..=encoded_header.len() {
        match Frame::decode(&buf[..cut]) {
            Err(Error::InvalidFrameData(carried)) => assert_eq!(carried, buf[..cut].to_vec()),
            other => panic!("expected InvalidFrameData at cut {}, got {:?}", cut, other),
        }
    }
}

#[test]
fn empty_buffer_rejected() {
    match Frame::decode(&[]) {
        Err(Error::InvalidFrameData(carried)) => assert!(carried.is_empty()),
        other => panic!("expected InvalidFrameData, got {:?}", other),
    }
}

#[test]
fn round_trip_message() {
    let header = map_of(vec![("op", Ipld::Integer(1)), ("t", Ipld::String("x".to_string()))]);
    let result = decode_of_encoded(&header, &[9, 8, 7]).unwrap();
    assert_eq!(
        result.unwrap(),
        Frame::Message(Some("x".to_string()), MessageFrame { body: vec![9, 8, 7] })
    );
}

#[test]
fn round_trip_error_frame() {
    let header = map_of(vec![("op", Ipld::Integer(-1))]);
    let result = decode_of_encoded(&header, &[1]).unwrap();
    assert_eq!(result.unwrap(), Frame::Error(ErrorFrame {}));
}

#[test]
fn round_trip_empty_body_rejected() {
    let header = map_of(vec![("op", Ipld::Integer(1))]);
    let result = decode_of_encoded(&header, &[]).unwrap();
    assert!(matches!(result, Err(Error::InvalidFrameData(_))));
}

#[test]
fn round_trip_invalid_header() {
    let header = map_of(vec![("op", Ipld::Integer(7))]);
    let result = decode_of_encoded(&header, &[1]).unwrap();
    assert!(matches!(result, Err(Error::InvalidFrameType(_))));
}

#[test]
fn header_interpretation_direct() {
    let header = map_of(vec![("op", Ipld::Integer(1)), ("t", Ipld::String("commit".to_string()))]);
    assert_eq!(
        FrameHeader::from_ipld(header).unwrap(),
        FrameHeader::Message(Some("commit".to_string()))
    );

    let header = map_of(vec![("op", Ipld::Integer(-1))]);
    assert_eq!(FrameHeader::from_ipld(header).unwrap(), FrameHeader::Error);

    let header = map_of(vec![("op", Ipld::Integer(3))]);
    assert!(matches!(FrameHeader::from_ipld(header), Err(Error::InvalidFrameType(_))));
}

#[test]
fn round_trip_refuses_undecodable_nesting() {
    // The codec encodes arbitrarily deep values but refuses to decode past a
    // fixed nesting depth, so the round trip must report that it cannot run.
    let mut nested = Ipld::List(vec![Ipld::Integer(0)]);
    for _ in 0..300 {
        nested = Ipld::List(vec![nested]);
    }
    let header = map_of(vec![("op", Ipld::Integer(1)), ("x", nested)]);
    assert!(decode_of_encoded(&header, &[1]).is_none());
}
