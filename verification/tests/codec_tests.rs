use cdr_codec::errors::DecodeError;
use cdr_codec::prim::ByteOrder;
use cdr_codec::records::{
    decode_bool_request, decode_vector3, encode_bool_response, encode_text_message,
    encode_vector3, SetBoolSrvRequest, SetBoolSrvResponse, TextMessage, VectorClass,
};

fn vector(x: f64, y: f64, z: f64) -> VectorClass {
    VectorClass::new(x.to_bits(), y.to_bits(), z.to_bits())
}

#[test]
fn vector_concrete_bytes() {
    // The bare encoding of {1.0, 2.0, 3.0} is the three IEEE-754
    // little-endian bit patterns concatenated, 24 bytes in all.
    let v = vector(1.0, 2.0, 3.0);
    let bare = encode_vector3(&v);
    let mut expected = Vec::new();
    expected.extend_from_slice(&1.0f64.to_bits().to_le_bytes());
    expected.extend_from_slice(&2.0f64.to_bits().to_le_bytes());
    expected.extend_from_slice(&3.0f64.to_bits().to_le_bytes());
    assert_eq!(bare.len(), 24);
    assert_eq!(bare, expected);

    let back = decode_vector3(&bare, ByteOrder::Little).unwrap();
    assert_eq!(back, v);

    // The top-level form is the 4-byte header followed by those 24 bytes.
    let top = v.serialize();
    assert_eq!(top.len(), 28);
    assert_eq!(&top[..4], &[0x00, 0x01, 0x00, 0x00]);
    assert_eq!(&top[4..], &expected[..]);
}

#[test]
fn text_length_semantics() {
    // "hi" encodes as length 3 (2 content bytes + 1 terminator), then the
    // content, then the NUL terminator.
    let m = TextMessage::new(b"hi".to_vec());
    let bare = encode_text_message(&m);
    assert_eq!(bare, vec![3, 0, 0, 0, b'h', b'i', 0]);

    let top = m.serialize();
    assert_eq!(&top[..4], &[0x00, 0x01, 0x00, 0x00]);
    assert_eq!(&top[4..], &[3, 0, 0, 0, b'h', b'i', 0]);
}

#[test]
fn bool_response_alignment() {
    // After the success byte at offset 0, offsets 1-3 hold zero padding and
    // the length prefix begins exactly at offset 4.
    let r = SetBoolSrvResponse::new(true, b"ok".to_vec());
    let bare = encode_bool_response(&r);
    assert_eq!(bare[0], 1);
    assert_eq!(&bare[1..4], &[0, 0, 0]);
    assert_eq!(&bare[4..8], &[3, 0, 0, 0]);
    assert_eq!(&bare[8..], &[b'o', b'k', 0]);
}

#[test]
fn deterministic_encoding() {
    let v = vector(-0.5, 1e300, 42.125);
    assert_eq!(v.serialize(), v.serialize());

    let m = TextMessage::new(b"same twice".to_vec());
    assert_eq!(m.serialize(), m.serialize());

    let q = SetBoolSrvRequest::new(false);
    assert_eq!(q.serialize(), q.serialize());

    let r = SetBoolSrvResponse::new(false, b"done".to_vec());
    assert_eq!(r.serialize(), r.serialize());
}

#[test]
fn round_trip_vectors() {
    let samples = [
        vector(0.0, 0.0, 0.0),
        vector(-1.5, f64::INFINITY, f64::NEG_INFINITY),
        vector(f64::NAN, f64::MIN, f64::MAX),
        vector(1.0, 2.0, 3.0),
    ];
    for v in samples {
        let back = VectorClass::deserialize(v.serialize()).unwrap();
        // Bit-for-bit equality, so NaN payloads survive too.
        assert_eq!(back, v);
    }
}

#[test]
fn round_trip_text_messages() {
    let samples: [&[u8]; 3] = [b"", b"hello world", b"a longer message with spaces"];
    for data in samples {
        let m = TextMessage::new(data.to_vec());
        let back = TextMessage::deserialize(m.serialize()).unwrap();
        assert_eq!(back.data, data);
    }

    // A large content block survives unchanged too.
    let big = TextMessage::new(vec![b'x'; 100_000]);
    let back = TextMessage::deserialize(big.serialize()).unwrap();
    assert_eq!(back.data, big.data);
}

#[test]
fn round_trip_bool_requests() {
    for data in [false, true] {
        let q = SetBoolSrvRequest::new(data);
        let back = SetBoolSrvRequest::deserialize(q.serialize()).unwrap();
        assert_eq!(back.data(), data);
    }
}

#[test]
fn round_trip_bool_responses() {
    let samples: [(bool, &[u8]); 3] = [(true, b"ok"), (false, b""), (true, b"a much longer message body")];
    for (success, message) in samples {
        let r = SetBoolSrvResponse::new(success, message.to_vec());
        let back = SetBoolSrvResponse::deserialize(r.serialize()).unwrap();
        assert_eq!(back.success(), success);
        assert_eq!(back.message(), message);
    }
}

fn assert_truncated(r: Option<DecodeError>) {
    match r {
        Some(DecodeError::TruncatedInput { .. }) => {}
        other => panic!("expected TruncatedInput, got {:?}", other),
    }
}

#[test]
fn truncation_detected_everywhere() {
    // Every proper prefix of a valid encoding fails with TruncatedInput,
    // for each record type.
    let v = vector(1.0, -2.0, 0.5);
    let full = v.serialize();
    for n in 0..full.len() {
        assert_truncated(VectorClass::deserialize(full[..n].to_vec()).err());
    }

    let m = TextMessage::new(b"hi".to_vec());
    let full = m.serialize();
    for n in 0..full.len() {
        assert_truncated(TextMessage::deserialize(full[..n].to_vec()).err());
    }

    let q = SetBoolSrvRequest::new(true);
    let full = q.serialize();
    for n in 0..full.len() {
        assert_truncated(SetBoolSrvRequest::deserialize(full[..n].to_vec()).err());
    }

    let r = SetBoolSrvResponse::new(true, b"ok".to_vec());
    let full = r.serialize();
    for n in 0..full.len() {
        assert_truncated(SetBoolSrvResponse::deserialize(full[..n].to_vec()).err());
    }
}

#[test]
fn header_recognition() {
    // A little-endian header is read with little-endian field order.
    let mut buf = vec![0x00, 0x01, 0x00, 0x00];
    buf.push(0x01);
    let q = SetBoolSrvRequest::deserialize(buf).unwrap();
    assert!(q.data());

    // A big-endian header switches the multi-byte field reads.
    let mut buf = vec![0x00, 0x00, 0x00, 0x00];
    buf.extend_from_slice(&1.0f64.to_bits().to_be_bytes());
    buf.extend_from_slice(&2.0f64.to_bits().to_be_bytes());
    buf.extend_from_slice(&3.0f64.to_bits().to_be_bytes());
    let v = VectorClass::deserialize(buf).unwrap();
    assert_eq!(v, vector(1.0, 2.0, 3.0));

    // An unrecognized representation pair is rejected as such.
    let buf = vec![0xFF, 0xFF, 0x00, 0x00, 0x01];
    assert_eq!(
        SetBoolSrvRequest::deserialize(buf),
        Err(DecodeError::UnsupportedEncapsulation { found0: 0xFF, found1: 0xFF })
    );
}

#[test]
fn invalid_length_rejected() {
    // A zero text length cannot account for the mandatory terminator.
    let buf = vec![0x00, 0x01, 0x00, 0x00, 0, 0, 0, 0];
    assert!(matches!(
        TextMessage::deserialize(buf),
        Err(DecodeError::InvalidLength { offset: 0 })
    ));
}

#[test]
fn malformed_boolean_rejected() {
    let buf = vec![0x00, 0x01, 0x00, 0x00, 0x02];
    assert_eq!(
        SetBoolSrvRequest::deserialize(buf),
        Err(DecodeError::MalformedBoolean { offset: 0, found: 2 })
    );
    // 0x00 and 0x01 are the only accepted boolean bytes.
    let ok = decode_bool_request(&[0x00]).unwrap();
    assert!(!ok.data());
}

#[test]
fn trailing_bytes_ignored() {
    // Decoding is permissive about bytes after the record, as the original
    // consumers were.
    let mut buf = SetBoolSrvRequest::new(true).serialize();
    buf.push(0xAA);
    let q = SetBoolSrvRequest::deserialize(buf).unwrap();
    assert!(q.data());
}
