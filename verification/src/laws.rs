use vstd::prelude::*;

use crate::errors::DecodeError;
use crate::prim::{
    bool_byte, lemma_u32_at_subrange, lemma_u64_at_subrange, u32_bytes, u64_le_bytes, ByteOrder,
};
use crate::records::{
    bool_request_payload, bool_response_payload, spec_deserialize_bool_request,
    spec_deserialize_bool_response, spec_deserialize_text_message, spec_deserialize_vector3,
    spec_serialize_bool_request, spec_serialize_bool_response, spec_serialize_text_message,
    spec_serialize_vector3, vector3_payload, SetBoolSrvRequest, VectorClass,
};
use crate::text::{text_len_ok, text_payload};

verus! {

/// Whether a decode outcome is the truncation error, whatever its detail.
pub open spec fn truncated<T>(r: Result<T, DecodeError>) -> bool {
    match r {
        Err(DecodeError::TruncatedInput { .. }) => true,
        _ => false,
    }
}

/// Header recognition: `0x00 0x01` resolves every later field read of the
/// buffer to little-endian, `0x00 0x00` to big-endian, and any other pair
/// fails with `UnsupportedEncapsulation` carrying the offending bytes.
pub proof fn lemma_header_recognition(b: Seq<u8>)
    requires
        b.len() >= 4,
    ensures
        b[0] == 0x00 && b[1] == 0x01 ==> crate::header::spec_read_header(b) == Ok::<
            ByteOrder,
            DecodeError,
        >(ByteOrder::Little),
        b[0] == 0x00 && b[1] == 0x00 ==> crate::header::spec_read_header(b) == Ok::<
            ByteOrder,
            DecodeError,
        >(ByteOrder::Big),
        !(b[0] == 0x00 && (b[1] == 0x00 || b[1] == 0x01)) ==> crate::header::spec_read_header(b)
            == Err::<ByteOrder, DecodeError>(
            DecodeError::UnsupportedEncapsulation { found0: b[0], found1: b[1] },
        ),
{
}

/// Round-trip identity for vectors: decoding an encoded vector gives the
/// vector back, bit-for-bit.
pub proof fn lemma_round_trip_vector3(v: VectorClass)
    ensures
        spec_deserialize_vector3(spec_serialize_vector3(v)) == Ok::<VectorClass, DecodeError>(v),
{
    let p = vector3_payload(v, ByteOrder::Little);
    let b = spec_serialize_vector3(v);
    assert(b[0] == 0 && b[1] == 1);
    assert(b.skip(4) =~= p);
    assert(p.subrange(0, 8) =~= u64_le_bytes(v.x));
    assert(p.subrange(8, 16) =~= u64_le_bytes(v.y));
    assert(p.subrange(16, 24) =~= u64_le_bytes(v.z));
    lemma_u64_at_subrange(p, 0, v.x, ByteOrder::Little);
    lemma_u64_at_subrange(p, 8, v.y, ByteOrder::Little);
    lemma_u64_at_subrange(p, 16, v.z, ByteOrder::Little);
}

/// Round-trip identity for text messages: decoding an encoded message gives
/// its bytes back, for every content length that fits the length prefix,
/// the empty text included.
pub proof fn lemma_round_trip_text_message(data: Seq<u8>)
    requires
        text_len_ok(data),
    ensures
        spec_deserialize_text_message(spec_serialize_text_message(data)) == Ok::<
            Seq<u8>,
            DecodeError,
        >(data),
{
    let n = data.len() as int;
    let count = (data.len() + 1) as u32;
    let p = text_payload(data, ByteOrder::Little);
    let b = spec_serialize_text_message(data);
    assert(b[0] == 0 && b[1] == 1);
    assert(b.skip(4) =~= p);
    assert(p.subrange(0, 4) =~= u32_bytes(count, ByteOrder::Little));
    lemma_u32_at_subrange(p, 0, count, ByteOrder::Little);
    assert(count != 0);
    assert(p.subrange(4, 4 + n) =~= data);
}

/// Round-trip identity for boolean-flag requests.
pub proof fn lemma_round_trip_bool_request(data: bool)
    ensures
        spec_deserialize_bool_request(spec_serialize_bool_request(data)) == Ok::<
            SetBoolSrvRequest,
            DecodeError,
        >(SetBoolSrvRequest { data }),
{
    let p = bool_request_payload(data);
    let b = spec_serialize_bool_request(data);
    assert(b[0] == 0 && b[1] == 1);
    assert(b.skip(4) =~= p);
    assert(p[0] == bool_byte(data));
}

/// Round-trip identity for success/message responses.
pub proof fn lemma_round_trip_bool_response(success: bool, message: Seq<u8>)
    requires
        text_len_ok(message),
    ensures
        spec_deserialize_bool_response(spec_serialize_bool_response(success, message)) == Ok::<
            (bool, Seq<u8>),
            DecodeError,
        >((success, message)),
{
    let n = message.len() as int;
    let count = (message.len() + 1) as u32;
    let p = bool_response_payload(success, message, ByteOrder::Little);
    let b = spec_serialize_bool_response(success, message);
    assert(b[0] == 0 && b[1] == 1);
    assert(b.skip(4) =~= p);
    assert(p[0] == bool_byte(success));
    assert(p.subrange(4, 8) =~= u32_bytes(count, ByteOrder::Little));
    lemma_u32_at_subrange(p, 4, count, ByteOrder::Little);
    assert(count != 0);
    assert(p.subrange(8, 8 + n) =~= message);
}

/// Alignment invariant for responses: the three bytes after the success
/// byte are zero padding, and the text length prefix begins exactly at
/// offset 4 of the field sequence.
pub proof fn lemma_bool_response_alignment(success: bool, message: Seq<u8>, order: ByteOrder)
    requires
        text_len_ok(message),
    ensures
        bool_response_payload(success, message, order)[0] == bool_byte(success),
        bool_response_payload(success, message, order)[1] == 0,
        bool_response_payload(success, message, order)[2] == 0,
        bool_response_payload(success, message, order)[3] == 0,
        bool_response_payload(success, message, order).subrange(4, 8) == u32_bytes(
            (message.len() + 1) as u32,
            order,
        ),
{
    let p = bool_response_payload(success, message, order);
    assert(p.subrange(4, 8) =~= u32_bytes((message.len() + 1) as u32, order));
}

/// Truncation detection for vectors: every proper prefix of a valid
/// top-level encoding fails to decode with `TruncatedInput`.
pub proof fn lemma_truncation_vector3(v: VectorClass, n: int)
    requires
        0 <= n < spec_serialize_vector3(v).len(),
    ensures
        truncated(spec_deserialize_vector3(spec_serialize_vector3(v).take(n))),
{
    let b = spec_serialize_vector3(v);
    let t = b.take(n);
    if n >= 4 {
        assert(t[0] == 0 && t[1] == 1);
        assert(t.skip(4).len() == n - 4 < 24);
    }
}

/// Truncation detection for text messages: every proper prefix of a valid
/// top-level encoding fails to decode with `TruncatedInput`.
pub proof fn lemma_truncation_text_message(data: Seq<u8>, n: int)
    requires
        text_len_ok(data),
        0 <= n < spec_serialize_text_message(data).len(),
    ensures
        truncated(spec_deserialize_text_message(spec_serialize_text_message(data).take(n))),
{
    let count = (data.len() + 1) as u32;
    let b = spec_serialize_text_message(data);
    let t = b.take(n);
    if n >= 4 {
        assert(t[0] == 0 && t[1] == 1);
        let s = t.skip(4);
        assert(s.len() == n - 4);
        if n - 4 >= 4 {
            assert(s.subrange(0, 4) =~= u32_bytes(count, ByteOrder::Little));
            lemma_u32_at_subrange(s, 0, count, ByteOrder::Little);
            assert(count != 0);
            assert(4 + count > s.len());
        }
    }
}

/// Truncation detection for boolean-flag requests: every proper prefix of a
/// valid top-level encoding fails to decode with `TruncatedInput`.
pub proof fn lemma_truncation_bool_request(data: bool, n: int)
    requires
        0 <= n < spec_serialize_bool_request(data).len(),
    ensures
        truncated(spec_deserialize_bool_request(spec_serialize_bool_request(data).take(n))),
{
    let b = spec_serialize_bool_request(data);
    let t = b.take(n);
    if n >= 4 {
        assert(t[0] == 0 && t[1] == 1);
        assert(t.skip(4).len() == 0);
    }
}

/// Truncation detection for success/message responses: every proper prefix
/// of a valid top-level encoding fails to decode with `TruncatedInput`.
pub proof fn lemma_truncation_bool_response(success: bool, message: Seq<u8>, n: int)
    requires
        text_len_ok(message),
        0 <= n < spec_serialize_bool_response(success, message).len(),
    ensures
        truncated(
            spec_deserialize_bool_response(spec_serialize_bool_response(success, message).take(n)),
        ),
{
    let count = (message.len() + 1) as u32;
    let p = bool_response_payload(success, message, ByteOrder::Little);
    let b = spec_serialize_bool_response(success, message);
    let t = b.take(n);
    if n >= 4 {
        assert(t[0] == 0 && t[1] == 1);
        let s = t.skip(4);
        assert(s.len() == n - 4);
        if n - 4 >= 1 {
            assert(s[0] == p[0]);
            assert(s[0] == bool_byte(success));
            if n - 4 >= 8 {
                assert(s.subrange(4, 8) =~= u32_bytes(count, ByteOrder::Little));
                lemma_u32_at_subrange(s, 4, count, ByteOrder::Little);
                assert(count != 0);
                assert(8 + count > s.len());
            }
        }
    }
}

} // verus!
