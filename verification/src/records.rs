use vstd::prelude::*;

use crate::align::zeros;
use crate::errors::DecodeError;
use crate::header::{header_le, read_header, spec_read_header, write_header};
use crate::prim::{
    bool_byte, read_bool_at, read_f64_bits_at, spec_read_bool, spec_read_f64_bits, u64_bytes,
    write_bool, write_f64_bits, ByteOrder,
};
use crate::text::{read_text, spec_read_text, text_len_ok, text_payload, write_text};
use vstd::slice::{slice_index_get, slice_subrange, slice_to_vec};

verus! {

/// A three-component double-precision vector.  Each field holds the IEEE-754
/// bit pattern of one coordinate: the codec moves doubles bit-for-bit and
/// performs no arithmetic on them, so their wire contract is exactly their
/// bit pattern.
#[derive(Clone, Copy, Debug, PartialEq, Eq, Structural)]
pub struct VectorClass {
    pub x: u64,
    pub y: u64,
    pub z: u64,
}

/// A message holding one length-prefixed UTF-8 text field.  `data` holds the
/// text's bytes, without the wire terminator.
#[derive(Clone, Debug, PartialEq, Eq)]
pub struct TextMessage {
    pub data: Vec<u8>,
}

/// A request carrying one boolean flag.
#[derive(Clone, Copy, Debug, PartialEq, Eq, Structural)]
pub struct SetBoolSrvRequest {
    pub data: bool,
}

/// A response carrying a success flag and a length-prefixed text field.
/// `message` holds the text's bytes, without the wire terminator.
#[derive(Clone, Debug, PartialEq, Eq)]
pub struct SetBoolSrvResponse {
    pub success: bool,
    pub message: Vec<u8>,
}

/// The bare field sequence of a vector: three 8-byte doubles, 24 bytes, no
/// padding when the record starts 8-byte aligned.
pub open spec fn vector3_payload(v: VectorClass, order: ByteOrder) -> Seq<u8> {
    u64_bytes(v.x, order) + u64_bytes(v.y, order) + u64_bytes(v.z, order)
}

/// The bare field sequence of a boolean-flag request: one byte.
pub open spec fn bool_request_payload(data: bool) -> Seq<u8> {
    seq![bool_byte(data)]
}

/// The bare field sequence of a success/message response: the success byte,
/// three zero padding bytes so the length prefix lands on a 4-byte boundary,
/// then the text field.
pub open spec fn bool_response_payload(success: bool, message: Seq<u8>, order: ByteOrder) -> Seq<
    u8,
>
    recommends
        text_len_ok(message),
{
    seq![bool_byte(success)] + zeros(3) + text_payload(message, order)
}

/// The vector read from a bare field sequence, or the exact error.
pub open spec fn spec_read_vector3(s: Seq<u8>, order: ByteOrder) -> Result<
    VectorClass,
    DecodeError,
> {
    match spec_read_f64_bits(s, 0, order) {
        Err(e) => Err(e),
        Ok((x, n1)) => match spec_read_f64_bits(s, n1, order) {
            Err(e) => Err(e),
            Ok((y, n2)) => match spec_read_f64_bits(s, n2, order) {
                Err(e) => Err(e),
                Ok((z, _)) => Ok(VectorClass { x, y, z }),
            },
        },
    }
}

/// The text read from a bare field sequence, or the exact error.
pub open spec fn spec_read_text_message(s: Seq<u8>, order: ByteOrder) -> Result<
    Seq<u8>,
    DecodeError,
> {
    match spec_read_text(s, 0, order) {
        Err(e) => Err(e),
        Ok((data, _)) => Ok(data),
    }
}

/// The request read from a bare field sequence, or the exact error.
pub open spec fn spec_read_bool_request(s: Seq<u8>) -> Result<SetBoolSrvRequest, DecodeError> {
    match spec_read_bool(s, 0) {
        Err(e) => Err(e),
        Ok(data) => Ok(SetBoolSrvRequest { data }),
    }
}

/// The success flag and message read from a bare field sequence, or the
/// exact error.
pub open spec fn spec_read_bool_response(s: Seq<u8>, order: ByteOrder) -> Result<
    (bool, Seq<u8>),
    DecodeError,
> {
    match spec_read_bool(s, 0) {
        Err(e) => Err(e),
        Ok(success) => match spec_read_text(s, 1, order) {
            Err(e) => Err(e),
            Ok((message, _)) => Ok((success, message)),
        },
    }
}

/// A top-level encoding: the encapsulation header, then the bare fields.
pub open spec fn spec_serialize_vector3(v: VectorClass) -> Seq<u8> {
    header_le() + vector3_payload(v, ByteOrder::Little)
}

/// A top-level encoding: the encapsulation header, then the bare fields.
pub open spec fn spec_serialize_text_message(data: Seq<u8>) -> Seq<u8>
    recommends
        text_len_ok(data),
{
    header_le() + text_payload(data, ByteOrder::Little)
}

/// A top-level encoding: the encapsulation header, then the bare fields.
pub open spec fn spec_serialize_bool_request(data: bool) -> Seq<u8> {
    header_le() + bool_request_payload(data)
}

/// A top-level encoding: the encapsulation header, then the bare fields.
pub open spec fn spec_serialize_bool_response(success: bool, message: Seq<u8>) -> Seq<u8>
    recommends
        text_len_ok(message),
{
    header_le() + bool_response_payload(success, message, ByteOrder::Little)
}

/// A top-level decode: resolve the byte order from the header, then read the
/// bare fields after it with that order.  Bytes after the record are
/// ignored.  Field error offsets are relative to the field sequence.
pub open spec fn spec_deserialize_vector3(b: Seq<u8>) -> Result<VectorClass, DecodeError> {
    match spec_read_header(b) {
        Err(e) => Err(e),
        Ok(order) => spec_read_vector3(b.skip(4), order),
    }
}

/// A top-level decode of a text message; see `spec_deserialize_vector3`.
pub open spec fn spec_deserialize_text_message(b: Seq<u8>) -> Result<Seq<u8>, DecodeError> {
    match spec_read_header(b) {
        Err(e) => Err(e),
        Ok(order) => spec_read_text_message(b.skip(4), order),
    }
}

/// A top-level decode of a boolean-flag request; see
/// `spec_deserialize_vector3`.
pub open spec fn spec_deserialize_bool_request(b: Seq<u8>) -> Result<
    SetBoolSrvRequest,
    DecodeError,
> {
    match spec_read_header(b) {
        Err(e) => Err(e),
        Ok(_) => spec_read_bool_request(b.skip(4)),
    }
}

/// A top-level decode of a success/message response; see
/// `spec_deserialize_vector3`.
pub open spec fn spec_deserialize_bool_response(b: Seq<u8>) -> Result<
    (bool, Seq<u8>),
    DecodeError,
> {
    match spec_read_header(b) {
        Err(e) => Err(e),
        Ok(order) => spec_read_bool_response(b.skip(4), order),
    }
}

/// Appends every byte of `more` to `buf` in order.
pub fn append_bytes(buf: &mut Vec<u8>, more: &[u8])
    ensures
        final(buf)@ == old(buf)@ + more@,
{
    let ghost buf0 = buf@;
    let mut j: usize = 0;
    while j < more.len()
        invariant
            j <= more@.len(),
            buf@ == buf0 + more@.take(j as int),
        decreases more@.len() - j,
    {
        buf.push(*slice_index_get(more, j));
        j = j + 1;
        proof {
            assert(buf@ =~= buf0 + more@.take(j as int));
        }
    }
    proof {
        assert(more@.take(more@.len() as int) =~= more@);
    }
}

/// Encodes the bare field sequence of a vector: 24 bytes, little-endian.
pub fn encode_vector3(v: &VectorClass) -> (out: Vec<u8>)
    ensures
        out@ == vector3_payload(*v, ByteOrder::Little),
        out@.len() == 24,
{
    let mut out: Vec<u8> = Vec::new();
    write_f64_bits(&mut out, v.x);
    write_f64_bits(&mut out, v.y);
    write_f64_bits(&mut out, v.z);
    proof {
        assert(out@ =~= vector3_payload(*v, ByteOrder::Little));
    }
    out
}

/// Encodes the bare field sequence of a text message.
pub fn encode_text_message(m: &TextMessage) -> (out: Vec<u8>)
    requires
        text_len_ok(m.data@),
    ensures
        out@ == text_payload(m.data@, ByteOrder::Little),
{
    let mut out: Vec<u8> = Vec::new();
    write_text(&mut out, m.data.as_slice());
    proof {
        assert(out@ =~= text_payload(m.data@, ByteOrder::Little));
    }
    out
}

/// Encodes the bare field sequence of a boolean-flag request: one byte.
pub fn encode_bool_request(r: &SetBoolSrvRequest) -> (out: Vec<u8>)
    ensures
        out@ == bool_request_payload(r.data),
{
    let mut out: Vec<u8> = Vec::new();
    write_bool(&mut out, r.data);
    out
}

/// Encodes the bare field sequence of a success/message response.
pub fn encode_bool_response(r: &SetBoolSrvResponse) -> (out: Vec<u8>)
    requires
        text_len_ok(r.message@),
    ensures
        out@ == bool_response_payload(r.success, r.message@, ByteOrder::Little),
{
    let mut out: Vec<u8> = Vec::new();
    write_bool(&mut out, r.success);
    write_text(&mut out, r.message.as_slice());
    proof {
        assert(out@ =~= bool_response_payload(r.success, r.message@, ByteOrder::Little));
    }
    out
}

/// Decodes the bare field sequence of a vector in the given order.
pub fn decode_vector3(data: &[u8], order: ByteOrder) -> (r: Result<VectorClass, DecodeError>)
    ensures
        r == spec_read_vector3(data@, order),
{
    match read_f64_bits_at(data, 0, order) {
        Err(e) => Err(e),
        Ok((x, n1)) => match read_f64_bits_at(data, n1, order) {
            Err(e) => Err(e),
            Ok((y, n2)) => match read_f64_bits_at(data, n2, order) {
                Err(e) => Err(e),
                Ok((z, _)) => Ok(VectorClass { x, y, z }),
            },
        },
    }
}

/// Decodes the bare field sequence of a text message in the given order.
pub fn decode_text_message(data: &[u8], order: ByteOrder) -> (r: Result<TextMessage, DecodeError>)
    ensures
        (match (r, spec_read_text_message(data@, order)) {
            (Ok(m), Ok(d)) => m.data@ == d,
            (Err(e), Err(se)) => e == se,
            _ => false,
        }),
{
    match read_text(data, 0, order) {
        Err(e) => Err(e),
        Ok((data_bytes, _)) => Ok(TextMessage { data: data_bytes }),
    }
}

/// Decodes the bare field sequence of a boolean-flag request.
pub fn decode_bool_request(data: &[u8]) -> (r: Result<SetBoolSrvRequest, DecodeError>)
    ensures
        r == spec_read_bool_request(data@),
{
    match read_bool_at(data, 0) {
        Err(e) => Err(e),
        Ok(b) => Ok(SetBoolSrvRequest { data: b }),
    }
}

/// Decodes the bare field sequence of a success/message response in the
/// given order.
pub fn decode_bool_response(data: &[u8], order: ByteOrder) -> (r: Result<
    SetBoolSrvResponse,
    DecodeError,
>)
    ensures
        (match (r, spec_read_bool_response(data@, order)) {
            (Ok(m), Ok((sb, sm))) => m.success == sb && m.message@ == sm,
            (Err(e), Err(se)) => e == se,
            _ => false,
        }),
{
    match read_bool_at(data, 0) {
        Err(e) => Err(e),
        Ok(success) => match read_text(data, 1, order) {
            Err(e) => Err(e),
            Ok((message, _)) => Ok(SetBoolSrvResponse { success, message }),
        },
    }
}

impl VectorClass {
    /// Builds a vector from the IEEE-754 bit patterns of its coordinates.
    pub fn new(x: u64, y: u64, z: u64) -> (r: Self)
        ensures
            r == (VectorClass { x, y, z }),
    {
        VectorClass { x, y, z }
    }

    /// Encodes this vector as a self-describing top-level buffer: the 4-byte
    /// encapsulation header, then 24 payload bytes.
    pub fn serialize(&self) -> (out: Vec<u8>)
        ensures
            out@ == spec_serialize_vector3(*self),
            out@.len() == 28,
    {
        let mut out: Vec<u8> = Vec::new();
        write_header(&mut out);
        let payload = encode_vector3(self);
        append_bytes(&mut out, payload.as_slice());
        proof {
            assert(out@ =~= spec_serialize_vector3(*self));
        }
        out
    }

    /// Decodes a self-describing top-level buffer into a vector, honouring
    /// the byte order its header declares.
    pub fn deserialize(data: Vec<u8>) -> (r: Result<Self, DecodeError>)
        ensures
            r == spec_deserialize_vector3(data@),
    {
        match read_header(data.as_slice()) {
            Err(e) => Err(e),
            Ok(order) => {
                let payload = slice_subrange(data.as_slice(), 4, data.len());
                proof {
                    assert(data@.subrange(4, data@.len() as int) =~= data@.skip(4));
                }
                decode_vector3(payload, order)
            },
        }
    }
}

impl TextMessage {
    /// Builds a text message from the text's bytes.
    pub fn new(data: Vec<u8>) -> (r: Self)
        ensures
            r.data@ == data@,
    {
        TextMessage { data }
    }

    /// Encodes this message as a self-describing top-level buffer.
    pub fn serialize(&self) -> (out: Vec<u8>)
        requires
            text_len_ok(self.data@),
        ensures
            out@ == spec_serialize_text_message(self.data@),
    {
        let mut out: Vec<u8> = Vec::new();
        write_header(&mut out);
        let payload = encode_text_message(self);
        append_bytes(&mut out, payload.as_slice());
        proof {
            assert(out@ =~= spec_serialize_text_message(self.data@));
        }
        out
    }

    /// Decodes a self-describing top-level buffer into a text message,
    /// honouring the byte order its header declares.
    pub fn deserialize(data: Vec<u8>) -> (r: Result<Self, DecodeError>)
        ensures
            (match (r, spec_deserialize_text_message(data@)) {
                (Ok(m), Ok(d)) => m.data@ == d,
                (Err(e), Err(se)) => e == se,
                _ => false,
            }),
    {
        match read_header(data.as_slice()) {
            Err(e) => Err(e),
            Ok(order) => {
                let payload = slice_subrange(data.as_slice(), 4, data.len());
                proof {
                    assert(data@.subrange(4, data@.len() as int) =~= data@.skip(4));
                }
                decode_text_message(payload, order)
            },
        }
    }
}

impl SetBoolSrvRequest {
    /// Builds a request from its flag.
    pub fn new(data: bool) -> (r: Self)
        ensures
            r == (SetBoolSrvRequest { data }),
    {
        SetBoolSrvRequest { data }
    }

    /// Encodes this request as a self-describing top-level buffer: the
    /// 4-byte encapsulation header, then the flag byte.
    pub fn serialize(&self) -> (out: Vec<u8>)
        ensures
            out@ == spec_serialize_bool_request(self.data),
            out@.len() == 5,
    {
        let mut out: Vec<u8> = Vec::new();
        write_header(&mut out);
        write_bool(&mut out, self.data);
        proof {
            assert(out@ =~= spec_serialize_bool_request(self.data));
        }
        out
    }

    /// Decodes a self-describing top-level buffer into a request.
    pub fn deserialize(data: Vec<u8>) -> (r: Result<Self, DecodeError>)
        ensures
            r == spec_deserialize_bool_request(data@),
    {
        match read_header(data.as_slice()) {
            Err(e) => Err(e),
            Ok(_) => {
                let payload = slice_subrange(data.as_slice(), 4, data.len());
                proof {
                    assert(data@.subrange(4, data@.len() as int) =~= data@.skip(4));
                }
                decode_bool_request(payload)
            },
        }
    }

    /// The request's flag.
    pub fn data(&self) -> (r: bool)
        ensures
            r == self.data,
    {
        self.data
    }
}

impl SetBoolSrvResponse {
    /// Builds a response from its success flag and the message's bytes.
    pub fn new(success: bool, message: Vec<u8>) -> (r: Self)
        ensures
            r.success == success,
            r.message@ == message@,
    {
        SetBoolSrvResponse { success, message }
    }

    /// Encodes this response as a self-describing top-level buffer.
    pub fn serialize(&self) -> (out: Vec<u8>)
        requires
            text_len_ok(self.message@),
        ensures
            out@ == spec_serialize_bool_response(self.success, self.message@),
    {
        let mut out: Vec<u8> = Vec::new();
        write_header(&mut out);
        let payload = encode_bool_response(self);
        append_bytes(&mut out, payload.as_slice());
        proof {
            assert(out@ =~= spec_serialize_bool_response(self.success, self.message@));
        }
        out
    }

    /// Decodes a self-describing top-level buffer into a response,
    /// honouring the byte order its header declares.
    pub fn deserialize(data: Vec<u8>) -> (r: Result<Self, DecodeError>)
        ensures
            (match (r, spec_deserialize_bool_response(data@)) {
                (Ok(m), Ok((sb, sm))) => m.success == sb && m.message@ == sm,
                (Err(e), Err(se)) => e == se,
                _ => false,
            }),
    {
        match read_header(data.as_slice()) {
            Err(e) => Err(e),
            Ok(order) => {
                let payload = slice_subrange(data.as_slice(), 4, data.len());
                proof {
                    assert(data@.subrange(4, data@.len() as int) =~= data@.skip(4));
                }
                decode_bool_response(payload, order)
            },
        }
    }

    /// The response's success flag.
    pub fn success(&self) -> (r: bool)
        ensures
            r == self.success,
    {
        self.success
    }

    /// A copy of the message's bytes.
    pub fn message(&self) -> (r: Vec<u8>)
        ensures
            r@ == self.message@,
    {
        slice_to_vec(self.message.as_slice())
    }
}

} // verus!
