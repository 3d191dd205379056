use vstd::prelude::*;

use crate::align::{align, spec_align, zeros};
use crate::errors::DecodeError;
use vstd::slice::slice_index_get;

verus! {

/// The byte order a buffer's multi-byte fields are laid out in.  Encoding
/// always emits little-endian; decoding resolves the order from the
/// encapsulation header and uses it for the remainder of that one buffer.
#[derive(Clone, Copy, Debug, PartialEq, Eq, Structural)]
pub enum ByteOrder {
    Little,
    Big,
}

/// The value represented by four bytes in little-endian order.
pub open spec fn u32_from(b0: u8, b1: u8, b2: u8, b3: u8) -> u32 {
    (b0 as u32) | ((b1 as u32) << 8) | ((b2 as u32) << 16) | ((b3 as u32) << 24)
}

/// The value represented by eight bytes in little-endian order.
pub open spec fn u64_from(b0: u8, b1: u8, b2: u8, b3: u8, b4: u8, b5: u8, b6: u8, b7: u8) -> u64 {
    (b0 as u64) | ((b1 as u64) << 8) | ((b2 as u64) << 16) | ((b3 as u64) << 24)
        | ((b4 as u64) << 32) | ((b5 as u64) << 40) | ((b6 as u64) << 48) | ((b7 as u64) << 56)
}

/// The four bytes of `v`, least significant first.
pub open spec fn u32_le_bytes(v: u32) -> Seq<u8> {
    seq![v as u8, (v >> 8) as u8, (v >> 16) as u8, (v >> 24) as u8]
}

/// The four bytes of `v`, most significant first.
pub open spec fn u32_be_bytes(v: u32) -> Seq<u8> {
    seq![(v >> 24) as u8, (v >> 16) as u8, (v >> 8) as u8, v as u8]
}

/// The four bytes of `v` in the given order.
pub open spec fn u32_bytes(v: u32, order: ByteOrder) -> Seq<u8> {
    match order {
        ByteOrder::Little => u32_le_bytes(v),
        ByteOrder::Big => u32_be_bytes(v),
    }
}

/// The eight bytes of `v`, least significant first.
pub open spec fn u64_le_bytes(v: u64) -> Seq<u8> {
    seq![
        v as u8,
        (v >> 8) as u8,
        (v >> 16) as u8,
        (v >> 24) as u8,
        (v >> 32) as u8,
        (v >> 40) as u8,
        (v >> 48) as u8,
        (v >> 56) as u8,
    ]
}

/// The eight bytes of `v`, most significant first.
pub open spec fn u64_be_bytes(v: u64) -> Seq<u8> {
    seq![
        (v >> 56) as u8,
        (v >> 48) as u8,
        (v >> 40) as u8,
        (v >> 32) as u8,
        (v >> 24) as u8,
        (v >> 16) as u8,
        (v >> 8) as u8,
        v as u8,
    ]
}

/// The eight bytes of `v` in the given order.
pub open spec fn u64_bytes(v: u64, order: ByteOrder) -> Seq<u8> {
    match order {
        ByteOrder::Little => u64_le_bytes(v),
        ByteOrder::Big => u64_be_bytes(v),
    }
}

/// The value whose bytes in the given order stand at `s[i .. i + 4]`.
pub open spec fn u32_at(s: Seq<u8>, i: int, order: ByteOrder) -> u32
    recommends
        0 <= i,
        i + 4 <= s.len(),
{
    match order {
        ByteOrder::Little => u32_from(s[i], s[i + 1], s[i + 2], s[i + 3]),
        ByteOrder::Big => u32_from(s[i + 3], s[i + 2], s[i + 1], s[i]),
    }
}

/// The value whose bytes in the given order stand at `s[i .. i + 8]`.
pub open spec fn u64_at(s: Seq<u8>, i: int, order: ByteOrder) -> u64
    recommends
        0 <= i,
        i + 8 <= s.len(),
{
    match order {
        ByteOrder::Little => u64_from(
            s[i], s[i + 1], s[i + 2], s[i + 3], s[i + 4], s[i + 5], s[i + 6], s[i + 7],
        ),
        ByteOrder::Big => u64_from(
            s[i + 7], s[i + 6], s[i + 5], s[i + 4], s[i + 3], s[i + 2], s[i + 1], s[i],
        ),
    }
}

/// The wire byte standing for a boolean: `0x01` for true, `0x00` for false.
pub open spec fn bool_byte(b: bool) -> u8 {
    if b {
        1
    } else {
        0
    }
}

/// Reassembling the bytes of a 32-bit value gives the value back.
pub proof fn lemma_u32_round_trip(v: u32, order: ByteOrder)
    ensures
        u32_at(u32_bytes(v, order), 0, order) == v,
{
    assert(u32_from(v as u8, (v >> 8) as u8, (v >> 16) as u8, (v >> 24) as u8) == v)
        by (bit_vector);
}

/// Reassembling the bytes of a 64-bit value gives the value back.
pub proof fn lemma_u64_round_trip(v: u64, order: ByteOrder)
    ensures
        u64_at(u64_bytes(v, order), 0, order) == v,
{
    assert(u64_from(
        v as u8,
        (v >> 8) as u8,
        (v >> 16) as u8,
        (v >> 24) as u8,
        (v >> 32) as u8,
        (v >> 40) as u8,
        (v >> 48) as u8,
        (v >> 56) as u8,
    ) == v) by (bit_vector);
}

/// Reading four bytes that are the encoding of `v` yields `v`, wherever they
/// stand in a larger buffer.
pub proof fn lemma_u32_at_subrange(s: Seq<u8>, i: int, v: u32, order: ByteOrder)
    requires
        0 <= i,
        i + 4 <= s.len(),
        s.subrange(i, i + 4) == u32_bytes(v, order),
    ensures
        u32_at(s, i, order) == v,
{
    let sub = s.subrange(i, i + 4);
    assert(sub[0] == s[i] && sub[1] == s[i + 1] && sub[2] == s[i + 2] && sub[3] == s[i + 3]);
    lemma_u32_round_trip(v, order);
}

/// Reading eight bytes that are the encoding of `v` yields `v`, wherever they
/// stand in a larger buffer.
pub proof fn lemma_u64_at_subrange(s: Seq<u8>, i: int, v: u64, order: ByteOrder)
    requires
        0 <= i,
        i + 8 <= s.len(),
        s.subrange(i, i + 8) == u64_bytes(v, order),
    ensures
        u64_at(s, i, order) == v,
{
    let sub = s.subrange(i, i + 8);
    assert(sub[0] == s[i] && sub[1] == s[i + 1] && sub[2] == s[i + 2] && sub[3] == s[i + 3]);
    assert(sub[4] == s[i + 4] && sub[5] == s[i + 5] && sub[6] == s[i + 6] && sub[7] == s[i + 7]);
    lemma_u64_round_trip(v, order);
}

/// The bytes remaining in `s` at and after position `i`, clamped at zero.
pub open spec fn remaining(s: Seq<u8>, i: int) -> usize {
    if i <= s.len() {
        (s.len() - i) as usize
    } else {
        0
    }
}

/// Appends the four bytes of `v` in little-endian order.
pub fn write_u32_le(buf: &mut Vec<u8>, v: u32)
    ensures
        final(buf)@ == old(buf)@ + u32_le_bytes(v),
{
    buf.push(#[verifier::truncate] (v as u8));
    buf.push(#[verifier::truncate] ((v >> 8) as u8));
    buf.push(#[verifier::truncate] ((v >> 16) as u8));
    buf.push(#[verifier::truncate] ((v >> 24) as u8));
    proof {
        assert(buf@ =~= old(buf)@ + u32_le_bytes(v));
    }
}

/// Appends the eight bytes of `v` in little-endian order.
pub fn write_u64_le(buf: &mut Vec<u8>, v: u64)
    ensures
        final(buf)@ == old(buf)@ + u64_le_bytes(v),
{
    buf.push(#[verifier::truncate] (v as u8));
    buf.push(#[verifier::truncate] ((v >> 8) as u8));
    buf.push(#[verifier::truncate] ((v >> 16) as u8));
    buf.push(#[verifier::truncate] ((v >> 24) as u8));
    buf.push(#[verifier::truncate] ((v >> 32) as u8));
    buf.push(#[verifier::truncate] ((v >> 40) as u8));
    buf.push(#[verifier::truncate] ((v >> 48) as u8));
    buf.push(#[verifier::truncate] ((v >> 56) as u8));
    proof {
        assert(buf@ =~= old(buf)@ + u64_le_bytes(v));
    }
}

/// Appends one boolean byte; its natural alignment is 1, so no padding is
/// ever needed before it.
pub fn write_bool(buf: &mut Vec<u8>, v: bool)
    ensures
        final(buf)@ == old(buf)@ + seq![bool_byte(v)],
{
    buf.push(if v { 1u8 } else { 0u8 });
    proof {
        assert(buf@ =~= old(buf)@ + seq![bool_byte(v)]);
    }
}

/// Aligns the buffer to 8 with zero padding, then appends the eight bytes of
/// an IEEE-754 double given as its bit pattern, little-endian.
pub fn write_f64_bits(buf: &mut Vec<u8>, bits: u64)
    ensures
        final(buf)@ == old(buf)@ + zeros(spec_align(old(buf)@.len() as int, 8))
            + u64_le_bytes(bits),
{
    let ghost buf0 = buf@;
    let pad = align(buf.len(), 8);
    let mut k: usize = 0;
    while k < pad
        invariant
            k <= pad,
            pad < 8,
            buf@ == buf0 + zeros(k as int),
        decreases pad - k,
    {
        buf.push(0u8);
        k = k + 1;
        proof {
            assert(buf@ =~= buf0 + zeros(k as int));
        }
    }
    write_u64_le(buf, bits);
}

/// The decoded value at `i`, or the exact truncation error when fewer than
/// four bytes remain there.
pub open spec fn spec_read_u32(s: Seq<u8>, i: int, order: ByteOrder) -> Result<u32, DecodeError> {
    if i + 4 <= s.len() {
        Ok(u32_at(s, i, order))
    } else {
        Err(DecodeError::TruncatedInput {
            offset: i as usize,
            needed: 4,
            available: remaining(s, i),
        })
    }
}

/// The decoded value at `i`, or the exact truncation error when fewer than
/// eight bytes remain there.
pub open spec fn spec_read_u64(s: Seq<u8>, i: int, order: ByteOrder) -> Result<u64, DecodeError> {
    if i + 8 <= s.len() {
        Ok(u64_at(s, i, order))
    } else {
        Err(DecodeError::TruncatedInput {
            offset: i as usize,
            needed: 8,
            available: remaining(s, i),
        })
    }
}

/// The decoded boolean at `i`: `0x00` is false, `0x01` is true, any other
/// byte is a malformed-input error.
pub open spec fn spec_read_bool(s: Seq<u8>, i: int) -> Result<bool, DecodeError> {
    if i + 1 <= s.len() {
        if s[i] == 0 {
            Ok(false)
        } else if s[i] == 1 {
            Ok(true)
        } else {
            Err(DecodeError::MalformedBoolean { offset: i as usize, found: s[i] })
        }
    } else {
        Err(DecodeError::TruncatedInput {
            offset: i as usize,
            needed: 1,
            available: remaining(s, i),
        })
    }
}

/// Reads a 32-bit value laid out in the given order at `offset`.
pub fn read_u32_at(data: &[u8], offset: usize, order: ByteOrder) -> (r: Result<u32, DecodeError>)
    ensures
        r == spec_read_u32(data@, offset as int, order),
{
    if data.len() >= 4 && offset <= data.len() - 4 {
        let b0 = *slice_index_get(data, offset);
        let b1 = *slice_index_get(data, offset + 1);
        let b2 = *slice_index_get(data, offset + 2);
        let b3 = *slice_index_get(data, offset + 3);
        match order {
            ByteOrder::Little => Ok(
                (b0 as u32) | ((b1 as u32) << 8) | ((b2 as u32) << 16) | ((b3 as u32) << 24),
            ),
            ByteOrder::Big => Ok(
                (b3 as u32) | ((b2 as u32) << 8) | ((b1 as u32) << 16) | ((b0 as u32) << 24),
            ),
        }
    } else {
        Err(DecodeError::TruncatedInput {
            offset,
            needed: 4,
            available: if offset <= data.len() {
                data.len() - offset
            } else {
                0
            },
        })
    }
}

/// Reads a 64-bit value laid out in the given order at `offset`.
pub fn read_u64_at(data: &[u8], offset: usize, order: ByteOrder) -> (r: Result<u64, DecodeError>)
    ensures
        r == spec_read_u64(data@, offset as int, order),
{
    if data.len() >= 8 && offset <= data.len() - 8 {
        let b0 = *slice_index_get(data, offset);
        let b1 = *slice_index_get(data, offset + 1);
        let b2 = *slice_index_get(data, offset + 2);
        let b3 = *slice_index_get(data, offset + 3);
        let b4 = *slice_index_get(data, offset + 4);
        let b5 = *slice_index_get(data, offset + 5);
        let b6 = *slice_index_get(data, offset + 6);
        let b7 = *slice_index_get(data, offset + 7);
        match order {
            ByteOrder::Little => Ok(
                (b0 as u64) | ((b1 as u64) << 8) | ((b2 as u64) << 16) | ((b3 as u64) << 24)
                    | ((b4 as u64) << 32) | ((b5 as u64) << 40) | ((b6 as u64) << 48)
                    | ((b7 as u64) << 56),
            ),
            ByteOrder::Big => Ok(
                (b7 as u64) | ((b6 as u64) << 8) | ((b5 as u64) << 16) | ((b4 as u64) << 24)
                    | ((b3 as u64) << 32) | ((b2 as u64) << 40) | ((b1 as u64) << 48)
                    | ((b0 as u64) << 56),
            ),
        }
    } else {
        Err(DecodeError::TruncatedInput {
            offset,
            needed: 8,
            available: if offset <= data.len() {
                data.len() - offset
            } else {
                0
            },
        })
    }
}

/// Reads the boolean byte at `offset`, rejecting any value other than
/// `0x00` and `0x01`.
pub fn read_bool_at(data: &[u8], offset: usize) -> (r: Result<bool, DecodeError>)
    ensures
        r == spec_read_bool(data@, offset as int),
{
    if offset < data.len() {
        let b = *slice_index_get(data, offset);
        if b == 0 {
            Ok(false)
        } else if b == 1 {
            Ok(true)
        } else {
            Err(DecodeError::MalformedBoolean { offset, found: b })
        }
    } else {
        Err(DecodeError::TruncatedInput {
            offset,
            needed: 1,
            available: 0,
        })
    }
}

/// The aligned position of a double field starting at or after `at`, its
/// value, and the position just past it; or the exact error.
pub open spec fn spec_read_f64_bits(s: Seq<u8>, at: int, order: ByteOrder) -> Result<
    (u64, int),
    DecodeError,
> {
    let i = at + spec_align(at, 8);
    match spec_read_u64(s, i, order) {
        Ok(v) => Ok((v, i + 8)),
        Err(e) => Err(e),
    }
}

/// Skips the padding an 8-byte field needs at `at`, then reads its bit
/// pattern in the given order.  Padding content is not validated.
pub fn read_f64_bits_at(data: &[u8], at: usize, order: ByteOrder) -> (r: Result<
    (u64, usize),
    DecodeError,
>)
    requires
        at <= usize::MAX - 8,
    ensures
        (match (r, spec_read_f64_bits(data@, at as int, order)) {
            (Ok((v, n)), Ok((sv, sn))) => v == sv && n == sn,
            (Err(e), Err(se)) => e == se,
            _ => false,
        }),
{
    let pad = align(at, 8);
    let i = at + pad;
    let n = data.len();
    match read_u64_at(data, i, order) {
        Ok(v) => {
            proof {
                assert(i + 8 <= n);
            }
            Ok((v, i + 8))
        },
        Err(e) => Err(e),
    }
}

} // verus!
