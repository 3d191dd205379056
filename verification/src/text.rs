use vstd::prelude::*;

use crate::align::{align, spec_align, zeros};
use crate::errors::DecodeError;
use crate::prim::{remaining, spec_read_u32, read_u32_at, write_u32_le, ByteOrder};
use vstd::slice::slice_index_get;

verus! {

/// A text field fits on the wire when its byte count plus the mandatory NUL
/// terminator fits the 4-byte length prefix.
pub open spec fn text_len_ok(data: Seq<u8>) -> bool {
    data.len() + 1 <= u32::MAX
}

/// The wire form of a length-prefixed text field, alignment padding
/// excluded: a 4-byte length counting the content bytes plus one for the
/// terminator, the content bytes, one NUL terminator byte.
pub open spec fn text_payload(data: Seq<u8>, order: ByteOrder) -> Seq<u8>
    recommends
        text_len_ok(data),
{
    u32_bytes_of_len(data, order) + data + seq![0u8]
}

/// The 4-byte length prefix a text field carries: content bytes plus one.
pub open spec fn u32_bytes_of_len(data: Seq<u8>, order: ByteOrder) -> Seq<u8> {
    crate::prim::u32_bytes((data.len() + 1) as u32, order)
}

/// The text read from `s` at or after `at`: skip to the next 4-byte
/// boundary, read the length `n`, take `n - 1` content bytes and discard the
/// terminator.  Fails with the exact `InvalidLength` error when `n` is zero
/// and the exact `TruncatedInput` error when the prefix or the `n` content
/// bytes do not fit.  Returns the content and the position just past the
/// terminator.
pub open spec fn spec_read_text(s: Seq<u8>, at: int, order: ByteOrder) -> Result<
    (Seq<u8>, int),
    DecodeError,
> {
    let i = at + spec_align(at, 4);
    match spec_read_u32(s, i, order) {
        Err(e) => Err(e),
        Ok(n) => if n == 0 {
            Err(DecodeError::InvalidLength { offset: i as usize })
        } else if i + 4 + n <= s.len() {
            Ok((s.subrange(i + 4, i + 4 + n - 1), i + 4 + n))
        } else {
            Err(DecodeError::TruncatedInput {
                offset: (i + 4) as usize,
                needed: n as usize,
                available: remaining(s, i + 4),
            })
        },
    }
}

/// Aligns the buffer to 4 with zero padding, then appends the 4-byte
/// little-endian length prefix, the content bytes and the NUL terminator.
pub fn write_text(buf: &mut Vec<u8>, data: &[u8])
    requires
        text_len_ok(data@),
    ensures
        final(buf)@ == old(buf)@ + zeros(spec_align(old(buf)@.len() as int, 4))
            + text_payload(data@, ByteOrder::Little),
{
    let ghost buf0 = buf@;
    let pad = align(buf.len(), 4);
    let mut k: usize = 0;
    while k < pad
        invariant
            k <= pad,
            pad < 4,
            buf@ == buf0 + zeros(k as int),
        decreases pad - k,
    {
        buf.push(0u8);
        k = k + 1;
        proof {
            assert(buf@ =~= buf0 + zeros(k as int));
        }
    }
    let ghost buf1 = buf@;
    let count: u32 = (data.len() + 1) as u32;
    write_u32_le(buf, count);
    let ghost buf2 = buf@;
    let mut j: usize = 0;
    while j < data.len()
        invariant
            j <= data@.len(),
            buf@ == buf2 + data@.take(j as int),
        decreases data@.len() - j,
    {
        buf.push(*slice_index_get(data, j));
        j = j + 1;
        proof {
            assert(buf@ =~= buf2 + data@.take(j as int));
        }
    }
    buf.push(0u8);
    proof {
        assert(data@.take(data@.len() as int) =~= data@);
        assert(buf@ =~= buf0 + zeros(pad as int) + text_payload(data@, ByteOrder::Little));
    }
}

/// Skips the padding before a text field at `at`, then reads its length
/// prefix and content in the given order.
pub fn read_text(data: &[u8], at: usize, order: ByteOrder) -> (r: Result<
    (Vec<u8>, usize),
    DecodeError,
>)
    requires
        at <= usize::MAX - 8,
    ensures
        (match (r, spec_read_text(data@, at as int, order)) {
            (Ok((v, n)), Ok((sv, sn))) => v@ == sv && n == sn,
            (Err(e), Err(se)) => e == se,
            _ => false,
        }),
{
    let pad = align(at, 4);
    let i = at + pad;
    let len = data.len();
    match read_u32_at(data, i, order) {
        Err(e) => Err(e),
        Ok(n) => {
            if n == 0 {
                Err(DecodeError::InvalidLength { offset: i })
            } else {
                proof {
                    assert(i + 4 <= len);
                }
                let need = n as usize;
                if need <= len - (i + 4) {
                    let content = vstd::slice::slice_subrange(data, i + 4, i + 4 + need - 1);
                    let out = vstd::slice::slice_to_vec(content);
                    Ok((out, i + 4 + need))
                } else {
                    Err(DecodeError::TruncatedInput {
                        offset: i + 4,
                        needed: need,
                        available: len - (i + 4),
                    })
                }
            }
        },
    }
}

} // verus!
