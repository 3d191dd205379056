use vstd::prelude::*;

use crate::errors::DecodeError;
use crate::prim::ByteOrder;
use vstd::slice::slice_index_get;

verus! {

/// The 4-byte encapsulation header this codec emits: CDR little-endian
/// representation, two reserved option bytes of zero.
pub open spec fn header_le() -> Seq<u8> {
    seq![0u8, 1u8, 0u8, 0u8]
}

/// The byte order a recognized header pair declares: `0x00 0x01` is CDR
/// little-endian, `0x00 0x00` is CDR big-endian.
pub open spec fn recognized_order(b0: u8, b1: u8) -> Option<ByteOrder> {
    if b0 == 0x00 && b1 == 0x01 {
        Some(ByteOrder::Little)
    } else if b0 == 0x00 && b1 == 0x00 {
        Some(ByteOrder::Big)
    } else {
        None
    }
}

/// The order a whole top-level buffer's header declares, or the exact error:
/// truncation when the 4 header bytes are missing, an unsupported
/// encapsulation when the representation pair is not recognized.  The two
/// reserved option bytes are not validated.
pub open spec fn spec_read_header(s: Seq<u8>) -> Result<ByteOrder, DecodeError> {
    if s.len() < 4 {
        Err(DecodeError::TruncatedInput {
            offset: 0,
            needed: 4,
            available: s.len() as usize,
        })
    } else {
        match recognized_order(s[0], s[1]) {
            Some(order) => Ok(order),
            None => Err(DecodeError::UnsupportedEncapsulation { found0: s[0], found1: s[1] }),
        }
    }
}

/// Appends the 4-byte encapsulation header for CDR little-endian.
pub fn write_header(buf: &mut Vec<u8>)
    ensures
        final(buf)@ == old(buf)@ + header_le(),
{
    buf.push(0u8);
    buf.push(1u8);
    buf.push(0u8);
    buf.push(0u8);
    proof {
        assert(buf@ =~= old(buf)@ + header_le());
    }
}

/// Reads the encapsulation header of a top-level buffer and resolves the byte
/// order every later field read of that buffer must use.
pub fn read_header(data: &[u8]) -> (r: Result<ByteOrder, DecodeError>)
    ensures
        r == spec_read_header(data@),
{
    if data.len() < 4 {
        Err(DecodeError::TruncatedInput {
            offset: 0,
            needed: 4,
            available: data.len(),
        })
    } else {
        let b0 = *slice_index_get(data, 0);
        let b1 = *slice_index_get(data, 1);
        if b0 == 0x00 && b1 == 0x01 {
            Ok(ByteOrder::Little)
        } else if b0 == 0x00 && b1 == 0x00 {
            Ok(ByteOrder::Big)
        } else {
            Err(DecodeError::UnsupportedEncapsulation { found0: b0, found1: b1 })
        }
    }
}

} // verus!
