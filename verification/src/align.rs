use vstd::prelude::*;

verus! {

/// The minimal non-negative padding that moves `offset` to a multiple of
/// `alignment`.
pub open spec fn spec_align(offset: int, alignment: int) -> int
    recommends
        0 <= offset,
        alignment == 1 || alignment == 4 || alignment == 8,
{
    (alignment - offset % alignment) % alignment
}

/// A run of `n` zero padding bytes.
pub open spec fn zeros(n: int) -> Seq<u8>
    recommends
        0 <= n,
{
    Seq::new(n as nat, |j: int| 0u8)
}

/// Returns the number of padding bytes to insert (on encode) or skip (on
/// decode) so that a field of natural alignment `field_alignment` starting
/// after them begins at an offset that is a multiple of its alignment.
/// Pure arithmetic; no error condition.
pub fn align(current_offset: usize, field_alignment: usize) -> (r: usize)
    requires
        field_alignment == 1 || field_alignment == 4 || field_alignment == 8,
    ensures
        r == spec_align(current_offset as int, field_alignment as int),
        r < field_alignment,
        (current_offset + r) % (field_alignment as int) == 0,
{
    let rem = current_offset % field_alignment;
    if rem == 0 {
        0
    } else {
        field_alignment - rem
    }
}

} // verus!
