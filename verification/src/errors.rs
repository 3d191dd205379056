use vstd::prelude::*;

verus! {

/// Why a single decode call failed.  Every failure is terminal for that call:
/// no partial record is returned and no state is mutated before failing.
///
/// Offsets are relative to the record's own field sequence (the bytes after
/// the encapsulation header, when one is present).
#[derive(Clone, Copy, Debug, PartialEq, Eq, Structural)]
pub enum DecodeError {
    /// Fewer bytes remain than the field starting at `offset` requires.
    TruncatedInput { offset: usize, needed: usize, available: usize },
    /// The text length prefix at `offset` is zero; a length must account for
    /// at least the trailing NUL terminator.
    InvalidLength { offset: usize },
    /// The first two header bytes are not a recognized representation.
    UnsupportedEncapsulation { found0: u8, found1: u8 },
    /// The boolean byte at `offset` is neither `0x00` nor `0x01`.
    MalformedBoolean { offset: usize, found: u8 },
}

} // verus!
