//! A verified codec for CDR-style binary messages.
//!
//! The crate encodes strongly typed, fixed-schema records (a numeric vector,
//! a length-prefixed text message, a boolean-flag request and a
//! success/message response) into their byte-exact wire representation and
//! back.  Encoding is always little-endian; decoding honours the byte order
//! declared by the 4-byte encapsulation header.  Every encode and decode
//! function carries a contract that pins the exact bytes produced, the exact
//! value recovered, and the exact error returned on malformed input.

pub mod align;
pub mod errors;
pub mod header;
pub mod laws;
pub mod prim;
pub mod records;
pub mod text;
