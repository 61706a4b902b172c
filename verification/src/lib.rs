//! A low-level, zero-copy decoder for the protocol-buffers wire encoding:
//! a stream of tag–value pairs whose byte layout is fixed by a 3-bit
//! wire-type code, decoded without a schema and without copying.

use vstd::prelude::*;

pub mod encoding;
pub mod field;
pub mod message;

pub use message::Message;

verus! {

/// The error type.
///
/// Every decoding failure — truncated input, malformed varint, illegal
/// field number zero, unknown wire type, over-long declared length,
/// invalid UTF-8 — is reported as this one value.
#[derive(Debug, PartialEq, Eq, Structural, Clone, Copy)]
pub struct Error;

} // verus!
