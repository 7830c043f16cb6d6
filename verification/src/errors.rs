//! The ways a header decode can fail.

use vstd::prelude::*;

verus! {

/// A decode-time failure.  Unknown enumerated codes are deliberately *not*
/// errors: they are resolved to fallback labels at presentation time.
#[derive(Clone, Copy, Debug, PartialEq, Eq, Structural)]
pub enum DecodeError {
    /// The buffer is shorter than the ident block, or ends before the end
    /// of some fixed-width field.
    TruncatedInput,
    /// The declared data encoding is neither little endian nor big endian,
    /// so no multi-byte field can be interpreted.
    UnsupportedEncoding,
}

} // verus!
