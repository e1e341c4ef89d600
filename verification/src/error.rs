use vstd::prelude::*;

verus! {

/// Everything that can go wrong while building or decoding a chunk.
///
/// Every fallible operation of this crate reports exactly one of these
/// kinds; nothing is swallowed or logged internally.
#[derive(Clone, Copy, Debug, PartialEq, Eq, Structural)]
pub enum PngError {
    /// A textual type tag was not exactly 4 bytes long when encoded.
    TagLengthMismatch,
    /// A byte buffer was shorter than the declared chunk size during parsing.
    TruncatedInput,
    /// The checksum recomputed during parsing differs from the stored one.
    ChecksumMismatch,
    /// A payload was asked for as text but is not well-formed UTF-8.
    NotUtf8,
    /// A payload is too long for the 32-bit length field of the wire layout.
    LengthOverflow,
}

} // verus!
