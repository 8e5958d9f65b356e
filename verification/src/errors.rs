//! Typed errors raised by the sentence and message layers.
use vstd::prelude::*;

verus! {

/// A typed decoding error. Every failure of the sentence layer or of a
/// message decoder is reported through one of these variants; no decoder
/// panics or recovers on its own.
#[derive(Debug, PartialEq, Eq)]
pub enum Error {
    /// Malformed sentence syntax: a missing comma or `*`, a bad digit, a
    /// fill-bit count of six or more, or similar framing trouble.
    Nmea { msg: String },
    /// The checksum computed over the sentence or tag-block body differs
    /// from the declared one.
    Checksum { expected: u8, found: u8 },
    /// A payload byte lies outside the 6-bit armor alphabet.
    ArmorOutOfRange { value: u8 },
    /// A bit-level read ran off the end of the payload.
    UnexpectedEnd,
    /// A decoded 6-bit ASCII region was not valid UTF-8. Unreachable for
    /// values produced by 6-bit reads; kept as a defensive variant.
    TextDecode,
    /// A fragment arrived with a mismatched group id or an out-of-order
    /// fragment index.
    FragmentSequence,
    /// The 6-bit message type at the head of the bitstream maps to no
    /// implemented decoder.
    UnimplementedType { value: u8 },
}

} // verus!
