//! Typed failures surfaced by the checksum engine, the detector and the
//! variant registry.

use vstd::prelude::*;

verus! {

/// Every fallible operation of this crate reports one of these kinds; no
/// failure is signalled any other way.
#[derive(Clone, Debug, PartialEq, Eq)]
pub enum Ipl3ChecksumError {
    /// A 32-bit word read was requested at an offset that is not a multiple
    /// of four.
    UnalignedRead { offset: usize },
    /// The four bytes of a 32-bit word read could not be assembled. Kept as a
    /// defensive kind; no operation of this crate produces it.
    ByteConversion { offset: usize },
    /// A read would run past the end of the buffer.
    OutOfBounds { offset: usize, requested_bytes: usize, buffer_len: usize },
    /// The ROM buffer is shorter than the checked region the variant requires.
    BufferTooSmall { buffer_len: usize, expected_len: usize },
    /// The boot code handed to the detector does not have its exact expected
    /// size.
    BufferWrongSize { buffer_len: usize, expected_len: usize },
    /// The boot code's content fingerprint matches no known CIC variant; the
    /// computed fingerprint is carried for diagnostics.
    UnrecognizedFingerprint { fingerprint: String },
    /// A registry lookup by name, alias or numeric id found no variant.
    NameOrIdNotFound,
}

} // verus!
