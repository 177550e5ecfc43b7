//! Detection of the CIC variant that produced a boot code, by content
//! fingerprint.

use vstd::prelude::*;

use crate::cickinds::{spec_kind_from_hash, CICKind};
use crate::error::Ipl3ChecksumError;
use crate::utils;
use crate::utils::md5_hex_of;

verus! {

/// Size in bytes of an IPL3 boot code binary.
pub const IPL3_SIZE: usize = 0xFC0;

/// Identifies the CIC variant that produced an IPL3 boot code binary.
///
/// The input must be exactly the 0xFC0-byte boot code; any other length is
/// rejected. Succeeds exactly when the buffer's fingerprint belongs to a
/// known variant; otherwise the computed fingerprint is carried back.
pub fn detect_cic_raw(raw_bytes: &[u8]) -> (r: Result<CICKind, Ipl3ChecksumError>)
    ensures
        raw_bytes@.len() != 0xFC0 ==> r == Err::<CICKind, Ipl3ChecksumError>(
            Ipl3ChecksumError::BufferWrongSize {
                buffer_len: raw_bytes@.len() as usize,
                expected_len: 0xFC0,
            },
        ),
        raw_bytes@.len() == 0xFC0 ==> match spec_kind_from_hash(md5_hex_of(raw_bytes@)) {
            Some(kind) => r == Ok::<CICKind, Ipl3ChecksumError>(kind),
            None => r matches Err(Ipl3ChecksumError::UnrecognizedFingerprint { fingerprint })
                && fingerprint@ == md5_hex_of(raw_bytes@),
        },
{
    if raw_bytes.len() != IPL3_SIZE {
        return Err(Ipl3ChecksumError::BufferWrongSize {
            buffer_len: raw_bytes.len(),
            expected_len: IPL3_SIZE,
        });
    }
    let bytes_hash: String = utils::get_hash_md5(raw_bytes);
    CICKind::from_hash_md5(bytes_hash.as_str())
}

/// Identifies the CIC variant of a whole ROM by fingerprinting the boot code
/// stored at byte range 0x40..0x1000 of its header.
///
/// Fails with an out-of-bounds error when the ROM is shorter than 0x1000
/// bytes; otherwise behaves as `detect_cic_raw` on that byte range.
pub fn detect_cic(rom_bytes: &[u8]) -> (r: Result<CICKind, Ipl3ChecksumError>)
    ensures
        rom_bytes@.len() < 0x1000 ==> r == Err::<CICKind, Ipl3ChecksumError>(
            Ipl3ChecksumError::OutOfBounds {
                offset: 0x40,
                requested_bytes: 0xFC0,
                buffer_len: rom_bytes@.len() as usize,
            },
        ),
        rom_bytes@.len() >= 0x1000 ==> match spec_kind_from_hash(
            md5_hex_of(rom_bytes@.subrange(0x40, 0x1000)),
        ) {
            Some(kind) => r == Ok::<CICKind, Ipl3ChecksumError>(kind),
            None => r matches Err(Ipl3ChecksumError::UnrecognizedFingerprint { fingerprint })
                && fingerprint@ == md5_hex_of(rom_bytes@.subrange(0x40, 0x1000)),
        },
{
    if rom_bytes.len() < 0x1000 {
        return Err(Ipl3ChecksumError::OutOfBounds {
            offset: 0x40,
            requested_bytes: 0xFC0,
            buffer_len: rom_bytes.len(),
        });
    }
    detect_cic_raw(&rom_bytes[0x40..0x1000])
}

} // verus!
