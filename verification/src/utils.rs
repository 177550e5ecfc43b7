//! Byte-reading helpers shared by the detector and the checksum engine, and
//! the content-hash primitive the detector fingerprints boot code with.

use vstd::prelude::*;

use crate::error::Ipl3ChecksumError;

verus! {

/// The big-endian 32-bit word formed by the four bytes of `bytes` starting at
/// `offset`.
pub open spec fn word_at(bytes: Seq<u8>, offset: int) -> u32
    recommends
        0 <= offset,
        offset + 4 <= bytes.len(),
{
    (bytes[offset] * 0x100_0000 + bytes[offset + 1] * 0x1_0000 + bytes[offset + 2] * 0x100
        + bytes[offset + 3]) as u32
}

/// What `read_u32` returns: the word at `offset`, or the exact error that the
/// offset earns against this buffer.
pub open spec fn spec_read_u32(bytes: Seq<u8>, offset: usize) -> Result<u32, Ipl3ChecksumError> {
    if offset % 4 != 0 {
        Err(Ipl3ChecksumError::UnalignedRead { offset })
    } else if offset + 4 > bytes.len() {
        Err(Ipl3ChecksumError::OutOfBounds {
            offset,
            requested_bytes: 4,
            buffer_len: bytes.len() as usize,
        })
    } else {
        Ok(word_at(bytes, offset as int))
    }
}

/// Reads the big-endian 32-bit word stored at `offset`, which must be
/// four-byte aligned and wholly inside the buffer.
pub fn read_u32(bytes: &[u8], offset: usize) -> (r: Result<u32, Ipl3ChecksumError>)
    ensures
        r == spec_read_u32(bytes@, offset),
{
    if offset % 4 != 0 {
        return Err(Ipl3ChecksumError::UnalignedRead { offset });
    }
    let len: usize = bytes.len();
    if offset >= len || len - offset < 4 {
        return Err(Ipl3ChecksumError::OutOfBounds {
            offset,
            requested_bytes: 4,
            buffer_len: len,
        });
    }
    let b0: u8 = bytes[offset];
    let b1: u8 = bytes[offset + 1];
    let b2: u8 = bytes[offset + 2];
    let b3: u8 = bytes[offset + 3];
    let word: u32 = ((b0 as u32) << 24) | ((b1 as u32) << 16) | ((b2 as u32) << 8) | (b3 as u32);
    proof {
        assert(((b0 as u32) << 24) | ((b1 as u32) << 16) | ((b2 as u32) << 8) | (b3 as u32)
            == (b0 as u32) * 0x100_0000 + (b1 as u32) * 0x1_0000 + (b2 as u32) * 0x100
            + (b3 as u32)) by (bit_vector);
    }
    Ok(word)
}

/// How many whole 32-bit words fit between `offset` and the end of `bytes`.
pub open spec fn spec_words_available(bytes: Seq<u8>, offset: usize) -> int {
    if offset <= bytes.len() {
        (bytes.len() - offset) / 4
    } else {
        0
    }
}

/// Reads `len` consecutive big-endian 32-bit words starting at `offset`.
/// Succeeds exactly when every word lies inside the buffer at an aligned
/// offset; otherwise reports the error of the first read that fails.
pub fn read_u32_vec(bytes: &[u8], offset: usize, len: usize) -> (r: Result<
    Vec<u32>,
    Ipl3ChecksumError,
>)
    ensures
        (len == 0 || (offset % 4 == 0 && offset + 4 * len <= bytes@.len())) ==> (r matches Ok(v)
            && v@ == Seq::new(len as nat, |j: int| word_at(bytes@, offset + 4 * j))),
        len > 0 && offset % 4 != 0 ==> r == Err::<Vec<u32>, Ipl3ChecksumError>(
            Ipl3ChecksumError::UnalignedRead { offset },
        ),
        len > 0 && offset % 4 == 0 && offset + 4 * len > bytes@.len() ==> r == Err::<
            Vec<u32>,
            Ipl3ChecksumError,
        >(
            Ipl3ChecksumError::OutOfBounds {
                offset: (offset + 4 * spec_words_available(bytes@, offset)) as usize,
                requested_bytes: 4,
                buffer_len: bytes@.len() as usize,
            },
        ),
{
    let buffer_len: usize = bytes.len();
    let mut ret: Vec<u32> = Vec::new();
    let mut i: usize = 0;
    while i < len
        invariant
            i <= len,
            ret@.len() == i,
            bytes@.len() == buffer_len,
            i > 0 ==> offset % 4 == 0,
            i == 0 || offset + 4 * i <= bytes@.len(),
            forall|j: int| 0 <= j < i ==> ret@[j] == word_at(bytes@, offset + 4 * j),
        decreases len - i,
    {
        let cur: usize = offset + i * 4;
        match read_u32(bytes, cur) {
            Ok(word) => {
                ret.push(word);
            },
            Err(e) => {
                return Err(e);
            },
        }
        i = i + 1;
    }
    proof {
        assert(ret@ =~= Seq::new(len as nat, |j: int| word_at(bytes@, offset + 4 * j)));
    }
    Ok(ret)
}

/// `word` rotated left by `amount` bits, the bits shifted out at the top
/// re-entering at the bottom; rotating by zero is the identity.
pub open spec fn spec_rotl(word: u32, amount: u32) -> u32
    recommends
        amount < 32,
{
    if amount == 0 {
        word
    } else {
        (word << amount) | (word >> (32 - amount))
    }
}

/// True circular left rotation of a 32-bit word.
pub(crate) fn rotate_left_u32(word: u32, amount: u32) -> (r: u32)
    requires
        amount < 32,
    ensures
        r == spec_rotl(word, amount),
{
    if amount == 0 {
        word
    } else {
        (word << amount) | (word >> (32 - amount))
    }
}

/// Whether two strings hold the same sequence of characters.
pub fn str_eq(a: &str, b: &str) -> (r: bool)
    ensures
        r == (a@ == b@),
{
    let owned_a: String = a.to_owned();
    let owned_b: String = b.to_owned();
    owned_a == owned_b
}

/// The 32 lowercase hexadecimal digits of the 128-bit MD5 digest of `bytes`.
pub uninterp spec fn md5_hex_of(bytes: Seq<u8>) -> Seq<char>;

/// Relies on `md5::compute`, which returns the 16-byte MD5 digest of the
/// input, and on the md5 crate's `LowerHex` formatting of a digest, which
/// prints each digest byte as exactly two lowercase hexadecimal digits. The
/// result is a function of the input bytes alone.
#[verifier::external_body]
pub(crate) fn get_hash_md5(bytes: &[u8]) -> (r: String)
    ensures
        r@ == md5_hex_of(bytes@),
        r@.len() == 32,
{
    format!("{:x}", md5::compute(bytes))
}

} // verus!
