//! The checksum engine: the fixed-iteration, per-word transformation an
//! official CIC chip runs over the checked region of a ROM, with
//! variant-dependent initialization and finalization.

use vstd::prelude::*;
use vstd::wrapping::u32_specs;

use crate::cickinds::{spec_adjusted_entrypoint, spec_kind_from_hash, spec_magic, spec_seed,
    CICKind};
use crate::detect;
use crate::error::Ipl3ChecksumError;
use crate::utils;
use crate::utils::{md5_hex_of, spec_rotl, word_at};

verus! {

/// Size in bytes of the ROM header plus the IPL3 boot code; the checked
/// region starts right behind it.
pub const HEADER_IPL3_SIZE: usize = 0x1000;

/// The six 32-bit accumulator registers of the checksum engine. All start
/// from one derived seed value and each is updated once per processed word.
pub struct ChecksumState {
    /// Running wrapping sum of the words.
    pub sum: u32,
    /// Incremented once each time `sum` wraps around 2^32.
    pub carry_count: u32,
    /// XOR of all words.
    pub xor_acc: u32,
    /// Running wrapping sum of each word rotated by its own low five bits.
    pub weighted_sum: u32,
    /// Folds in either the running sum or the rotated word, whichever a
    /// per-word comparison selects.
    pub cond_acc: u32,
    /// Folds in the variant-dependent per-word term.
    pub mix_acc: u32,
}

/// The value all six accumulators start from: `seed * magic + 1`, wrapping.
pub open spec fn spec_initial_value(kind: CICKind) -> u32 {
    u32_specs::wrapping_add(u32_specs::wrapping_mul(spec_seed(kind), spec_magic(kind)), 1)
}

/// The engine's starting state for a variant.
pub open spec fn spec_initial_state(kind: CICKind) -> ChecksumState {
    let v0: u32 = spec_initial_value(kind);
    ChecksumState {
        sum: v0,
        carry_count: v0,
        xor_acc: v0,
        weighted_sum: v0,
        cond_acc: v0,
        mix_acc: v0,
    }
}

/// One step of the engine: how the accumulators change for one word `word`
/// of the checked region. `aux_word` is the auxiliary word that the variant
/// with the boot-code self-copy quirk folds in; every other variant ignores
/// it and folds in the just-updated `weighted_sum` instead.
pub open spec fn spec_step(kind: CICKind, word: u32, aux_word: u32, st: ChecksumState)
    -> ChecksumState {
    let new_sum: u32 = u32_specs::wrapping_add(st.sum, word);
    let new_carry_count: u32 = if new_sum < st.sum {
        u32_specs::wrapping_add(st.carry_count, 1)
    } else {
        st.carry_count
    };
    let rotated: u32 = spec_rotl(word, word & 0x1F);
    let new_xor_acc: u32 = st.xor_acc ^ word;
    let new_weighted_sum: u32 = u32_specs::wrapping_add(st.weighted_sum, rotated);
    let new_cond_acc: u32 = if st.cond_acc < word {
        st.cond_acc ^ (new_sum ^ word)
    } else {
        st.cond_acc ^ rotated
    };
    let mix_term: u32 = if kind == CICKind::CIC_X105 {
        word ^ aux_word
    } else {
        word ^ new_weighted_sum
    };
    let new_mix_acc: u32 = u32_specs::wrapping_add(st.mix_acc, mix_term);
    ChecksumState {
        sum: new_sum,
        carry_count: new_carry_count,
        xor_acc: new_xor_acc,
        weighted_sum: new_weighted_sum,
        cond_acc: new_cond_acc,
        mix_acc: new_mix_acc,
    }
}

/// The 32-bit word of the ROM at word index `i` (byte offset `4 * i`).
pub open spec fn spec_rom_word(rom: Seq<u8>, i: int) -> u32 {
    word_at(rom, 4 * i)
}

/// Word index, within the already-loaded region, of the auxiliary word the
/// self-copy-quirk variant folds in at loop index `i`: a 64-word window in
/// the boot code, selected by the low bits of `i`.
pub open spec fn spec_aux_word_index(i: int) -> int {
    i % 64 + 0x1D4
}

/// The engine's state after processing the first `n` words of the checked
/// region, which starts at byte offset 0x1000 (word index 0x400) of the ROM.
pub open spec fn spec_run(kind: CICKind, rom: Seq<u8>, n: nat) -> ChecksumState
    decreases n,
{
    if n == 0 {
        spec_initial_state(kind)
    } else {
        spec_step(
            kind,
            spec_rom_word(rom, 0x400 + (n - 1)),
            spec_rom_word(rom, spec_aux_word_index(n - 1)),
            spec_run(kind, rom, (n - 1) as nat),
        )
    }
}

/// The checksum pair a final accumulator state yields, by the variant's
/// finalization family: XOR-then-add, multiply-then-add, or pure XOR.
pub open spec fn spec_finalize(kind: CICKind, st: ChecksumState) -> (u32, u32) {
    match kind {
        CICKind::CIC_X103 | CICKind::CIC_5101 => (
            u32_specs::wrapping_add(st.sum ^ st.carry_count, st.xor_acc),
            u32_specs::wrapping_add(st.weighted_sum ^ st.cond_acc, st.mix_acc),
        ),
        CICKind::CIC_X106 => (
            u32_specs::wrapping_add(u32_specs::wrapping_mul(st.sum, st.carry_count), st.xor_acc),
            u32_specs::wrapping_add(
                u32_specs::wrapping_mul(st.weighted_sum, st.cond_acc),
                st.mix_acc,
            ),
        ),
        _ => (
            (st.sum ^ st.carry_count) ^ st.xor_acc,
            (st.weighted_sum ^ st.cond_acc) ^ st.mix_acc,
        ),
    }
}

/// How many bytes of the checked region the variant reads: normally
/// 0x100000; the entrypoint-dependent variant reads 0x3FE000 when the ROM's
/// adjusted entrypoint equals the sentinel address 0x80000400.
pub open spec fn spec_bytes_to_check(rom: Seq<u8>, kind: CICKind) -> int {
    if kind == CICKind::CIC_5101 && spec_adjusted_entrypoint(kind, word_at(rom, 8))
        == 0x80000400 {
        0x3FE000
    } else {
        0x100000
    }
}

/// What `calculate_checksum` returns for a ROM and a variant: the checksum
/// pair, or the exact error the input earns.
pub open spec fn spec_calculate_checksum(rom: Seq<u8>, kind: CICKind) -> Result<
    (u32, u32),
    Ipl3ChecksumError,
> {
    if kind == CICKind::CIC_5101 && rom.len() < 12 {
        Err(Ipl3ChecksumError::OutOfBounds {
            offset: 8,
            requested_bytes: 4,
            buffer_len: rom.len() as usize,
        })
    } else {
        let bytes_to_check: int = spec_bytes_to_check(rom, kind);
        if rom.len() < bytes_to_check + 0x1000 {
            Err(Ipl3ChecksumError::BufferTooSmall {
                buffer_len: rom.len() as usize,
                expected_len: (bytes_to_check + 0x1000) as usize,
            })
        } else {
            Ok(spec_finalize(kind, spec_run(kind, rom, (bytes_to_check / 4) as nat)))
        }
    }
}

/// The entrypoint address the ROM's header declares, adjusted as the variant
/// requires.
fn get_entrypoint_addr(rom_bytes: &[u8], kind: CICKind) -> (r: Result<u32, Ipl3ChecksumError>)
    ensures
        rom_bytes@.len() < 12 ==> r == Err::<u32, Ipl3ChecksumError>(
            Ipl3ChecksumError::OutOfBounds {
                offset: 8,
                requested_bytes: 4,
                buffer_len: rom_bytes@.len() as usize,
            },
        ),
        rom_bytes@.len() >= 12 ==> r == Ok::<u32, Ipl3ChecksumError>(
            spec_adjusted_entrypoint(kind, word_at(rom_bytes@, 8)),
        ),
{
    let entrypoint_addr: u32 = match utils::read_u32(rom_bytes, 8) {
        Ok(word) => word,
        Err(e) => {
            return Err(e);
        },
    };
    Ok(kind.get_entrypoint(entrypoint_addr))
}

/// Calculates the checksum an official CIC of the given variant computes
/// over a ROM.
///
/// `rom_bytes` are the ROM's bytes in big-endian word order; the checked
/// region follows the 0x1000-byte header-plus-boot-code prefix. Succeeds
/// exactly when the ROM holds the whole checked region; otherwise reports
/// how long the buffer was and how long it had to be.
pub fn calculate_checksum(rom_bytes: &[u8], kind: CICKind) -> (r: Result<
    (u32, u32),
    Ipl3ChecksumError,
>)
    ensures
        r == spec_calculate_checksum(rom_bytes@, kind),
{
    let seed: u32 = kind.get_seed();
    let magic: u32 = kind.get_magic();
    let v0: u32 = seed.wrapping_mul(magic).wrapping_add(1);

    // The entrypoint-dependent variant checks almost four times the normal
    // amount when the ROM's adjusted entrypoint equals the sentinel address.
    let bytes_to_check: u32 = if kind == CICKind::CIC_5101 {
        let entrypoint: u32 = match get_entrypoint_addr(rom_bytes, kind) {
            Ok(addr) => addr,
            Err(e) => {
                return Err(e);
            },
        };
        if entrypoint == 0x80000400 {
            0x3FE000
        } else {
            0x100000
        }
    } else {
        0x100000
    };

    let required_len: usize = bytes_to_check as usize + HEADER_IPL3_SIZE;
    if rom_bytes.len() < required_len {
        return Err(Ipl3ChecksumError::BufferTooSmall {
            buffer_len: rom_bytes.len(),
            expected_len: required_len,
        });
    }

    let rom_words: Vec<u32> = match utils::read_u32_vec(rom_bytes, 0, required_len / 4) {
        Ok(words) => words,
        Err(_) => {
            // Unreachable: the reads are aligned and the length check above
            // keeps them in bounds.
            proof {
                assert(false);
            }
            return Err(Ipl3ChecksumError::ByteConversion { offset: 0 });
        },
    };

    let words_to_check: usize = (bytes_to_check / 4) as usize;
    let mut state: ChecksumState = ChecksumState {
        sum: v0,
        carry_count: v0,
        xor_acc: v0,
        weighted_sum: v0,
        cond_acc: v0,
        mix_acc: v0,
    };
    let mut i: usize = 0;
    while i < words_to_check
        invariant
            i <= words_to_check,
            state == spec_run(kind, rom_bytes@, i as nat),
            words_to_check == spec_bytes_to_check(rom_bytes@, kind) / 4,
            words_to_check == 0x40000 || words_to_check == 0xFF800,
            rom_words@.len() == words_to_check + 0x400,
            forall|j: int| 0 <= j < rom_words@.len() ==> rom_words@[j] == spec_rom_word(
                rom_bytes@,
                j,
            ),
        decreases words_to_check - i,
    {
        let word: u32 = rom_words[i + 0x400];

        let new_sum: u32 = state.sum.wrapping_add(word);
        let new_carry_count: u32 = if new_sum < state.sum {
            state.carry_count.wrapping_add(1)
        } else {
            state.carry_count
        };

        proof {
            assert(word & 0x1F < 32) by (bit_vector);
        }
        let rotated: u32 = utils::rotate_left_u32(word, word & 0x1F);

        let new_xor_acc: u32 = state.xor_acc ^ word;
        let new_weighted_sum: u32 = state.weighted_sum.wrapping_add(rotated);
        let new_cond_acc: u32 = if state.cond_acc < word {
            state.cond_acc ^ (new_sum ^ word)
        } else {
            state.cond_acc ^ rotated
        };

        let new_mix_acc: u32 = if kind == CICKind::CIC_X105 {
            // The 6105 boot code copies a 0x330-byte stretch of itself; the
            // engine folds words of that stretch back in, one 64-word window
            // indexed by the low bits of the loop counter.
            proof {
                assert((i & 0x3F) | 0x80 == i % 64 + 0x80 && ((i & 0x3F) | 0x80) <= 0xBF)
                    by (bit_vector);
            }
            let aux_index: usize = ((i & 0x3F) | 0x80) + 0x154;
            let aux_word: u32 = rom_words[aux_index];
            state.mix_acc.wrapping_add(word ^ aux_word)
        } else {
            state.mix_acc.wrapping_add(word ^ new_weighted_sum)
        };

        state = ChecksumState {
            sum: new_sum,
            carry_count: new_carry_count,
            xor_acc: new_xor_acc,
            weighted_sum: new_weighted_sum,
            cond_acc: new_cond_acc,
            mix_acc: new_mix_acc,
        };
        i = i + 1;
    }

    let checksum0: u32;
    let checksum1: u32;
    match kind {
        CICKind::CIC_X103 | CICKind::CIC_5101 => {
            checksum0 = (state.sum ^ state.carry_count).wrapping_add(state.xor_acc);
            checksum1 = (state.weighted_sum ^ state.cond_acc).wrapping_add(state.mix_acc);
        },
        CICKind::CIC_X106 => {
            checksum0 = state.sum.wrapping_mul(state.carry_count).wrapping_add(state.xor_acc);
            checksum1 = state.weighted_sum.wrapping_mul(state.cond_acc).wrapping_add(
                state.mix_acc,
            );
        },
        _ => {
            checksum0 = (state.sum ^ state.carry_count) ^ state.xor_acc;
            checksum1 = (state.weighted_sum ^ state.cond_acc) ^ state.mix_acc;
        },
    }
    Ok((checksum0, checksum1))
}

/// Calculates the checksum of a ROM, detecting the CIC variant from the
/// ROM's own boot code first. Detection failures are surfaced as such,
/// distinctly from size failures of the engine.
pub fn calculate_checksum_autodetect(rom_bytes: &[u8]) -> (r: Result<
    (u32, u32),
    Ipl3ChecksumError,
>)
    ensures
        rom_bytes@.len() < 0x1000 ==> r == Err::<(u32, u32), Ipl3ChecksumError>(
            Ipl3ChecksumError::OutOfBounds {
                offset: 0x40,
                requested_bytes: 0xFC0,
                buffer_len: rom_bytes@.len() as usize,
            },
        ),
        rom_bytes@.len() >= 0x1000 ==> match spec_kind_from_hash(
            md5_hex_of(rom_bytes@.subrange(0x40, 0x1000)),
        ) {
            Some(kind) => r == spec_calculate_checksum(rom_bytes@, kind),
            None => r matches Err(Ipl3ChecksumError::UnrecognizedFingerprint { fingerprint })
                && fingerprint@ == md5_hex_of(rom_bytes@.subrange(0x40, 0x1000)),
        },
{
    let kind: CICKind = match detect::detect_cic(rom_bytes) {
        Ok(kind) => kind,
        Err(e) => {
            return Err(e);
        },
    };
    calculate_checksum(rom_bytes, kind)
}

/// Two checksum computations over the same ROM bytes and the same variant
/// agree: the result is a function of the inputs alone, and the engine keeps
/// no state between calls.
pub proof fn lemma_checksum_deterministic(
    rom: Seq<u8>,
    kind: CICKind,
    r1: Result<(u32, u32), Ipl3ChecksumError>,
    r2: Result<(u32, u32), Ipl3ChecksumError>,
)
    requires
        r1 == spec_calculate_checksum(rom, kind),
        r2 == spec_calculate_checksum(rom, kind),
    ensures
        r1 == r2,
{
}

/// The engine succeeds exactly when the ROM holds the whole checked region
/// behind the header: one byte less than the required length fails, the
/// required length itself succeeds, for every variant and every ROM.
pub proof fn lemma_checksum_exact_size_requirement(rom: Seq<u8>, kind: CICKind)
    ensures
        spec_calculate_checksum(rom, kind) is Ok <==> rom.len() >= spec_bytes_to_check(rom, kind)
            + 0x1000,
{
}

/// One engine step increments the carry counter exactly when adding the word
/// to the running sum overflows 32 bits, and leaves it unchanged otherwise;
/// the new running sum is the true sum reduced modulo 2^32.
pub proof fn lemma_step_carry_counts_overflow(
    kind: CICKind,
    word: u32,
    aux_word: u32,
    st: ChecksumState,
)
    ensures
        spec_step(kind, word, aux_word, st).carry_count == if st.sum + word >= 0x1_0000_0000 {
            u32_specs::wrapping_add(st.carry_count, 1)
        } else {
            st.carry_count
        },
        spec_step(kind, word, aux_word, st).sum == (st.sum + word) % 0x1_0000_0000,
{
}

/// How many of the first `n` engine steps overflow the running sum.
pub open spec fn spec_overflow_count(kind: CICKind, rom: Seq<u8>, n: nat) -> nat
    decreases n,
{
    if n == 0 {
        0
    } else {
        spec_overflow_count(kind, rom, (n - 1) as nat) + (
        if spec_run(kind, rom, (n - 1) as nat).sum + spec_rom_word(rom, 0x400 + (n - 1))
            >= 0x1_0000_0000 {
            1nat
        } else {
            0nat
        })
    }
}

/// Over a whole run the carry counter counts exactly the overflows of the
/// running sum: after `n` words it holds the initial value plus one per
/// overflow, reduced modulo 2^32.
pub proof fn lemma_run_carry_counts_overflows(kind: CICKind, rom: Seq<u8>, n: nat)
    ensures
        spec_run(kind, rom, n).carry_count == (spec_initial_value(kind) + spec_overflow_count(
            kind,
            rom,
            n,
        )) % 0x1_0000_0000,
    decreases n,
{
    if n == 0 {
        assert(spec_initial_value(kind) as int % 0x1_0000_0000 == spec_initial_value(kind));
    } else {
        let prev: nat = (n - 1) as nat;
        lemma_run_carry_counts_overflows(kind, rom, prev);
        let word: u32 = spec_rom_word(rom, 0x400 + (n - 1));
        let aux_word: u32 = spec_rom_word(rom, spec_aux_word_index(n - 1));
        let st = spec_run(kind, rom, prev);
        lemma_step_carry_counts_overflow(kind, word, aux_word, st);
        if st.sum + word >= 0x1_0000_0000 {
            vstd::arithmetic::div_mod::lemma_add_mod_noop(
                spec_initial_value(kind) + spec_overflow_count(kind, rom, prev),
                1,
                0x1_0000_0000,
            );
        }
    }
}

/// From identical accumulator states, the multiplicative finalization family
/// and the XOR/add finalization family produce different first checksum
/// words, whenever the multiplicative and the XOR combination of `sum` and
/// `carry_count` differ at all.
pub proof fn lemma_finalize_families_differ(st: ChecksumState)
    requires
        u32_specs::wrapping_mul(st.sum, st.carry_count) != st.sum ^ st.carry_count,
    ensures
        spec_finalize(CICKind::CIC_X106, st).0 != spec_finalize(CICKind::CIC_X103, st).0,
{
}

} // verus!
