use ipl3checksum::calculate_checksum;
use ipl3checksum::CICKind;
use ipl3checksum::Ipl3ChecksumError;

const ALL_KINDS: [CICKind; 7] = [
    CICKind::CIC_6101,
    CICKind::CIC_6102_7101,
    CICKind::CIC_7102,
    CICKind::CIC_X103,
    CICKind::CIC_X105,
    CICKind::CIC_X106,
    CICKind::CIC_5101,
];

/// A deterministic non-trivial ROM: byte `j` is `(j * 31 + 7) & 0xFF`.
fn patterned_rom(len: usize) -> Vec<u8> {
    let mut rom = vec![0u8; len];
    for (j, byte) in rom.iter_mut().enumerate() {
        *byte = ((j.wrapping_mul(31).wrapping_add(7)) & 0xFF) as u8;
    }
    rom
}

#[test]
fn zero_rom_golden_values() {
    let rom = vec![0u8; 0x101000];
    let cases: [(CICKind, u32, u32); 7] = [
        (CICKind::CIC_6101, 0xF8CA4DDC, 0x303A4DDC),
        (CICKind::CIC_6102_7101, 0xF8CA4DDC, 0x303A4DDC),
        (CICKind::CIC_7102, 0xF8CA4DDC, 0x303A4DDC),
        (CICKind::CIC_X103, 0xA3886759, 0x40EC6759),
        (CICKind::CIC_X105, 0xDF26F436, 0xDF26F436),
        (CICKind::CIC_X106, 0x04100F9E, 0x89F80F9E),
        (CICKind::CIC_5101, 0x95104FDD, 0xD4844FDD),
    ];
    for (kind, c0, c1) in cases {
        assert_eq!(calculate_checksum(&rom, kind), Ok((c0, c1)), "kind {:?}", kind);
    }
}

#[test]
fn patterned_rom_golden_values() {
    let rom = patterned_rom(0x101000);
    let cases: [(CICKind, u32, u32); 7] = [
        (CICKind::CIC_6101, 0xF6C453DE, 0xD7A09970),
        (CICKind::CIC_6102_7101, 0xF6C453DE, 0xD7A09970),
        (CICKind::CIC_7102, 0xF6C453DE, 0xD7A09970),
        (CICKind::CIC_X103, 0xA592715B, 0x7381A67C),
        (CICKind::CIC_X105, 0xDD10FA38, 0x7B639060),
        (CICKind::CIC_X106, 0x5141AE92, 0xBBD0EBBC),
        (CICKind::CIC_5101, 0x9B2A69DF, 0x5F333667),
    ];
    for (kind, c0, c1) in cases {
        assert_eq!(calculate_checksum(&rom, kind), Ok((c0, c1)), "kind {:?}", kind);
    }
}

#[test]
fn buffer_boundaries_per_variant() {
    // one byte under the required length fails with the exact lengths; the
    // required length itself succeeds
    let short = vec![0u8; 0x100FFF];
    let exact = vec![0u8; 0x101000];
    for kind in ALL_KINDS {
        assert_eq!(
            calculate_checksum(&short, kind),
            Err(Ipl3ChecksumError::BufferTooSmall {
                buffer_len: 0x100FFF,
                expected_len: 0x101000,
            }),
            "kind {:?}",
            kind
        );
        assert!(calculate_checksum(&exact, kind).is_ok(), "kind {:?}", kind);
    }
}

#[test]
fn aleck64_sentinel_entrypoint_extends_the_checked_region() {
    // adjusted entrypoint == 0x80000400 makes CIC_5101 check 0x3FE000 bytes
    let mut rom = vec![0u8; 0x3FF000];
    rom[8..12].copy_from_slice(&[0x80, 0x00, 0x04, 0x00]);
    assert_eq!(
        calculate_checksum(&rom, CICKind::CIC_5101),
        Ok((0x95104FDD, 0x106167DD))
    );

    let mut short = vec![0u8; 0x3FEFFF];
    short[8..12].copy_from_slice(&[0x80, 0x00, 0x04, 0x00]);
    assert_eq!(
        calculate_checksum(&short, CICKind::CIC_5101),
        Err(Ipl3ChecksumError::BufferTooSmall {
            buffer_len: 0x3FEFFF,
            expected_len: 0x3FF000,
        })
    );

    // any other entrypoint keeps the normal region size
    let mut other = vec![0u8; 0x101000];
    other[8..12].copy_from_slice(&[0x80, 0x00, 0x04, 0x04]);
    assert!(calculate_checksum(&other, CICKind::CIC_5101).is_ok());
}

#[test]
fn aleck64_rom_too_short_for_entrypoint_read() {
    let rom = vec![0u8; 8];
    assert_eq!(
        calculate_checksum(&rom, CICKind::CIC_5101),
        Err(Ipl3ChecksumError::OutOfBounds {
            offset: 8,
            requested_bytes: 4,
            buffer_len: 8,
        })
    );
    // other variants never read the entrypoint and go straight to the size check
    assert_eq!(
        calculate_checksum(&rom, CICKind::CIC_6102_7101),
        Err(Ipl3ChecksumError::BufferTooSmall {
            buffer_len: 8,
            expected_len: 0x101000,
        })
    );
}

#[test]
fn identical_inputs_give_identical_results() {
    let rom = patterned_rom(0x101000);
    let copy = rom.clone();
    let first = calculate_checksum(&rom, CICKind::CIC_X105);
    let second = calculate_checksum(&rom, CICKind::CIC_X105);
    assert_eq!(first, second);
    // the input buffer is not observably mutated
    assert_eq!(rom, copy);
}

#[test]
fn carry_counter_reference_traces() {
    // words of all ones wrap the running sum once per word; the traces were
    // computed independently, step by step
    let mut one_wrap = vec![0u8; 0x101000];
    one_wrap[0x1000..0x1004].copy_from_slice(&[0xFF; 4]);
    assert_eq!(
        calculate_checksum(&one_wrap, CICKind::CIC_6102_7101),
        Ok((0x0735B225, 0x39940006))
    );

    let mut three_wraps = vec![0u8; 0x101000];
    three_wraps[0x1000..0x100C].copy_from_slice(&[0xFF; 12]);
    assert_eq!(
        calculate_checksum(&three_wraps, CICKind::CIC_6102_7101),
        Ok((0x0735B225, 0x5C45C8E2))
    );
}

#[test]
fn finalization_families_differ_on_the_same_rom() {
    let rom = vec![0u8; 0x101000];
    let xor_add = calculate_checksum(&rom, CICKind::CIC_X103).unwrap();
    let multiplicative = calculate_checksum(&rom, CICKind::CIC_X106).unwrap();
    assert_ne!(xor_add, multiplicative);
}
