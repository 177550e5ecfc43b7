use ipl3checksum::calculate_checksum_autodetect;
use ipl3checksum::detect_cic;
use ipl3checksum::detect_cic_raw;
use ipl3checksum::read_u32;
use ipl3checksum::read_u32_vec;
use ipl3checksum::Ipl3ChecksumError;

#[test]
fn boot_code_size_is_checked_exactly() {
    for len in [0usize, 0xFBF, 0xFC1] {
        let bytes = vec![0u8; len];
        assert_eq!(
            detect_cic_raw(&bytes),
            Err(Ipl3ChecksumError::BufferWrongSize {
                buffer_len: len,
                expected_len: 0xFC0,
            }),
            "len {:#X}",
            len
        );
    }
}

#[test]
fn unknown_boot_code_reports_its_fingerprint() {
    let zeros = vec![0u8; 0xFC0];
    match detect_cic_raw(&zeros) {
        Err(Ipl3ChecksumError::UnrecognizedFingerprint { fingerprint }) => {
            // a 128-bit digest printed as hexadecimal, not the input echoed back
            assert_eq!(fingerprint.len(), 32);
            assert!(fingerprint.chars().all(|c| c.is_ascii_hexdigit()));

            let ones = vec![1u8; 0xFC0];
            match detect_cic_raw(&ones) {
                Err(Ipl3ChecksumError::UnrecognizedFingerprint { fingerprint: other }) => {
                    assert_ne!(fingerprint, other);
                }
                r => panic!("unexpected result {:?}", r),
            }
        }
        r => panic!("unexpected result {:?}", r),
    }
}

#[test]
fn rom_detection_needs_the_whole_header() {
    let rom = vec![0u8; 0xFFF];
    assert_eq!(
        detect_cic(&rom),
        Err(Ipl3ChecksumError::OutOfBounds {
            offset: 0x40,
            requested_bytes: 0xFC0,
            buffer_len: 0xFFF,
        })
    );
}

#[test]
fn rom_detection_matches_raw_detection_of_the_boot_code() {
    let mut rom = vec![0u8; 0x2000];
    for (j, byte) in rom.iter_mut().enumerate() {
        *byte = (j & 0xFF) as u8;
    }
    assert_eq!(detect_cic(&rom), detect_cic_raw(&rom[0x40..0x1000]));
}

#[test]
fn all_zero_rom_autodetect_fails_but_checksum_succeeds() {
    let rom = vec![0u8; 0x101000];
    // no real boot code present: detection must fail on the fingerprint
    assert!(matches!(
        calculate_checksum_autodetect(&rom),
        Err(Ipl3ChecksumError::UnrecognizedFingerprint { .. })
    ));
    assert!(matches!(
        detect_cic(&rom),
        Err(Ipl3ChecksumError::UnrecognizedFingerprint { .. })
    ));
}

#[test]
fn autodetect_surfaces_header_size_failures() {
    let rom = vec![0u8; 0x500];
    assert_eq!(
        calculate_checksum_autodetect(&rom),
        Err(Ipl3ChecksumError::OutOfBounds {
            offset: 0x40,
            requested_bytes: 0xFC0,
            buffer_len: 0x500,
        })
    );
}

#[test]
fn read_u32_reads_big_endian_words() {
    let bytes = [0x01u8, 0x02, 0x03, 0x04, 0xAA, 0xBB, 0xCC, 0xDD];
    assert_eq!(read_u32(&bytes, 0), Ok(0x01020304));
    assert_eq!(read_u32(&bytes, 4), Ok(0xAABBCCDD));
    assert_eq!(
        read_u32(&bytes, 2),
        Err(Ipl3ChecksumError::UnalignedRead { offset: 2 })
    );
    assert_eq!(
        read_u32(&bytes, 8),
        Err(Ipl3ChecksumError::OutOfBounds {
            offset: 8,
            requested_bytes: 4,
            buffer_len: 8,
        })
    );
}

#[test]
fn read_u32_vec_reads_runs_of_words() {
    let bytes = [0x01u8, 0x02, 0x03, 0x04, 0xAA, 0xBB, 0xCC, 0xDD];
    assert_eq!(read_u32_vec(&bytes, 0, 2), Ok(vec![0x01020304, 0xAABBCCDD]));
    assert_eq!(read_u32_vec(&bytes, 4, 1), Ok(vec![0xAABBCCDD]));
    assert_eq!(read_u32_vec(&bytes, 0, 0), Ok(vec![]));
    assert_eq!(
        read_u32_vec(&bytes, 0, 3),
        Err(Ipl3ChecksumError::OutOfBounds {
            offset: 8,
            requested_bytes: 4,
            buffer_len: 8,
        })
    );
    assert_eq!(
        read_u32_vec(&bytes, 2, 1),
        Err(Ipl3ChecksumError::UnalignedRead { offset: 2 })
    );
}
