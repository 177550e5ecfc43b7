//! Computation of the checksum an official Nintendo 64 CIC (boot-lockout)
//! chip derives from a cartridge ROM's boot code, and detection of the CIC
//! variant that produced a given boot code.
//!
//! The checksum engine runs a fixed-iteration transformation over the checked
//! region of the ROM, one big-endian 32-bit word at a time, with per-variant
//! seed and finalization constants; the detector fingerprints the boot code
//! by content hash and resolves it against the registry of known variants.

pub mod checksum;
pub mod cickinds;
pub mod detect;
pub mod error;
pub mod utils;

pub use checksum::{calculate_checksum, calculate_checksum_autodetect};
pub use cickinds::CICKind;
pub use detect::{detect_cic, detect_cic_raw};
pub use error::Ipl3ChecksumError;
pub use utils::{read_u32, read_u32_vec};
