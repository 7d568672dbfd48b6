//! A codec for the IBM PC Master Boot Record (MBR) partition table.
//!
//! The MBR is the first 512-byte sector of a PC-style disk: 446 bytes of
//! bootstrap code, four 16-byte partition entries, and the two-byte boot
//! signature `0x55 0xAA`. This crate provides bit-exact encoding and
//! decoding of the three field types that make up a partition entry — the
//! packed Cylinder-Head-Sector address, the little-endian Logical Block
//! Address, and the 16-byte partition entry record — together with the
//! enumerations that give the raw status and type bytes meaning, and a
//! container for the whole 512-byte sector.
//!
//! All operations are pure value transformations over caller-owned byte
//! buffers; reading or writing the sector from a disk is left to callers.

use vstd::prelude::*;

pub mod chsa;
pub mod entry;
pub mod lba;
pub mod part;
pub mod sector;

pub use chsa::CylinderHeadSectorAddress;
pub use entry::PartitionEntry;
pub use lba::LogicalBlockAddress;
pub use part::PartitionStatus;
pub use part::PartitionType;
pub use sector::MbrSector;

verus! {

/// The MBR for IBM PC and compatibles has a defined size of 512 bytes.
pub const MBR_SIZE: u16 = 512;

/// The different variations of MBR that have existed historically.
///
/// These are informational only: the codec implements the layout shared by
/// all of them (partition table at offset 446, signature at offset 510).
pub enum Variations {
    Classical,
    Modern,
    AAP,
    NEWLDR,
    ASTDOS,
    Ontrack,
}

/// Failures the codec can report.
///
/// No condition is fatal: every decoding function returns one of these
/// rather than panicking or reading out of bounds. An unrecognized status
/// or type byte is *not* an error; it is preserved as a pass-through
/// variant of the corresponding enumeration.
#[derive(Clone, Copy, Debug, PartialEq, Eq, Structural)]
pub enum MbrError {
    /// The input buffer is shorter than the field being decoded (or, for
    /// the fixed-size sector, not exactly 512 bytes). Recoverable: the
    /// caller may retry with more data. Nothing is consumed.
    TruncatedInput,
    /// A 512-byte buffer lacks the boot signature `0x55 0xAA` at offset
    /// 510: the buffer is not an MBR sector.
    InvalidSignature,
}

} // verus!
