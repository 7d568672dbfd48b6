//! The status and type enumerations of a partition entry.
//!
//! Both are closed sets of recognized one-byte codes with a fallback path,
//! so that classifying a raw byte is total and never fails:
//!
//! - `PartitionStatus` maps every byte other than the two recognized
//!   values to an `Invalid` marker;
//! - `PartitionType` retains an unrecognized code as its raw byte, since
//!   the type byte space is operator-extensible and unknown codes are
//!   legitimate — no information is lost on re-encode.

use vstd::prelude::*;

verus! {

/// The byte encoding the `Invalid` status marker: a value outside both
/// recognized status bytes, so that re-encoding an unrecognized status
/// never silently claims the slot bootable or plainly non-bootable.
pub const INVALID_STATUS_BYTE: u8 = 0x7f;

/// The bootable or not bootable status of a partition.
///
/// Classification of a raw status byte is total: the two recognized
/// values get their named variant, every other byte maps to `Invalid`,
/// which preserves "unrecognized but not absent" semantics.
#[derive(Clone, Copy, Debug, PartialEq, Eq, Structural)]
pub enum PartitionStatus {
    /// Status byte `0x00`.
    NotBootable,
    /// Any status byte other than `0x00` and `0x80`.
    Invalid,
    /// Status byte `0x80`.
    Bootable,
}

/// The status a raw status byte classifies as.
pub open spec fn status_from_byte(value: u8) -> PartitionStatus {
    if value == 0x00 {
        PartitionStatus::NotBootable
    } else if value == 0x80 {
        PartitionStatus::Bootable
    } else {
        PartitionStatus::Invalid
    }
}

/// The byte a status encodes as. `Invalid` encodes as the designated
/// marker byte `0x7F`.
pub open spec fn status_to_byte(status: PartitionStatus) -> u8 {
    match status {
        PartitionStatus::NotBootable => 0x00,
        PartitionStatus::Invalid => INVALID_STATUS_BYTE,
        PartitionStatus::Bootable => 0x80,
    }
}

/// The status bytes that survive a decode-encode round trip unchanged:
/// the two recognized values and the `Invalid` marker itself.
pub open spec fn status_byte_round_trips(value: u8) -> bool {
    value == 0x00 || value == INVALID_STATUS_BYTE || value == 0x80
}

impl From<u8> for PartitionStatus {
    /// Classify a raw status byte. Total: never fails.
    fn from(value: u8) -> (r: Self) {
        if value == 0x00 {
            PartitionStatus::NotBootable
        } else if value == 0x80 {
            PartitionStatus::Bootable
        } else {
            PartitionStatus::Invalid
        }
    }
}

impl vstd::std_specs::convert::FromSpecImpl<u8> for PartitionStatus {
    open spec fn obeys_from_spec() -> bool {
        true
    }

    open spec fn from_spec(value: u8) -> Self {
        status_from_byte(value)
    }
}

impl PartitionStatus {
    /// Encode the status as its on-disk byte.
    pub fn to_byte(&self) -> (r: u8)
        ensures
            r == status_to_byte(*self),
    {
        match self {
            PartitionStatus::NotBootable => 0x00,
            PartitionStatus::Invalid => INVALID_STATUS_BYTE,
            PartitionStatus::Bootable => 0x80,
        }
    }
}

/// Law: classification of a status byte is total, and exact: `0x00` is the
/// one byte classified `NotBootable`, `0x80` the one byte classified
/// `Bootable`, and every other byte is classified `Invalid`.
pub proof fn lemma_status_classification_total(value: u8)
    ensures
        (status_from_byte(value) == PartitionStatus::NotBootable) <==> value == 0x00,
        (status_from_byte(value) == PartitionStatus::Bootable) <==> value == 0x80,
        (status_from_byte(value) == PartitionStatus::Invalid) <==> (value != 0x00 && value != 0x80),
{
}

/// Law: encoding any status and classifying the byte again gives the
/// status back; classifying a byte and re-encoding reproduces the byte
/// exactly when the byte is one that round-trips.
pub proof fn lemma_status_round_trip(status: PartitionStatus, value: u8)
    ensures
        status_from_byte(status_to_byte(status)) == status,
        (status_to_byte(status_from_byte(value)) == value) <==> status_byte_round_trips(value),
{
}

/// The recognized one-byte partition type codes, with unrecognized codes
/// retained as their raw byte.
///
/// The type byte tells what content a partition holds. The named variants
/// are the recognized codes; every other byte is carried through in
/// `Unrecognized`, so classification is total and re-encoding loses
/// nothing.
#[derive(Clone, Copy, Debug, PartialEq, Eq, Structural)]
pub enum PartitionType {
    /// Code `0x00`: the table entry is empty.
    Empty,
    /// Code `0x01`: obsolete as of MS-DOS 3.3.
    DosFat12,
    /// Code `0x02`: obsolete — old Unix V7 port.
    XenixRoot,
    /// Code `0x03`: obsolete — old Unix V7 port.
    XenixUsr,
    /// Code `0x04`: obsolete — sub-32-MiB partitions from DOS 3.0.
    Dos3Fat16,
    /// Code `0x05`: obsolete — DOS 3.3+ extended partition.
    Dos3Extended,
    /// Code `0x06`: DOS 3.31 FAT 16.
    Dos331Fat16,
    /// Code `0x07`: NTFS and exFAT use the same id.
    NtfsExfat,
    /// Code `0x08`: AIX boot partition.
    AixBoot,
    /// Code `0x09`: AIX data partition.
    AixData,
    /// Code `0x0A`: OS/2 boot manager.
    OS2BootManger,
    /// Code `0x0B`.
    Win95Fat32,
    /// Code `0x0C`: LBA version of `Win95Fat32`.
    Win95Fat32LBA,
    /// Code `0x0E`: avoid if MS-DOS is also used.
    Win95Fat16LBA,
    /// Code `0x0F`: avoid if MS-DOS is also used.
    Win95ExtendedLBA,
    /// Code `0x11`: hidden by OS/2.
    HiddenDosFat12,
    /// Any code outside the recognized set, carried through verbatim.
    Unrecognized(u8),
}

/// The partition type a raw type byte classifies as.
pub open spec fn type_from_byte(value: u8) -> PartitionType {
    match value {
        0x00 => PartitionType::Empty,
        0x01 => PartitionType::DosFat12,
        0x02 => PartitionType::XenixRoot,
        0x03 => PartitionType::XenixUsr,
        0x04 => PartitionType::Dos3Fat16,
        0x05 => PartitionType::Dos3Extended,
        0x06 => PartitionType::Dos331Fat16,
        0x07 => PartitionType::NtfsExfat,
        0x08 => PartitionType::AixBoot,
        0x09 => PartitionType::AixData,
        0x0a => PartitionType::OS2BootManger,
        0x0b => PartitionType::Win95Fat32,
        0x0c => PartitionType::Win95Fat32LBA,
        0x0e => PartitionType::Win95Fat16LBA,
        0x0f => PartitionType::Win95ExtendedLBA,
        0x11 => PartitionType::HiddenDosFat12,
        _ => PartitionType::Unrecognized(value),
    }
}

/// The byte a partition type encodes as.
pub open spec fn type_to_byte(ptype: PartitionType) -> u8 {
    match ptype {
        PartitionType::Empty => 0x00,
        PartitionType::DosFat12 => 0x01,
        PartitionType::XenixRoot => 0x02,
        PartitionType::XenixUsr => 0x03,
        PartitionType::Dos3Fat16 => 0x04,
        PartitionType::Dos3Extended => 0x05,
        PartitionType::Dos331Fat16 => 0x06,
        PartitionType::NtfsExfat => 0x07,
        PartitionType::AixBoot => 0x08,
        PartitionType::AixData => 0x09,
        PartitionType::OS2BootManger => 0x0a,
        PartitionType::Win95Fat32 => 0x0b,
        PartitionType::Win95Fat32LBA => 0x0c,
        PartitionType::Win95Fat16LBA => 0x0e,
        PartitionType::Win95ExtendedLBA => 0x0f,
        PartitionType::HiddenDosFat12 => 0x11,
        PartitionType::Unrecognized(value) => value,
    }
}

impl From<u8> for PartitionType {
    /// Classify a raw type byte. Total: an unrecognized code is retained
    /// as its raw value, never rejected.
    fn from(value: u8) -> (r: Self) {
        match value {
            0x00 => PartitionType::Empty,
            0x01 => PartitionType::DosFat12,
            0x02 => PartitionType::XenixRoot,
            0x03 => PartitionType::XenixUsr,
            0x04 => PartitionType::Dos3Fat16,
            0x05 => PartitionType::Dos3Extended,
            0x06 => PartitionType::Dos331Fat16,
            0x07 => PartitionType::NtfsExfat,
            0x08 => PartitionType::AixBoot,
            0x09 => PartitionType::AixData,
            0x0a => PartitionType::OS2BootManger,
            0x0b => PartitionType::Win95Fat32,
            0x0c => PartitionType::Win95Fat32LBA,
            0x0e => PartitionType::Win95Fat16LBA,
            0x0f => PartitionType::Win95ExtendedLBA,
            0x11 => PartitionType::HiddenDosFat12,
            _ => PartitionType::Unrecognized(value),
        }
    }
}

impl vstd::std_specs::convert::FromSpecImpl<u8> for PartitionType {
    open spec fn obeys_from_spec() -> bool {
        true
    }

    open spec fn from_spec(value: u8) -> Self {
        type_from_byte(value)
    }
}

impl PartitionType {
    /// Encode the partition type as its on-disk byte.
    pub fn to_byte(&self) -> (r: u8)
        ensures
            r == type_to_byte(*self),
    {
        match self {
            PartitionType::Empty => 0x00,
            PartitionType::DosFat12 => 0x01,
            PartitionType::XenixRoot => 0x02,
            PartitionType::XenixUsr => 0x03,
            PartitionType::Dos3Fat16 => 0x04,
            PartitionType::Dos3Extended => 0x05,
            PartitionType::Dos331Fat16 => 0x06,
            PartitionType::NtfsExfat => 0x07,
            PartitionType::AixBoot => 0x08,
            PartitionType::AixData => 0x09,
            PartitionType::OS2BootManger => 0x0a,
            PartitionType::Win95Fat32 => 0x0b,
            PartitionType::Win95Fat32LBA => 0x0c,
            PartitionType::Win95Fat16LBA => 0x0e,
            PartitionType::Win95ExtendedLBA => 0x0f,
            PartitionType::HiddenDosFat12 => 0x11,
            PartitionType::Unrecognized(value) => *value,
        }
    }
}

/// Law: classifying any type byte and re-encoding reproduces the byte
/// exactly — no information is lost on the fallback path.
pub proof fn lemma_type_byte_round_trip(value: u8)
    ensures
        type_to_byte(type_from_byte(value)) == value,
{
}

} // verus!
