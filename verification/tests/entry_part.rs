use libmbr::MbrError;
use libmbr::PartitionEntry;
use libmbr::PartitionStatus;
use libmbr::PartitionType;

/// The worked 16-byte record used by several tests: a bootable NTFS/exFAT
/// partition starting at LBA 63 with 985921 sectors.
const RECORD: [u8; 16] = [
    0x80, 0x01, 0x01, 0x00, 0x07, 0xfe, 0xff, 0xff, 0x3f, 0x00, 0x00, 0x00, 0x41, 0x0b, 0x0f,
    0x00,
];

#[test]
fn status_classification_is_total() {
    for x in 0..=255u8 {
        let s = PartitionStatus::from(x);
        if x == 0x00 {
            assert_eq!(s, PartitionStatus::NotBootable);
        } else if x == 0x80 {
            assert_eq!(s, PartitionStatus::Bootable);
        } else {
            assert_eq!(s, PartitionStatus::Invalid);
        }
    }
}

#[test]
fn status_to_byte_round_trip() {
    assert_eq!(PartitionStatus::NotBootable.to_byte(), 0x00);
    assert_eq!(PartitionStatus::Bootable.to_byte(), 0x80);
    assert_eq!(PartitionStatus::Invalid.to_byte(), 0x7f);
    for s in [
        PartitionStatus::NotBootable,
        PartitionStatus::Bootable,
        PartitionStatus::Invalid,
    ] {
        assert_eq!(PartitionStatus::from(s.to_byte()), s);
    }
}

#[test]
fn type_recognized_codes() {
    assert_eq!(PartitionType::from(0x00), PartitionType::Empty);
    assert_eq!(PartitionType::from(0x01), PartitionType::DosFat12);
    assert_eq!(PartitionType::from(0x06), PartitionType::Dos331Fat16);
    assert_eq!(PartitionType::from(0x07), PartitionType::NtfsExfat);
    assert_eq!(PartitionType::from(0x0a), PartitionType::OS2BootManger);
    assert_eq!(PartitionType::from(0x0b), PartitionType::Win95Fat32);
    assert_eq!(PartitionType::from(0x0c), PartitionType::Win95Fat32LBA);
    assert_eq!(PartitionType::from(0x0e), PartitionType::Win95Fat16LBA);
    assert_eq!(PartitionType::from(0x0f), PartitionType::Win95ExtendedLBA);
    assert_eq!(PartitionType::from(0x11), PartitionType::HiddenDosFat12);
}

#[test]
fn type_unrecognized_codes_pass_through() {
    assert_eq!(PartitionType::from(0x0d), PartitionType::Unrecognized(0x0d));
    assert_eq!(PartitionType::from(0x10), PartitionType::Unrecognized(0x10));
    assert_eq!(PartitionType::from(0x83), PartitionType::Unrecognized(0x83));
}

#[test]
fn type_byte_round_trip_is_lossless() {
    for x in 0..=255u8 {
        assert_eq!(PartitionType::from(x).to_byte(), x);
    }
}

#[test]
fn empty_entry_encodes_to_sixteen_zero_bytes() {
    assert_eq!(PartitionEntry::empty().write_to_bytes(), [0u8; 16]);
}

#[test]
fn empty_entry_round_trip() {
    let encoded = PartitionEntry::empty().write_to_bytes();
    let decoded = PartitionEntry::read_from_bytes(&encoded).unwrap();
    assert_eq!(decoded, PartitionEntry::empty());
    assert_eq!(decoded.get_status(), PartitionStatus::NotBootable);
    assert_eq!(decoded.get_partition_type(), 0x00);
    assert_eq!(decoded.get_lba_length().get_address(), 0);
}

#[test]
fn entry_end_to_end_record() {
    let e = PartitionEntry::read_from_bytes(&RECORD).unwrap();
    assert_eq!(e.get_status(), PartitionStatus::Bootable);
    let first = e.get_chs_first();
    assert_eq!(first.get_cylinder(), 0);
    assert_eq!(first.get_head(), 1);
    assert_eq!(first.get_sector(), 1);
    assert_eq!(e.get_partition_type(), 0x07);
    assert_eq!(PartitionType::from(e.get_partition_type()), PartitionType::NtfsExfat);
    let last = e.get_chs_last();
    assert_eq!(last.get_cylinder(), 1023);
    assert_eq!(last.get_head(), 254);
    assert_eq!(last.get_sector(), 63);
    assert_eq!(e.get_lba_first().get_address(), 63);
    assert_eq!(e.get_lba_length().get_address(), 985921);
    assert_eq!(e.write_to_bytes(), RECORD);
}

#[test]
fn entry_decode_truncated() {
    assert_eq!(
        PartitionEntry::read_from_bytes(&RECORD[..15]),
        Err(MbrError::TruncatedInput)
    );
}

#[test]
fn entry_unrecognized_status_becomes_invalid_marker() {
    let mut bytes = RECORD;
    bytes[0] = 0x42;
    let e = PartitionEntry::read_from_bytes(&bytes).unwrap();
    assert_eq!(e.get_status(), PartitionStatus::Invalid);
    let reencoded = e.write_to_bytes();
    assert_eq!(reencoded[0], 0x7f);
    assert_eq!(&reencoded[1..], &bytes[1..]);
}
