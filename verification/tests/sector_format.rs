use libmbr::MBR_SIZE;
use libmbr::MbrError;
use libmbr::MbrSector;
use libmbr::PartitionEntry;
use libmbr::PartitionStatus;

/// A bootable NTFS/exFAT entry: the worked 16-byte record.
const RECORD: [u8; 16] = [
    0x80, 0x01, 0x01, 0x00, 0x07, 0xfe, 0xff, 0xff, 0x3f, 0x00, 0x00, 0x00, 0x41, 0x0b, 0x0f,
    0x00,
];

/// A 512-byte sector with a patterned bootstrap area, the worked record
/// in slot 0, empty slots elsewhere, and a valid signature.
fn sample_sector_bytes() -> Vec<u8> {
    let mut bytes = vec![0u8; 512];
    for i in 0..446 {
        bytes[i] = (i % 251) as u8;
    }
    bytes[446..462].copy_from_slice(&RECORD);
    bytes[510] = 0x55;
    bytes[511] = 0xaa;
    bytes
}

#[test]
fn mbr_size_is_512() {
    assert_eq!(MBR_SIZE, 512);
}

#[test]
fn sector_missing_signature_is_rejected() {
    let mut bytes = sample_sector_bytes();
    bytes[511] = 0xab;
    assert!(matches!(
        MbrSector::read_from_bytes(&bytes),
        Err(MbrError::InvalidSignature)
    ));
    bytes[510] = 0x00;
    bytes[511] = 0x00;
    assert!(matches!(
        MbrSector::read_from_bytes(&bytes),
        Err(MbrError::InvalidSignature)
    ));
}

#[test]
fn sector_wrong_length_is_rejected() {
    let bytes = sample_sector_bytes();
    assert!(matches!(
        MbrSector::read_from_bytes(&bytes[..511]),
        Err(MbrError::TruncatedInput)
    ));
    let mut long = sample_sector_bytes();
    long.push(0);
    assert!(matches!(
        MbrSector::read_from_bytes(&long),
        Err(MbrError::TruncatedInput)
    ));
}

#[test]
fn sector_decode_reads_entries_and_bootstrap() {
    let bytes = sample_sector_bytes();
    let s = MbrSector::read_from_bytes(&bytes).unwrap();
    assert_eq!(s.get_bootstrap().as_slice(), &bytes[..446]);
    let e0 = s.get_entry(0);
    assert_eq!(e0.get_status(), PartitionStatus::Bootable);
    assert_eq!(e0.get_partition_type(), 0x07);
    assert_eq!(e0.get_lba_first().get_address(), 63);
    assert_eq!(e0.get_lba_length().get_address(), 985921);
    for i in 1..4 {
        assert_eq!(*s.get_entry(i), PartitionEntry::empty());
    }
}

#[test]
fn sector_round_trip_preserves_bytes() {
    let bytes = sample_sector_bytes();
    let s = MbrSector::read_from_bytes(&bytes).unwrap();
    assert_eq!(s.write_to_bytes(), bytes);
}

#[test]
fn empty_sector_encodes_zeroed_with_signature() {
    let encoded = MbrSector::empty().write_to_bytes();
    assert_eq!(encoded.len(), 512);
    assert!(encoded[..510].iter().all(|b| *b == 0));
    assert_eq!(encoded[510], 0x55);
    assert_eq!(encoded[511], 0xaa);
    assert!(MbrSector::read_from_bytes(&encoded).is_ok());
}

#[test]
fn sector_set_entry_updates_one_slot() {
    let entry = PartitionEntry::read_from_bytes(&RECORD).unwrap();
    let mut s = MbrSector::empty();
    s.set_entry(2, entry);
    assert_eq!(*s.get_entry(2), entry);
    assert_eq!(*s.get_entry(0), PartitionEntry::empty());
    assert_eq!(*s.get_entry(1), PartitionEntry::empty());
    assert_eq!(*s.get_entry(3), PartitionEntry::empty());
    let encoded = s.write_to_bytes();
    assert_eq!(&encoded[478..494], &RECORD);
    assert!(encoded[446..478].iter().all(|b| *b == 0));
    assert!(encoded[494..510].iter().all(|b| *b == 0));
}
