use libmbr::CylinderHeadSectorAddress;
use libmbr::LogicalBlockAddress;
use libmbr::MbrError;

#[test]
fn chs_empty_is_all_zero() {
    let c = CylinderHeadSectorAddress::empty();
    assert_eq!(c.get_head(), 0);
    assert_eq!(c.get_sector(), 0);
    assert_eq!(c.get_cylinder(), 0);
    assert_eq!(c.write_to_bytes(), [0u8, 0u8, 0u8]);
}

#[test]
fn chs_set_cylinder_round_trip() {
    for v in [0u16, 1, 2, 255, 256, 511, 512, 777, 1022, 1023] {
        let mut c = CylinderHeadSectorAddress::empty();
        c.set_cylinder(v);
        assert_eq!(c.get_cylinder(), v);
    }
}

#[test]
fn chs_set_cylinder_preserves_sector_and_head() {
    let mut c = CylinderHeadSectorAddress::empty();
    c.set_head(7);
    c.set_sector(33);
    c.set_cylinder(1023);
    assert_eq!(c.get_head(), 7);
    assert_eq!(c.get_sector(), 33);
    assert_eq!(c.get_cylinder(), 1023);
}

#[test]
fn chs_set_cylinder_truncates_high_bits() {
    let mut c = CylinderHeadSectorAddress::empty();
    c.set_cylinder(1029);
    assert_eq!(c.get_cylinder(), 5);
    c.set_cylinder(2000);
    assert_eq!(c.get_cylinder(), 2000 & 0x3ff);
}

#[test]
fn chs_set_sector_preserves_cylinder_and_head() {
    let mut c = CylinderHeadSectorAddress::empty();
    c.set_head(200);
    c.set_cylinder(777);
    c.set_sector(63);
    assert_eq!(c.get_sector(), 63);
    assert_eq!(c.get_cylinder(), 777);
    assert_eq!(c.get_head(), 200);
}

#[test]
fn chs_set_sector_truncates_high_bits() {
    let mut c = CylinderHeadSectorAddress::empty();
    c.set_sector(67);
    assert_eq!(c.get_sector(), 3);
}

#[test]
fn chs_set_head_round_trip() {
    let mut c = CylinderHeadSectorAddress::empty();
    c.set_cylinder(1023);
    c.set_sector(13);
    c.set_head(255);
    assert_eq!(c.get_head(), 255);
    assert_eq!(c.get_cylinder(), 1023);
    assert_eq!(c.get_sector(), 13);
}

#[test]
fn chs_decode_then_encode_reproduces_bytes() {
    for b in [[0xfeu8, 0xff, 0xff], [0x01, 0x01, 0x00], [0x00, 0xc0, 0x12], [0xab, 0x55, 0xcd]] {
        let c = CylinderHeadSectorAddress::read_from_bytes(&b).unwrap();
        assert_eq!(c.write_to_bytes(), b);
    }
}

#[test]
fn chs_decode_unpacks_fields() {
    let c = CylinderHeadSectorAddress::read_from_bytes(&[0xfe, 0xff, 0xff]).unwrap();
    assert_eq!(c.get_head(), 254);
    assert_eq!(c.get_sector(), 63);
    assert_eq!(c.get_cylinder(), 1023);
}

#[test]
fn chs_decode_truncated() {
    assert_eq!(
        CylinderHeadSectorAddress::read_from_bytes(&[1, 2]),
        Err(MbrError::TruncatedInput)
    );
}

#[test]
fn lba_empty_is_zero() {
    let l = LogicalBlockAddress::empty();
    assert_eq!(l.get_address(), 0);
    assert_eq!(l.write_to_bytes(), [0u8, 0, 0, 0]);
}

#[test]
fn lba_decode_of_encode_is_identity() {
    for v in [0u32, 1, 63, 985921, 1000001, 0x0102_0304, u32::MAX] {
        let mut l = LogicalBlockAddress::empty();
        l.set_address(v);
        let bytes = l.write_to_bytes();
        let mut cursor: &[u8] = &bytes;
        let back = LogicalBlockAddress::read_from_bytes(&mut cursor).unwrap();
        assert_eq!(back.get_address(), v);
        assert!(cursor.is_empty());
    }
}

#[test]
fn lba_encodes_little_endian() {
    let mut l = LogicalBlockAddress::empty();
    l.set_address(0x0403_0201);
    assert_eq!(l.write_to_bytes(), [0x01, 0x02, 0x03, 0x04]);
    l.set_address(63);
    assert_eq!(l.write_to_bytes(), [0x3f, 0x00, 0x00, 0x00]);
}

#[test]
fn lba_decodes_little_endian() {
    let bytes = [0x41u8, 0x0b, 0x0f, 0x00];
    let mut cursor: &[u8] = &bytes;
    let l = LogicalBlockAddress::read_from_bytes(&mut cursor).unwrap();
    assert_eq!(l.get_address(), 985921);
}

#[test]
fn lba_read_advances_cursor() {
    let bytes = [1u8, 0, 0, 0, 2, 0, 0, 0];
    let mut cursor: &[u8] = &bytes;
    let first = LogicalBlockAddress::read_from_bytes(&mut cursor).unwrap();
    assert_eq!(first.get_address(), 1);
    assert_eq!(cursor.len(), 4);
    let second = LogicalBlockAddress::read_from_bytes(&mut cursor).unwrap();
    assert_eq!(second.get_address(), 2);
    assert_eq!(cursor.len(), 0);
}

#[test]
fn lba_truncated_consumes_nothing() {
    let bytes = [9u8, 8, 7];
    let mut cursor: &[u8] = &bytes;
    assert_eq!(
        LogicalBlockAddress::read_from_bytes(&mut cursor),
        Err(MbrError::TruncatedInput)
    );
    assert_eq!(cursor, &[9u8, 8, 7]);
}
