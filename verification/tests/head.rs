use allwinner_hal::head::{EgonHead, HeadField};

#[test]
fn head_field_offsets() {
    assert_eq!(EgonHead::MAGIC_SIZE, 8);
    assert_eq!(HeadField::Checksum.offset(), 0x08);
    assert_eq!(HeadField::Length.offset(), 0x0C);
    assert_eq!(HeadField::HeadSize.offset(), 0x10);
    assert_eq!(HeadField::FelScriptAddress.offset(), 0x14);
    assert_eq!(HeadField::FelUenvLength.offset(), 0x18);
    assert_eq!(HeadField::DtNameOffset.offset(), 0x1C);
    assert_eq!(HeadField::DramSize.offset(), 0x20);
    assert_eq!(HeadField::BootMedia.offset(), 0x24);
    assert_eq!(EgonHead::STRING_POOL_OFFSET, 0x28);
    assert_eq!(EgonHead::STRING_POOL_SLOTS, 13);
    assert_eq!(EgonHead::SIZE, 0x28 + 13 * 4);
    assert_eq!(EgonHead::SIZE, 0x5C);
}

#[test]
fn head_offset_constants() {
    assert_eq!(EgonHead::MAGIC_OFFSET, 0x00);
    assert_eq!(EgonHead::CHECKSUM_OFFSET, 0x08);
    assert_eq!(EgonHead::LENGTH_OFFSET, 0x0C);
    assert_eq!(EgonHead::HEAD_SIZE_OFFSET, 0x10);
    assert_eq!(EgonHead::FEL_SCRIPT_ADDRESS_OFFSET, 0x14);
    assert_eq!(EgonHead::FEL_UENV_LENGTH_OFFSET, 0x18);
    assert_eq!(EgonHead::DT_NAME_OFFSET_OFFSET, 0x1C);
    assert_eq!(EgonHead::DRAM_SIZE_OFFSET, 0x20);
    assert_eq!(EgonHead::BOOT_MEDIA_OFFSET, 0x24);
    assert_eq!(EgonHead::STRING_POOL_OFFSET, 0x28);
}

#[test]
fn fresh_head_values() {
    let head = EgonHead::new();
    assert_eq!(head.checksum(), 0x5F0A6C39);
    assert_eq!(head.length(), 0x8000);
    assert_eq!(EgonHead::CHECKSUM_STAMP, 0x5F0A6C39);
    assert_eq!(EgonHead::DEFAULT_LENGTH, 0x8000);
}

#[test]
fn fresh_head_serialises_to_the_documented_layout() {
    let bytes = EgonHead::new().to_bytes();
    let mut expected = Vec::new();
    expected.extend_from_slice(b"eGON.BT0");
    expected.extend_from_slice(&[0x39, 0x6C, 0x0A, 0x5F]); // checksum
    expected.extend_from_slice(&[0x00, 0x80, 0x00, 0x00]); // length
    expected.extend_from_slice(&[0u8; 4]); // head size
    expected.extend_from_slice(&[0u8; 4]); // fel script address
    expected.extend_from_slice(&[0u8; 4]); // fel uenv length
    expected.extend_from_slice(&[0u8; 4]); // dt name offset
    expected.extend_from_slice(&[0u8; 4]); // dram size
    expected.extend_from_slice(&[0u8; 4]); // boot media
    expected.extend_from_slice(&[0u8; 52]); // string pool
    assert_eq!(bytes.len(), 0x5C);
    assert_eq!(bytes, expected);

    assert_eq!(&bytes[0x00..0x08], b"eGON.BT0");
    assert_eq!(&bytes[0x08..0x0C], &0x5F0A6C39u32.to_le_bytes());
    assert_eq!(&bytes[0x0C..0x10], &0x8000u32.to_le_bytes());
    assert!(bytes[0x10..].iter().all(|&byte| byte == 0));
}

#[test]
fn packed_head_carries_checksum_and_length() {
    let mut head = EgonHead::new();
    head.set_checksum(0x89AB_CDEF);
    head.set_length(0x0001_2340);
    assert_eq!(head.checksum(), 0x89AB_CDEF);
    assert_eq!(head.length(), 0x0001_2340);
    let bytes = head.to_bytes();
    assert_eq!(&bytes[0x00..0x08], b"eGON.BT0");
    assert_eq!(&bytes[0x08..0x0C], &[0xEF, 0xCD, 0xAB, 0x89]);
    assert_eq!(&bytes[0x0C..0x10], &[0x40, 0x23, 0x01, 0x00]);
    assert!(bytes[0x10..].iter().all(|&byte| byte == 0));
    assert_eq!(bytes.len(), EgonHead::SIZE);
}
