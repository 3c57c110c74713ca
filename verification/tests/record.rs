use king_os::record::{u32_from_le, u32_to_le, FileRecord};

#[test]
fn le_bytes_are_least_significant_first() {
    assert_eq!(u32_to_le(0x1234_5678), [0x78, 0x56, 0x34, 0x12]);
    assert_eq!(u32_to_le(0), [0, 0, 0, 0]);
    assert_eq!(u32_to_le(u32::MAX), [0xFF, 0xFF, 0xFF, 0xFF]);
    assert_eq!(u32_to_le(2049), [0x01, 0x08, 0x00, 0x00]);
}

#[test]
fn le_value_reads_at_an_offset() {
    let bytes = [0xAA, 0x78, 0x56, 0x34, 0x12, 0xBB];
    assert_eq!(u32_from_le(&bytes, 1), 0x1234_5678);
    assert_eq!(u32_from_le(&[0xFF, 0xFF, 0xFF, 0xFF], 0), u32::MAX);
}

#[test]
fn le_agrees_with_std() {
    for v in [0u32, 1, 255, 256, 65535, 65536, 0x00FF_FFFF, 0x0100_0000, 0xDEAD_BEEF, u32::MAX] {
        assert_eq!(u32_to_le(v), v.to_le_bytes());
        assert_eq!(u32_from_le(&v.to_le_bytes(), 0), v);
    }
}

#[test]
fn record_packs_into_seventeen_bytes() {
    let rec = FileRecord { name: *b"MAIN.RS ", start_sector: 2049, size: 5, active: 1 };
    let packed = rec.pack();
    assert_eq!(packed.len(), 17);
    assert_eq!(&packed[0..8], b"MAIN.RS ");
    assert_eq!(&packed[8..12], &[0x01, 0x08, 0x00, 0x00]);
    assert_eq!(&packed[12..16], &[5, 0, 0, 0]);
    assert_eq!(packed[16], 1);
}

#[test]
fn record_round_trips_through_its_packed_form() {
    let rec = FileRecord { name: *b"AB\0\0\0\0\0\0", start_sector: 0xCAFE_F00D, size: 512, active: 0 };
    let mut bytes = vec![0x55u8; 40];
    bytes[10..27].copy_from_slice(&rec.pack());
    assert_eq!(FileRecord::unpack(&bytes, 10), rec);
}
