use king_os::directory::{
    create, first_active, first_free, format_image, is_formatted, list, open_file, read_record,
    resize_open_file, write_record, DIR_SECTOR,
};
use king_os::record::FileRecord;

#[test]
fn formatted_image_is_magic_then_zeros() {
    let image = format_image();
    assert_eq!(image[0], b'K');
    assert!(image[1..].iter().all(|&b| b == 0));
    assert!(is_formatted(&image));
    assert!(!is_formatted(&[0u8; 512]));
}

#[test]
fn formatted_directory_is_empty() {
    let image = format_image();
    assert_eq!(first_active(&image), None);
    assert_eq!(first_free(&image), Some(0));
    assert!(list(&image).is_empty());
    assert_eq!(open_file(&image), None);
}

#[test]
fn create_claims_slots_in_order_and_assigns_sectors() {
    let mut image = format_image();
    for slot in 0..15usize {
        assert_eq!(create(&mut image), Some(slot));
        let rec = read_record(&image, slot);
        assert_eq!(&rec.name, b"MAIN.RS ");
        assert_eq!(rec.start_sector, DIR_SECTOR + 1 + slot as u32);
        assert_eq!(rec.size, 0);
        assert_eq!(rec.active, 1);
    }
    let full = image;
    assert_eq!(create(&mut image), None);
    assert_eq!(image, full);
    assert_eq!(list(&image).len(), 15);
}

#[test]
fn records_sit_at_sixteen_plus_seventeen_per_slot() {
    let mut image = format_image();
    let rec = FileRecord { name: *b"ABCDEFGH", start_sector: 0x0102_0304, size: 0x0A0B_0C0D, active: 1 };
    write_record(&mut image, 3, &rec);
    let at = 16 + 17 * 3;
    assert_eq!(&image[at..at + 8], b"ABCDEFGH");
    assert_eq!(&image[at + 8..at + 12], &[4, 3, 2, 1]);
    assert_eq!(&image[at + 12..at + 16], &[0x0D, 0x0C, 0x0B, 0x0A]);
    assert_eq!(image[at + 16], 1);
    assert_eq!(image[0], b'K');
    assert!(image[1..at].iter().all(|&b| b == 0));
    assert!(image[at + 17..].iter().all(|&b| b == 0));
    assert_eq!(read_record(&image, 3), rec);
}

#[test]
fn last_slot_ends_inside_the_sector() {
    let mut image = [0xEEu8; 512];
    let rec = FileRecord { name: *b"LASTSLOT", start_sector: 7, size: 9, active: 1 };
    write_record(&mut image, 14, &rec);
    assert_eq!(read_record(&image, 14), rec);
    assert!(image[16 + 17 * 15..].iter().all(|&b| b == 0xEE));
}

#[test]
fn first_active_skips_free_slots() {
    let mut image = format_image();
    let rec = FileRecord { name: *b"FILE    ", start_sector: 2060, size: 3, active: 1 };
    write_record(&mut image, 5, &rec);
    assert_eq!(first_active(&image), Some(5));
    assert_eq!(first_free(&image), Some(0));
    assert_eq!(open_file(&image), Some((5, rec)));
    assert_eq!(list(&image), vec![rec]);
}

#[test]
fn a_slot_that_is_neither_free_nor_active_is_skipped_by_both_scans() {
    let mut image = format_image();
    let odd = FileRecord { name: *b"ODD     ", start_sector: 2049, size: 0, active: 2 };
    write_record(&mut image, 0, &odd);
    assert_eq!(first_active(&image), None);
    assert_eq!(first_free(&image), Some(1));
    assert!(list(&image).is_empty());
}

#[test]
fn a_record_with_start_sector_zero_is_not_open() {
    let mut image = format_image();
    let zero = FileRecord { name: *b"ZERO    ", start_sector: 0, size: 0, active: 1 };
    write_record(&mut image, 0, &zero);
    assert_eq!(first_active(&image), Some(0));
    assert_eq!(open_file(&image), None);
    let before = image;
    assert_eq!(resize_open_file(&mut image, 9), None);
    assert_eq!(image, before);
}

#[test]
fn a_record_with_any_other_start_sector_is_open() {
    for start in [1u32, 2048, 0x0FFF_FFFF, 0x1000_0000, u32::MAX] {
        let mut image = format_image();
        let rec = FileRecord { name: *b"FAR     ", start_sector: start, size: 3, active: 1 };
        write_record(&mut image, 0, &rec);
        assert_eq!(open_file(&image), Some((0, rec)));
        assert_eq!(resize_open_file(&mut image, 9), Some(start));
        assert_eq!(read_record(&image, 0).size, 9);
        assert_eq!(read_record(&image, 0).start_sector, start);
    }
}

#[test]
fn resize_changes_only_the_size_of_the_first_file() {
    let mut image = format_image();
    assert_eq!(create(&mut image), Some(0));
    assert_eq!(create(&mut image), Some(1));
    assert_eq!(resize_open_file(&mut image, 300), Some(DIR_SECTOR + 1));
    assert_eq!(read_record(&image, 0).size, 300);
    assert_eq!(read_record(&image, 0).start_sector, DIR_SECTOR + 1);
    assert_eq!(read_record(&image, 1).size, 0);
    let sizes: Vec<u32> = list(&image).iter().map(|r| r.size).collect();
    assert_eq!(sizes, vec![300, 0]);
}

#[test]
fn resize_without_a_file_changes_nothing() {
    let mut image = format_image();
    assert_eq!(resize_open_file(&mut image, 5), None);
    assert_eq!(image, format_image());
}
