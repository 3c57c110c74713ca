use king_os::directory::{format_image, DIR_SECTOR};
use king_os::display::{render, Glyph};
use king_os::shell::{
    fill_content, parse, str_eq, take_content, Command, DiskReply, DiskRequest, Mode, Report,
    Shell, Step, Transaction,
};
use std::collections::HashMap;

struct FakeDisk {
    sectors: HashMap<u32, [u8; 512]>,
    reads: usize,
    writes: usize,
    failing: bool,
    read_only: bool,
}

fn new_disk() -> FakeDisk {
    FakeDisk { sectors: HashMap::new(), reads: 0, writes: 0, failing: false, read_only: false }
}

fn serve(disk: &mut FakeDisk, request: &DiskRequest) -> DiskReply {
    if disk.failing {
        return DiskReply::Failed;
    }
    match request {
        DiskRequest::Read { lba } => {
            disk.reads += 1;
            DiskReply::Data(*disk.sectors.get(lba).unwrap_or(&[0u8; 512]))
        }
        DiskRequest::Write { lba, data } => {
            disk.writes += 1;
            if !disk.read_only {
                disk.sectors.insert(*lba, *data);
            }
            DiskReply::Written
        }
    }
}

fn run(shell: &mut Shell, disk: &mut FakeDisk, line: &[u8]) -> Report {
    let mut step = shell.execute_command(line);
    loop {
        match step {
            Step::Done(report) => return report,
            Step::Disk { request, then } => {
                let reply = serve(disk, &request);
                step = then.resume(reply);
            }
        }
    }
}

fn text_of(glyphs: &[Glyph]) -> String {
    glyphs.iter().map(|g| g.ch as char).collect()
}

#[test]
fn keywords_are_exact_and_upper_case() {
    assert_eq!(parse(b"HELP"), Command::Help);
    assert_eq!(parse(b"FETCH"), Command::Fetch);
    assert_eq!(parse(b"FORMAT"), Command::Format);
    assert_eq!(parse(b"LS"), Command::Ls);
    assert_eq!(parse(b"TOUCH"), Command::Touch);
    assert_eq!(parse(b"CAT"), Command::Cat);
    assert_eq!(parse(b"KWRITE"), Command::Kwrite);
    assert_eq!(parse(b"CLEAR"), Command::Clear);
    assert_eq!(parse(b"REBOOT"), Command::Reboot);
    assert_eq!(parse(b""), Command::Empty);
    assert_eq!(parse(b"help"), Command::Unknown);
    assert_eq!(parse(b"LS "), Command::Unknown);
    assert_eq!(parse(b" LS"), Command::Unknown);
    assert_eq!(parse(b"CATS"), Command::Unknown);
    assert_eq!(parse(b"L"), Command::Unknown);
}

#[test]
fn str_eq_wants_equal_length_and_bytes() {
    assert!(str_eq(b"", b""));
    assert!(str_eq(b"LS", b"LS"));
    assert!(!str_eq(b"LS", b"LT"));
    assert!(!str_eq(b"LS", b"LSX"));
    assert!(!str_eq(b"LSX", b"LS"));
}

#[test]
fn commands_without_disk_work_are_done_at_once() {
    let mut shell = Shell::new();
    let mut disk = new_disk();
    assert_eq!(run(&mut shell, &mut disk, b"HELP"), Report::Help);
    assert_eq!(run(&mut shell, &mut disk, b"FETCH"), Report::SystemInfo);
    assert_eq!(run(&mut shell, &mut disk, b"CLEAR"), Report::Cleared);
    assert_eq!(run(&mut shell, &mut disk, b"REBOOT"), Report::Reboot);
    assert_eq!(run(&mut shell, &mut disk, b"NOPE"), Report::UnknownCommand);
    assert_eq!(run(&mut shell, &mut disk, b""), Report::Nothing);
    assert_eq!(shell.mode, Mode::Normal);
    assert_eq!(disk.reads + disk.writes, 0);
}

#[test]
fn format_then_ls_reports_empty_whatever_was_there() {
    let mut shell = Shell::new();
    let mut disk = new_disk();
    disk.sectors.insert(DIR_SECTOR, [0xFFu8; 512]);
    assert_eq!(run(&mut shell, &mut disk, b"FORMAT"), Report::Formatted);
    assert_eq!(disk.sectors[&DIR_SECTOR], format_image());
    assert_eq!(run(&mut shell, &mut disk, b"LS"), Report::DirectoryEmpty);
}

#[test]
fn format_is_judged_by_the_read_back() {
    let mut shell = Shell::new();
    let mut disk = new_disk();
    disk.read_only = true;
    assert_eq!(run(&mut shell, &mut disk, b"FORMAT"), Report::FormatFailed);
    assert_eq!(disk.writes, 1);
    assert_eq!(disk.reads, 1);
}

#[test]
fn format_goes_on_to_verify_after_a_failed_write() {
    let step = Shell::new().execute_command(b"FORMAT");
    let then = match step {
        Step::Disk { request: DiskRequest::Write { lba, data }, then } => {
            assert_eq!(lba, DIR_SECTOR);
            assert_eq!(data, format_image());
            then
        }
        other => panic!("unexpected step {:?}", other),
    };
    let verify = match then.resume(DiskReply::Failed) {
        Step::Disk { request, then } => {
            assert_eq!(request, DiskRequest::Read { lba: DIR_SECTOR });
            then
        }
        other => panic!("unexpected step {:?}", other),
    };
    assert_eq!(verify, Transaction::FormatVerify);
    assert_eq!(
        Transaction::FormatVerify.resume(DiskReply::Data(format_image())),
        Step::Done(Report::Formatted)
    );
    assert_eq!(
        Transaction::FormatVerify.resume(DiskReply::Failed),
        Step::Done(Report::FormatFailed)
    );
    assert_eq!(
        Transaction::FormatVerify.resume(DiskReply::Data([0u8; 512])),
        Step::Done(Report::FormatFailed)
    );
}

#[test]
fn touch_sixteen_times_fills_the_directory() {
    let mut shell = Shell::new();
    let mut disk = new_disk();
    assert_eq!(run(&mut shell, &mut disk, b"FORMAT"), Report::Formatted);
    for slot in 0..15usize {
        assert_eq!(run(&mut shell, &mut disk, b"TOUCH"), Report::Created { slot });
    }
    let writes = disk.writes;
    assert_eq!(run(&mut shell, &mut disk, b"TOUCH"), Report::DirectoryFull);
    assert_eq!(disk.writes, writes);
    match run(&mut shell, &mut disk, b"LS") {
        Report::Listing(records) => {
            assert_eq!(records.len(), 15);
            for (slot, rec) in records.iter().enumerate() {
                assert_eq!(rec.start_sector, DIR_SECTOR + 1 + slot as u32);
                assert_eq!(rec.size, 0);
            }
        }
        other => panic!("unexpected report {:?}", other),
    }
}

#[test]
fn kwrite_without_a_file_writes_nothing() {
    let mut shell = Shell::new();
    let mut disk = new_disk();
    assert_eq!(run(&mut shell, &mut disk, b"FORMAT"), Report::Formatted);
    let writes = disk.writes;
    assert_eq!(run(&mut shell, &mut disk, b"KWRITE"), Report::WritePrompt);
    assert_eq!(shell.mode, Mode::AwaitingWriteContent);
    assert_eq!(run(&mut shell, &mut disk, b"HELLO"), Report::NoActiveFile);
    assert_eq!(shell.mode, Mode::Normal);
    assert_eq!(disk.writes, writes);
    assert_eq!(disk.sectors[&DIR_SECTOR], format_image());
}

#[test]
fn kwrite_then_cat_and_ls_give_the_content_and_its_length() {
    for len in [0usize, 1, 5, 64, 511, 512] {
        let content: Vec<u8> = (0..len).map(|i| (i % 251) as u8 + 1).collect();
        let mut shell = Shell::new();
        let mut disk = new_disk();
        assert_eq!(run(&mut shell, &mut disk, b"FORMAT"), Report::Formatted);
        assert_eq!(run(&mut shell, &mut disk, b"TOUCH"), Report::Created { slot: 0 });
        assert_eq!(run(&mut shell, &mut disk, b"KWRITE"), Report::WritePrompt);
        assert_eq!(run(&mut shell, &mut disk, &content), Report::Synced);
        assert_eq!(run(&mut shell, &mut disk, b"CAT"), Report::Content(content.clone()));
        match run(&mut shell, &mut disk, b"LS") {
            Report::Listing(records) => {
                assert_eq!(records.len(), 1);
                assert_eq!(records[0].size, len as u32);
                assert_eq!(&records[0].name, b"MAIN.RS ");
            }
            other => panic!("unexpected report {:?}", other),
        }
    }
}

#[test]
fn the_content_line_is_raw_even_when_it_spells_a_command() {
    let mut shell = Shell::new();
    let mut disk = new_disk();
    run(&mut shell, &mut disk, b"FORMAT");
    run(&mut shell, &mut disk, b"TOUCH");
    assert_eq!(run(&mut shell, &mut disk, b"KWRITE"), Report::WritePrompt);
    assert_eq!(run(&mut shell, &mut disk, b"FORMAT"), Report::Synced);
    assert_eq!(run(&mut shell, &mut disk, b"CAT"), Report::Content(b"FORMAT".to_vec()));
}

#[test]
fn an_empty_content_line_is_still_content() {
    let mut shell = Shell::new();
    let mut disk = new_disk();
    run(&mut shell, &mut disk, b"FORMAT");
    run(&mut shell, &mut disk, b"TOUCH");
    run(&mut shell, &mut disk, b"KWRITE");
    run(&mut shell, &mut disk, b"ABC");
    run(&mut shell, &mut disk, b"KWRITE");
    assert_eq!(run(&mut shell, &mut disk, b""), Report::Synced);
    assert_eq!(run(&mut shell, &mut disk, b"CAT"), Report::Content(Vec::new()));
}

#[test]
fn content_is_written_before_the_directory() {
    let mut shell = Shell::new();
    let mut disk = new_disk();
    run(&mut shell, &mut disk, b"FORMAT");
    run(&mut shell, &mut disk, b"TOUCH");
    run(&mut shell, &mut disk, b"KWRITE");
    let mut order: Vec<u32> = Vec::new();
    let mut step = shell.execute_command(b"HELLO");
    let report = loop {
        match step {
            Step::Done(report) => break report,
            Step::Disk { request, then } => {
                if let DiskRequest::Write { lba, .. } = &request {
                    order.push(*lba);
                }
                let reply = serve(&mut disk, &request);
                step = then.resume(reply);
            }
        }
    };
    assert_eq!(report, Report::Synced);
    assert_eq!(order, vec![DIR_SECTOR + 1, DIR_SECTOR]);
    let mut expected = [0u8; 512];
    expected[..5].copy_from_slice(b"HELLO");
    assert_eq!(disk.sectors[&(DIR_SECTOR + 1)], expected);
}

#[test]
fn a_failed_content_write_leaves_the_directory_alone() {
    let mut image = format_image();
    king_os::directory::create(&mut image);
    let txn = Transaction::FinalizeDirectory { content: b"HELLO".to_vec() };
    let next = match txn.resume(DiskReply::Data(image)) {
        Step::Disk { request: DiskRequest::Write { lba, .. }, then } => {
            assert_eq!(lba, DIR_SECTOR + 1);
            then
        }
        other => panic!("unexpected step {:?}", other),
    };
    assert_eq!(next.resume(DiskReply::Failed), Step::Done(Report::DiskError));
}

#[test]
fn content_longer_than_a_sector_is_turned_away_unwritten() {
    let mut shell = Shell::new();
    let mut disk = new_disk();
    run(&mut shell, &mut disk, b"FORMAT");
    run(&mut shell, &mut disk, b"TOUCH");
    run(&mut shell, &mut disk, b"KWRITE");
    let before = (disk.reads, disk.writes);
    assert_eq!(run(&mut shell, &mut disk, &[b'X'; 513]), Report::ContentTooLong);
    assert_eq!((disk.reads, disk.writes), before);
    assert_eq!(shell.mode, Mode::Normal);
    let txn = Transaction::FinalizeDirectory { content: vec![b'X'; 513] };
    assert_eq!(txn.resume(DiskReply::Data(format_image())), Step::Done(Report::ContentTooLong));
}

#[test]
fn cat_without_a_file_finds_none() {
    let mut shell = Shell::new();
    let mut disk = new_disk();
    run(&mut shell, &mut disk, b"FORMAT");
    assert_eq!(run(&mut shell, &mut disk, b"CAT"), Report::NoFileFound);
}

#[test]
fn cat_of_a_new_file_is_empty() {
    let mut shell = Shell::new();
    let mut disk = new_disk();
    run(&mut shell, &mut disk, b"FORMAT");
    run(&mut shell, &mut disk, b"TOUCH");
    assert_eq!(run(&mut shell, &mut disk, b"CAT"), Report::Content(Vec::new()));
}

#[test]
fn disk_failures_become_disk_errors() {
    for line in [&b"LS"[..], b"TOUCH", b"CAT"] {
        let mut shell = Shell::new();
        let mut disk = new_disk();
        disk.failing = true;
        assert_eq!(run(&mut shell, &mut disk, line), Report::DiskError);
    }
    let mut shell = Shell::new();
    let mut disk = new_disk();
    disk.failing = true;
    assert_eq!(run(&mut shell, &mut disk, b"KWRITE"), Report::WritePrompt);
    assert_eq!(run(&mut shell, &mut disk, b"DATA"), Report::DiskError);
    assert_eq!(shell.mode, Mode::Normal);
}

#[test]
fn a_reply_of_the_wrong_kind_is_a_disk_error() {
    assert_eq!(Transaction::ListRead.resume(DiskReply::Written), Step::Done(Report::DiskError));
    assert_eq!(
        Transaction::CreateWrite { slot: 0 }.resume(DiskReply::Data([0u8; 512])),
        Step::Done(Report::DiskError)
    );
    assert_eq!(
        Transaction::CatContent { size: 3 }.resume(DiskReply::Written),
        Step::Done(Report::DiskError)
    );
    assert_eq!(
        Transaction::FinalizeCommit.resume(DiskReply::Failed),
        Step::Done(Report::DiskError)
    );
}

#[test]
fn content_sector_is_padded_with_zeros() {
    let image = fill_content(b"HI");
    assert_eq!(&image[..2], b"HI");
    assert!(image[2..].iter().all(|&b| b == 0));
    assert_eq!(fill_content(&[7u8; 512]), [7u8; 512]);
}

#[test]
fn take_content_clamps_to_the_sector() {
    let mut image = [0u8; 512];
    image[..5].copy_from_slice(b"HELLO");
    assert_eq!(take_content(&image, 5), b"HELLO".to_vec());
    assert_eq!(take_content(&image, 0), Vec::<u8>::new());
    assert_eq!(take_content(&image, 512).len(), 512);
    assert_eq!(take_content(&image, 100_000).len(), 512);
}

#[test]
fn scenario_format_touch_kwrite_hello_cat() {
    let mut shell = Shell::new();
    let mut disk = new_disk();
    assert_eq!(run(&mut shell, &mut disk, b"FORMAT"), Report::Formatted);
    assert_eq!(run(&mut shell, &mut disk, b"TOUCH"), Report::Created { slot: 0 });
    assert_eq!(run(&mut shell, &mut disk, b"KWRITE"), Report::WritePrompt);
    assert_eq!(run(&mut shell, &mut disk, b"HELLO"), Report::Synced);
    let shown = run(&mut shell, &mut disk, b"CAT");
    assert_eq!(shown, Report::Content(b"HELLO".to_vec()));
    assert_eq!(text_of(&render(&shown, 0)), "--- CONTENT ---\nHELLO\n--- END ---\n");
    let listed = run(&mut shell, &mut disk, b"LS");
    assert_eq!(text_of(&render(&listed, 0)), "MAIN.RS  [5 bytes]\n");
    match listed {
        Report::Listing(records) => assert_eq!(records[0].size, 5),
        other => panic!("unexpected report {:?}", other),
    }
}

#[test]
fn a_file_with_a_far_start_sector_is_written_and_read() {
    for start in [1u32, 0x0FFF_FFFF, 0x1000_0000, 0xFFFF_FFFF] {
        let mut image = format_image();
        let rec = king_os::record::FileRecord {
            name: *b"FAR     ",
            start_sector: start,
            size: 0,
            active: 1,
        };
        king_os::directory::write_record(&mut image, 2, &rec);
        let mut shell = Shell::new();
        let mut disk = new_disk();
        disk.sectors.insert(DIR_SECTOR, image);
        assert_eq!(run(&mut shell, &mut disk, b"KWRITE"), Report::WritePrompt);
        let mut order: Vec<u32> = Vec::new();
        let mut step = shell.execute_command(b"HELLO");
        let report = loop {
            match step {
                Step::Done(report) => break report,
                Step::Disk { request, then } => {
                    if let DiskRequest::Write { lba, .. } = &request {
                        order.push(*lba);
                    }
                    let reply = serve(&mut disk, &request);
                    step = then.resume(reply);
                }
            }
        };
        assert_eq!(report, Report::Synced);
        assert_eq!(order, vec![start, DIR_SECTOR]);
        let mut expected = image;
        king_os::directory::write_record(
            &mut expected,
            2,
            &king_os::record::FileRecord { size: 5, ..rec },
        );
        assert_eq!(disk.sectors[&DIR_SECTOR], expected);
        assert_eq!(run(&mut shell, &mut disk, b"CAT"), Report::Content(b"HELLO".to_vec()));
    }
}

#[test]
fn a_file_with_start_sector_zero_counts_as_no_file() {
    let mut image = format_image();
    let rec = king_os::record::FileRecord {
        name: *b"ZERO    ",
        start_sector: 0,
        size: 4,
        active: 1,
    };
    king_os::directory::write_record(&mut image, 0, &rec);
    let mut shell = Shell::new();
    let mut disk = new_disk();
    disk.sectors.insert(DIR_SECTOR, image);
    assert_eq!(run(&mut shell, &mut disk, b"CAT"), Report::NoFileFound);
    assert_eq!(run(&mut shell, &mut disk, b"KWRITE"), Report::WritePrompt);
    assert_eq!(run(&mut shell, &mut disk, b"DATA"), Report::NoActiveFile);
    assert_eq!(disk.writes, 0);
}
