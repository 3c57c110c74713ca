//! Operator-facing text: what each report, the start-up probe and the system
//! information command put on the display, as characters with their colours.

use vstd::prelude::*;
use vstd::string::StringSliceAdditionalSpecFns;
use crate::directory::record_views;
use crate::record::{FileRecord, RecordModel};
use crate::routing::{uptime_seconds, ProbeStep, TICKS_PER_SECOND};
use crate::shell::{Report, ReportModel};

verus! {

/// White on black.
pub const DEFAULT_COLOR: u16 = 0x0F00;

/// Green, for what went well.
pub const GOOD_COLOR: u16 = 0x0A00;

/// Red, for what failed.
pub const BAD_COLOR: u16 = 0x0C00;

/// Yellow, for prompts and frames.
pub const NOTE_COLOR: u16 = 0x0E00;

/// Cyan, for labels.
pub const LABEL_COLOR: u16 = 0x0B00;

/// White on red, for the title bar.
pub const TITLE_COLOR: u16 = 0x4F00;

pub const TEXT_TITLE: &'static str = "--- KING OS v0.0.1 (STABLE) ---";

pub const TEXT_PROMPT: &'static str = "> ";

pub const TEXT_HELP: &'static str = "FETCH, LS, TOUCH, CAT, KWRITE, FORMAT, CLEAR, REBOOT\n";

pub const TEXT_WIPING: &'static str = "WIPING LBA 2048...";

pub const TEXT_FORMAT_OK: &'static str = " SUCCESS\n";

pub const TEXT_FORMAT_FAILED: &'static str = " FAIL (DISK READ-ONLY?)\n";

pub const TEXT_EMPTY: &'static str = "DIR EMPTY\n";

pub const TEXT_SIZE_OPEN: &'static str = " [";

pub const TEXT_SIZE_CLOSE: &'static str = " bytes]\n";

pub const TEXT_CREATED: &'static str = "CREATED MAIN.RS\n";

pub const TEXT_FULL: &'static str = "DIR FULL\n";

pub const TEXT_CONTENT_OPEN: &'static str = "--- CONTENT ---\n";

pub const TEXT_CONTENT_CLOSE: &'static str = "\n--- END ---\n";

pub const TEXT_NO_FILE: &'static str = "NO FILE FOUND\n";

pub const TEXT_WRITE: &'static str = "WRITE: ";

pub const TEXT_SYNCED: &'static str = "\n[DISK: SYNCED]";

pub const TEXT_NO_ACTIVE_FILE: &'static str = "\n[DISK: ERR - NO ACTIVE FILE]";

pub const TEXT_TOO_LONG: &'static str = "\n[DISK: ERR - CONTENT TOO LONG]";

pub const TEXT_UNKNOWN: &'static str = "UNKNOWN COMMAND\n";

pub const TEXT_DISK_ERROR: &'static str = "DISK ERROR\n";

pub const TEXT_DETECTED: &'static str = "\nFS: KINGFS DETECTED";

pub const TEXT_UNFORMATTED: &'static str = "\nFS: READY (RUN FORMAT)";

pub const TEXT_DRIVE_FAILED: &'static str = "\nFS: DRIVE INIT FAILED";

pub const ART_1: &'static str = "          o          ";

pub const ART_2: &'static str = "       o^/|\\^o       ";

pub const ART_3: &'static str = "    o_^|\\/*\\/|^_o    ";

pub const ART_4: &'static str = "   o\\*`'.\\|/.'`*/o   ";

pub const ART_5: &'static str = "    \\\\\\\\\\\\|//////    ";

pub const ART_6: &'static str = "     {><><@><><}      ";

pub const ART_7: &'static str = "     `\"\"\"\"\"\"\"\"\"`     ";

pub const LABEL_OS: &'static str = "  OS:     ";

pub const LABEL_DISK: &'static str = "  DISK:   ";

pub const LABEL_UPTIME: &'static str = "  UPTIME: ";

pub const LABEL_SHELL: &'static str = "  SHELL:  ";

pub const LABEL_MEM: &'static str = "  MEM:    ";

pub const VALUE_OS: &'static str = "King OS v0.0.1\n";

pub const VALUE_DISK: &'static str = "ATA LBA-PIO\n";

pub const VALUE_SECONDS: &'static str = "s\n";

pub const VALUE_SHELL: &'static str = "KingShell\n";

pub const VALUE_MEM: &'static str = "640KB Base\n";

pub const TEXT_NEWLINE: &'static str = "\n";

/// One character with its colour attribute.
#[derive(Clone, Copy, Debug, PartialEq, Eq, Structural)]
pub struct Glyph {
    pub ch: u8,
    pub attr: u16,
}

/// Every byte of `text` in one colour.
pub open spec fn styled(text: Seq<u8>, attr: u16) -> Seq<Glyph> {
    Seq::new(text.len(), |i: int| Glyph { ch: text[i], attr })
}

/// `text` without its zero bytes, which pad a name and are not shown.
pub open spec fn visible(text: Seq<u8>) -> Seq<u8>
    decreases text.len(),
{
    if text.len() == 0 {
        Seq::empty()
    } else if text.last() == 0 {
        visible(text.drop_last())
    } else {
        visible(text.drop_last()).push(text.last())
    }
}

/// The decimal digits of `n`, most significant first, without leading zeros.
pub open spec fn decimal(n: nat) -> Seq<u8>
    decreases n,
{
    if n < 10 {
        seq![(0x30 + n) as u8]
    } else {
        decimal(n / 10).push((0x30 + n % 10) as u8)
    }
}

/// One line of a listing: the name, then the size in brackets.
pub open spec fn listing_line(r: RecordModel) -> Seq<Glyph> {
    styled(visible(r.name), DEFAULT_COLOR) + styled(TEXT_SIZE_OPEN.spec_bytes(), DEFAULT_COLOR)
        + styled(decimal(r.size as nat), DEFAULT_COLOR) + styled(
        TEXT_SIZE_CLOSE.spec_bytes(),
        DEFAULT_COLOR,
    )
}

/// The lines of a listing, one per record, in order.
pub open spec fn listing_lines(records: Seq<RecordModel>) -> Seq<Glyph>
    decreases records.len(),
{
    if records.len() == 0 {
        Seq::empty()
    } else {
        listing_lines(records.drop_last()) + listing_line(records.last())
    }
}

/// The system information panel: seven lines of art, five of them with a label and
/// a value beside them, the uptime in whole seconds.
pub open spec fn system_info(ticks: u32) -> Seq<Glyph> {
    styled(ART_1.spec_bytes(), NOTE_COLOR) + styled(LABEL_OS.spec_bytes(), LABEL_COLOR) + styled(
        VALUE_OS.spec_bytes(),
        DEFAULT_COLOR,
    ) + styled(ART_2.spec_bytes(), NOTE_COLOR) + styled(LABEL_DISK.spec_bytes(), LABEL_COLOR)
        + styled(VALUE_DISK.spec_bytes(), DEFAULT_COLOR) + styled(ART_3.spec_bytes(), NOTE_COLOR)
        + styled(LABEL_UPTIME.spec_bytes(), LABEL_COLOR) + styled(
        decimal((ticks / TICKS_PER_SECOND) as nat),
        DEFAULT_COLOR,
    ) + styled(VALUE_SECONDS.spec_bytes(), DEFAULT_COLOR) + styled(ART_4.spec_bytes(), NOTE_COLOR)
        + styled(LABEL_SHELL.spec_bytes(), LABEL_COLOR) + styled(
        VALUE_SHELL.spec_bytes(),
        DEFAULT_COLOR,
    ) + styled(ART_5.spec_bytes(), NOTE_COLOR) + styled(LABEL_MEM.spec_bytes(), LABEL_COLOR)
        + styled(VALUE_MEM.spec_bytes(), DEFAULT_COLOR) + styled(ART_6.spec_bytes(), NOTE_COLOR)
        + styled(TEXT_NEWLINE.spec_bytes(), DEFAULT_COLOR) + styled(
        ART_7.spec_bytes(),
        NOTE_COLOR,
    ) + styled(TEXT_NEWLINE.spec_bytes(), DEFAULT_COLOR)
}

/// What a report puts on the display. File content is shown byte for byte between
/// its two markers; clearing, restarting and an empty line show nothing.
pub open spec fn rendered(report: ReportModel, ticks: u32) -> Seq<Glyph> {
    match report {
        ReportModel::Nothing => Seq::empty(),
        ReportModel::Help => styled(TEXT_HELP.spec_bytes(), DEFAULT_COLOR),
        ReportModel::SystemInfo => system_info(ticks),
        ReportModel::Formatted => styled(TEXT_WIPING.spec_bytes(), DEFAULT_COLOR) + styled(
            TEXT_FORMAT_OK.spec_bytes(),
            GOOD_COLOR,
        ),
        ReportModel::FormatFailed => styled(TEXT_WIPING.spec_bytes(), DEFAULT_COLOR) + styled(
            TEXT_FORMAT_FAILED.spec_bytes(),
            BAD_COLOR,
        ),
        ReportModel::DirectoryEmpty => styled(TEXT_EMPTY.spec_bytes(), DEFAULT_COLOR),
        ReportModel::Listing(records) => listing_lines(records),
        ReportModel::Created { slot } => styled(TEXT_CREATED.spec_bytes(), GOOD_COLOR),
        ReportModel::DirectoryFull => styled(TEXT_FULL.spec_bytes(), DEFAULT_COLOR),
        ReportModel::Content(bytes) => styled(TEXT_CONTENT_OPEN.spec_bytes(), NOTE_COLOR) + styled(
            bytes,
            DEFAULT_COLOR,
        ) + styled(TEXT_CONTENT_CLOSE.spec_bytes(), NOTE_COLOR),
        ReportModel::NoFileFound => styled(TEXT_NO_FILE.spec_bytes(), DEFAULT_COLOR),
        ReportModel::WritePrompt => styled(TEXT_WRITE.spec_bytes(), NOTE_COLOR),
        ReportModel::Synced => styled(TEXT_SYNCED.spec_bytes(), GOOD_COLOR),
        ReportModel::NoActiveFile => styled(TEXT_NO_ACTIVE_FILE.spec_bytes(), BAD_COLOR),
        ReportModel::ContentTooLong => styled(TEXT_TOO_LONG.spec_bytes(), BAD_COLOR),
        ReportModel::Cleared => Seq::empty(),
        ReportModel::Reboot => Seq::empty(),
        ReportModel::UnknownCommand => styled(TEXT_UNKNOWN.spec_bytes(), DEFAULT_COLOR),
        ReportModel::DiskError => styled(TEXT_DISK_ERROR.spec_bytes(), BAD_COLOR),
    }
}

/// What the start-up probe's verdict puts on the display.
pub open spec fn probe_message(step: ProbeStep) -> Seq<Glyph> {
    match step {
        ProbeStep::Retry => Seq::empty(),
        ProbeStep::Detected => styled(TEXT_DETECTED.spec_bytes(), GOOD_COLOR),
        ProbeStep::Unformatted => styled(TEXT_UNFORMATTED.spec_bytes(), NOTE_COLOR),
        ProbeStep::DriveFailed => styled(TEXT_DRIVE_FAILED.spec_bytes(), BAD_COLOR),
    }
}

/// Appends bytes in one colour.
pub fn print_color(out: &mut Vec<Glyph>, bytes: &[u8], attr: u16)
    ensures
        final(out)@ == old(out)@ + styled(bytes@, attr),
{
    let mut i: usize = 0;
    while i < bytes.len()
        invariant
            i <= bytes@.len(),
            out@ =~= old(out)@ + styled(bytes@.subrange(0, i as int), attr),
        decreases bytes@.len() - i,
    {
        out.push(Glyph { ch: bytes[i], attr });
        i += 1;
    }
    assert(bytes@.subrange(0, bytes@.len() as int) =~= bytes@);
}

/// Appends a text in one colour.
pub fn print_text(out: &mut Vec<Glyph>, text: &str, attr: u16)
    ensures
        final(out)@ == old(out)@ + styled(text.spec_bytes(), attr),
{
    print_color(out, text.as_bytes(), attr);
}

/// Appends bytes in the default colour, leaving out the zero bytes.
pub fn print_str(out: &mut Vec<Glyph>, bytes: &[u8])
    ensures
        final(out)@ == old(out)@ + styled(visible(bytes@), DEFAULT_COLOR),
{
    let mut i: usize = 0;
    assert(visible(bytes@.subrange(0, 0)) =~= Seq::<u8>::empty());
    while i < bytes.len()
        invariant
            i <= bytes@.len(),
            out@ =~= old(out)@ + styled(visible(bytes@.subrange(0, i as int)), DEFAULT_COLOR),
        decreases bytes@.len() - i,
    {
        assert(bytes@.subrange(0, i + 1).drop_last() =~= bytes@.subrange(0, i as int));
        if bytes[i] != 0 {
            out.push(Glyph { ch: bytes[i], attr: DEFAULT_COLOR });
        }
        i += 1;
    }
    assert(bytes@.subrange(0, bytes@.len() as int) =~= bytes@);
}

/// The largest value that can still be waiting to be written when `free` of the ten
/// digit places are left.
pub open spec fn pending_limit(free: int) -> int {
    if free >= 9 {
        429496729
    } else if free == 8 {
        42949672
    } else if free == 7 {
        4294967
    } else if free == 6 {
        429496
    } else if free == 5 {
        42949
    } else if free == 4 {
        4294
    } else if free == 3 {
        429
    } else if free == 2 {
        42
    } else if free == 1 {
        4
    } else {
        0
    }
}

/// Writes a number in decimal.
pub fn digits(n: u32) -> (out: Vec<u8>)
    ensures
        out@ == decimal(n as nat),
{
    let mut buf: [u8; 10] = [0u8; 10];
    let mut at: usize = 9;
    buf[9] = (n % 10) as u8 + 0x30;
    let mut rest: u32 = n / 10;
    assert(buf@.subrange(9, 10) =~= seq![(0x30 + n % 10) as u8]);
    while rest > 0
        invariant
            at <= 9,
            rest <= pending_limit(at as int),
            decimal(n as nat) =~= if rest > 0 {
                decimal(rest as nat) + buf@.subrange(at as int, 10)
            } else {
                buf@.subrange(at as int, 10)
            },
        decreases rest,
    {
        at -= 1;
        buf[at] = (rest % 10) as u8 + 0x30;
        assert(buf@.subrange(at as int, 10) =~= seq![(0x30 + rest % 10) as u8] + buf@.subrange(
            at + 1,
            10,
        ));
        rest = rest / 10;
    }
    let mut out: Vec<u8> = Vec::new();
    let mut i: usize = at;
    while i < 10
        invariant
            at <= i <= 10,
            out@ =~= buf@.subrange(at as int, i as int),
        decreases 10 - i,
    {
        out.push(buf[i]);
        i += 1;
    }
    out
}

/// Appends a number in decimal.
pub fn print_num(out: &mut Vec<Glyph>, n: u32, attr: u16)
    ensures
        final(out)@ == old(out)@ + styled(decimal(n as nat), attr),
{
    let text = digits(n);
    print_color(out, text.as_slice(), attr);
}

/// Builds the system information panel.
pub fn fetch(ticks: u32) -> (out: Vec<Glyph>)
    ensures
        out@ == system_info(ticks),
{
    let mut out: Vec<Glyph> = Vec::new();
    print_text(&mut out, ART_1, NOTE_COLOR);
    assert(out@ =~= styled(ART_1.spec_bytes(), NOTE_COLOR));
    print_text(&mut out, LABEL_OS, LABEL_COLOR);
    print_text(&mut out, VALUE_OS, DEFAULT_COLOR);
    print_text(&mut out, ART_2, NOTE_COLOR);
    print_text(&mut out, LABEL_DISK, LABEL_COLOR);
    print_text(&mut out, VALUE_DISK, DEFAULT_COLOR);
    print_text(&mut out, ART_3, NOTE_COLOR);
    print_text(&mut out, LABEL_UPTIME, LABEL_COLOR);
    print_num(&mut out, uptime_seconds(ticks), DEFAULT_COLOR);
    print_text(&mut out, VALUE_SECONDS, DEFAULT_COLOR);
    print_text(&mut out, ART_4, NOTE_COLOR);
    print_text(&mut out, LABEL_SHELL, LABEL_COLOR);
    print_text(&mut out, VALUE_SHELL, DEFAULT_COLOR);
    print_text(&mut out, ART_5, NOTE_COLOR);
    print_text(&mut out, LABEL_MEM, LABEL_COLOR);
    print_text(&mut out, VALUE_MEM, DEFAULT_COLOR);
    print_text(&mut out, ART_6, NOTE_COLOR);
    print_text(&mut out, TEXT_NEWLINE, DEFAULT_COLOR);
    print_text(&mut out, ART_7, NOTE_COLOR);
    print_text(&mut out, TEXT_NEWLINE, DEFAULT_COLOR);
    out
}

/// Appends the lines of a listing.
pub fn print_listing(out: &mut Vec<Glyph>, records: &Vec<FileRecord>)
    ensures
        final(out)@ == old(out)@ + listing_lines(record_views(records@)),
{
    let ghost all = record_views(records@);
    let mut i: usize = 0;
    assert(listing_lines(all.subrange(0, 0)) =~= Seq::<Glyph>::empty());
    while i < records.len()
        invariant
            i <= records@.len(),
            all == record_views(records@),
            out@ =~= old(out)@ + listing_lines(all.subrange(0, i as int)),
        decreases records@.len() - i,
    {
        assert(all.subrange(0, i + 1).drop_last() =~= all.subrange(0, i as int));
        assert(all.subrange(0, i + 1).last() == records@[i as int]@);
        let rec = &records[i];
        print_str(out, rec.name.as_slice());
        print_text(out, TEXT_SIZE_OPEN, DEFAULT_COLOR);
        print_num(out, rec.size, DEFAULT_COLOR);
        print_text(out, TEXT_SIZE_CLOSE, DEFAULT_COLOR);
        i += 1;
    }
    assert(all.subrange(0, all.len() as int) =~= all);
}

/// Turns a report into what the display shows for it.
pub fn render(report: &Report, ticks: u32) -> (out: Vec<Glyph>)
    ensures
        out@ == rendered(report@, ticks),
{
    let mut out: Vec<Glyph> = Vec::new();
    match report {
        Report::Nothing => {},
        Report::Help => print_text(&mut out, TEXT_HELP, DEFAULT_COLOR),
        Report::SystemInfo => {
            out = fetch(ticks);
        },
        Report::Formatted => {
            print_text(&mut out, TEXT_WIPING, DEFAULT_COLOR);
            print_text(&mut out, TEXT_FORMAT_OK, GOOD_COLOR);
        },
        Report::FormatFailed => {
            print_text(&mut out, TEXT_WIPING, DEFAULT_COLOR);
            print_text(&mut out, TEXT_FORMAT_FAILED, BAD_COLOR);
        },
        Report::DirectoryEmpty => print_text(&mut out, TEXT_EMPTY, DEFAULT_COLOR),
        Report::Listing(records) => print_listing(&mut out, records),
        Report::Created { slot: _ } => print_text(&mut out, TEXT_CREATED, GOOD_COLOR),
        Report::DirectoryFull => print_text(&mut out, TEXT_FULL, DEFAULT_COLOR),
        Report::Content(bytes) => {
            print_text(&mut out, TEXT_CONTENT_OPEN, NOTE_COLOR);
            print_color(&mut out, bytes.as_slice(), DEFAULT_COLOR);
            print_text(&mut out, TEXT_CONTENT_CLOSE, NOTE_COLOR);
        },
        Report::NoFileFound => print_text(&mut out, TEXT_NO_FILE, DEFAULT_COLOR),
        Report::WritePrompt => print_text(&mut out, TEXT_WRITE, NOTE_COLOR),
        Report::Synced => print_text(&mut out, TEXT_SYNCED, GOOD_COLOR),
        Report::NoActiveFile => print_text(&mut out, TEXT_NO_ACTIVE_FILE, BAD_COLOR),
        Report::ContentTooLong => print_text(&mut out, TEXT_TOO_LONG, BAD_COLOR),
        Report::Cleared => {},
        Report::Reboot => {},
        Report::UnknownCommand => print_text(&mut out, TEXT_UNKNOWN, DEFAULT_COLOR),
        Report::DiskError => print_text(&mut out, TEXT_DISK_ERROR, BAD_COLOR),
    }
    assert(out@ =~= rendered(report@, ticks));
    out
}

/// Turns the start-up probe's verdict into what the display shows for it.
pub fn render_probe(step: ProbeStep) -> (out: Vec<Glyph>)
    ensures
        out@ == probe_message(step),
{
    let mut out: Vec<Glyph> = Vec::new();
    match step {
        ProbeStep::Retry => {},
        ProbeStep::Detected => print_text(&mut out, TEXT_DETECTED, GOOD_COLOR),
        ProbeStep::Unformatted => print_text(&mut out, TEXT_UNFORMATTED, NOTE_COLOR),
        ProbeStep::DriveFailed => print_text(&mut out, TEXT_DRIVE_FAILED, BAD_COLOR),
    }
    assert(out@ =~= probe_message(step));
    out
}

} // verus!
