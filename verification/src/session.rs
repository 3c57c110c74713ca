//! What the dispatcher does to a disk that never fails: a model of the disk, the
//! run of a whole command against it, and the laws that the runs obey.

use vstd::prelude::*;
use crate::directory::{
    after_create, after_resize, first_claimable, first_in_use_from, formatted_image, fresh_record,
    lemma_claimable_found, lemma_create_keeps_sound, lemma_first_claimable_from,
    lemma_first_in_use_from, lemma_formatted, lemma_in_use_found, lemma_listing_empty,
    lemma_listing_head, lemma_resize_keeps_sound, lemma_with_record, listing, open_slot,
    record_at, sound, DIR_SECTOR,
};
use crate::ata::{bytes_of_words, law_wire_round_trip, words_of};
use crate::record::RecordModel;
use crate::shell::{
    advance, begin, command_of, content_image, content_of, mode_after, word_cat, word_clear,
    word_fetch, word_format, word_help, word_kwrite, word_ls, word_reboot, word_touch, Command,
    Mode, ReplyModel, ReportModel, RequestModel, StepModel, TransactionModel,
};

verus! {

/// A disk as a map from block address to sector image.
pub type DiskModel = Map<u32, Seq<u8>>;

/// How a command ended on the model disk.
pub struct Outcome {
    pub report: ReportModel,
    pub disk: DiskModel,
    pub writes: nat,
}

/// A sector nobody wrote: zeros.
pub open spec fn blank() -> Seq<u8> {
    Seq::new(512, |i: int| 0u8)
}

/// The image stored at a block address.
pub open spec fn sector(disk: DiskModel, lba: u32) -> Seq<u8> {
    if disk.dom().contains(lba) {
        disk[lba]
    } else {
        blank()
    }
}

/// The directory image of a disk.
pub open spec fn directory(disk: DiskModel) -> Seq<u8> {
    sector(disk, DIR_SECTOR)
}

/// The disk after a transfer that succeeds.
pub open spec fn disk_after(disk: DiskModel, request: RequestModel) -> DiskModel {
    match request {
        RequestModel::Read { lba } => disk,
        RequestModel::Write { lba, data } => disk.insert(lba, data),
    }
}

/// The reply of a transfer that succeeds.
pub open spec fn reply_to(disk: DiskModel, request: RequestModel) -> ReplyModel {
    match request {
        RequestModel::Read { lba } => ReplyModel::Data(sector(disk, lba)),
        RequestModel::Write { lba, data } => ReplyModel::Written,
    }
}

/// Runs a command from `step` to its report, serving at most `fuel` transfers and
/// counting the writes.
pub open spec fn settle(step: StepModel, disk: DiskModel, fuel: nat) -> Outcome
    decreases fuel,
{
    match step {
        StepModel::Done(report) => Outcome { report, disk, writes: 0 },
        StepModel::Disk { request, then } => if fuel == 0 {
            Outcome { report: ReportModel::DiskError, disk, writes: 0 }
        } else {
            let rest = settle(
                advance(then, reply_to(disk, request)),
                disk_after(disk, request),
                (fuel - 1) as nat,
            );
            Outcome {
                writes: rest.writes + if request is Write { 1nat } else { 0nat },
                ..rest
            }
        },
    }
}

/// Runs one submitted line to its report. No command needs more than three transfers.
pub open spec fn execute(mode: Mode, line: Seq<u8>, disk: DiskModel) -> Outcome {
    settle(begin(mode, line), disk, 3)
}

/// Each keyword spells its own command.
pub proof fn lemma_keywords()
    ensures
        command_of(word_help()) == Command::Help,
        command_of(word_fetch()) == Command::Fetch,
        command_of(word_format()) == Command::Format,
        command_of(word_ls()) == Command::Ls,
        command_of(word_touch()) == Command::Touch,
        command_of(word_cat()) == Command::Cat,
        command_of(word_kwrite()) == Command::Kwrite,
        command_of(word_clear()) == Command::Clear,
        command_of(word_reboot()) == Command::Reboot,
{
    assert(word_help().len() == 4 && word_help()[0] == 0x48);
    assert(word_fetch().len() == 5 && word_fetch()[0] == 0x46);
    assert(word_format().len() == 6 && word_format()[0] == 0x46);
    assert(word_ls().len() == 2 && word_ls()[0] == 0x4C);
    assert(word_touch().len() == 5 && word_touch()[0] == 0x54);
    assert(word_cat().len() == 3 && word_cat()[0] == 0x43);
    assert(word_kwrite().len() == 6 && word_kwrite()[0] == 0x4B);
    assert(word_clear().len() == 5 && word_clear()[0] == 0x43);
    assert(word_reboot().len() == 6 && word_reboot()[0] == 0x52);
}

/// A sector written to the model disk is read back byte for byte, and the other
/// sectors stay as they were.
pub proof fn law_write_read_round_trip(disk: DiskModel, lba: u32, data: Seq<u8>, other: u32)
    requires
        other != lba,
    ensures
        reply_to(
            disk_after(disk, RequestModel::Write { lba, data }),
            RequestModel::Read { lba },
        ) == ReplyModel::Data(data),
        sector(disk_after(disk, RequestModel::Write { lba, data }), other) == sector(disk, other),
{
}

/// Whether a request is one the dispatcher may make: it never names sector 0, and
/// a write always carries a whole sector.
pub open spec fn in_bounds(request: RequestModel) -> bool {
    match request {
        RequestModel::Read { lba } => lba != 0,
        RequestModel::Write { lba, data } => lba != 0 && data.len() == 512,
    }
}

/// Every transfer the dispatcher asks for is in bounds, whatever line was submitted
/// and whatever the disk held, as long as the disk answers reads with whole sectors.
pub proof fn law_requests_in_bounds(
    mode: Mode,
    line: Seq<u8>,
    txn: TransactionModel,
    reply: ReplyModel,
)
    requires
        reply matches ReplyModel::Data(image) ==> image.len() == 512,
        txn matches TransactionModel::FinalizeContent { directory } ==> directory.len() == 512,
    ensures
        begin(mode, line) matches StepModel::Disk { request, then } ==> in_bounds(request),
        advance(txn, reply) matches StepModel::Disk { request, then } ==> in_bounds(request),
{
    match (txn, reply) {
        (TransactionModel::CreateRead, ReplyModel::Data(image)) => {
            lemma_first_claimable_from(image, 0);
            match first_claimable(image) {
                Some(slot) => {
                    lemma_with_record(image, slot, fresh_record(slot));
                },
                None => {},
            }
        },
        _ => {},
    }
}

/// The bytes of a directory image behind its header: `len` of the 496 that hold
/// the records.
pub open spec fn record_area(image: Seq<u8>, len: int) -> Seq<u8> {
    image.subrange(16, 16 + len)
}

/// Whatever is put into the record area of the directory sector, up to all of its
/// 496 bytes, is there byte for byte when the sector is written and read back: on
/// the disk, and over the wire as 256 words each way.
pub proof fn law_directory_round_trip(disk: DiskModel, image: Seq<u8>, len: int)
    requires
        image.len() == 512,
        0 <= len <= 496,
    ensures
        reply_to(
            disk_after(disk, RequestModel::Write { lba: DIR_SECTOR, data: image }),
            RequestModel::Read { lba: DIR_SECTOR },
        ) == ReplyModel::Data(image),
        record_area(directory(disk.insert(DIR_SECTOR, image)), len) == record_area(image, len),
        record_area(bytes_of_words(words_of(image)), len) == record_area(image, len),
{
    law_wire_round_trip(image);
}

/// `FORMAT` followed by `LS` reports an empty directory, whatever the disk held.
pub proof fn law_format_then_list(disk: DiskModel)
    ensures
        execute(Mode::Normal, word_format(), disk).report == ReportModel::Formatted,
        execute(
            Mode::Normal,
            word_ls(),
            execute(Mode::Normal, word_format(), disk).disk,
        ).report == ReportModel::DirectoryEmpty,
        directory(execute(Mode::Normal, word_format(), disk).disk) == formatted_image(),
{
    lemma_keywords();
    reveal_with_fuel(settle, 4);
    lemma_formatted(0);
    let formatted = execute(Mode::Normal, word_format(), disk);
    assert(directory(formatted.disk) == formatted_image());
    assert forall|j: int| 0 <= j < 15 implies !(#[trigger] record_at(
        formatted_image(),
        j,
    )).in_use() by {
        lemma_formatted(j);
    }
    lemma_listing_empty(formatted_image(), 15);
}

/// The disk after `count` runs of `TOUCH`.
pub open spec fn touched(disk: DiskModel, count: nat) -> DiskModel
    decreases count,
{
    if count == 0 {
        disk
    } else {
        execute(Mode::Normal, word_touch(), touched(disk, (count - 1) as nat)).disk
    }
}

/// After `count` runs of `TOUCH` on a formatted directory the first `count` slots
/// are in use and the others are still claimable.
proof fn lemma_touched(disk: DiskModel, count: nat)
    requires
        directory(disk) == formatted_image(),
        count <= 15,
    ensures
        sound(directory(touched(disk, count))),
        forall|j: int|
            0 <= j < count ==> (#[trigger] record_at(directory(touched(disk, count)), j)).in_use(),
        forall|j: int|
            count <= j < 15 ==> (#[trigger] record_at(
                directory(touched(disk, count)),
                j,
            )).claimable(),
    decreases count,
{
    if count == 0 {
        assert forall|j: int| 0 <= j < 15 implies (#[trigger] record_at(
            directory(touched(disk, 0)),
            j,
        )).claimable() by {
            lemma_formatted(j);
        }
        lemma_formatted(0);
    } else {
        let k = (count - 1) as nat;
        lemma_touched(disk, k);
        let before = touched(disk, k);
        let image = directory(before);
        lemma_keywords();
        reveal_with_fuel(settle, 4);
        lemma_claimable_found(image, 0, k as int);
        lemma_with_record(image, k as int, fresh_record(k as int));
        lemma_create_keeps_sound(image);
        assert(directory(touched(disk, count)) == after_create(image));
    }
}

/// On a freshly formatted directory the first fifteen runs of `TOUCH` each create a
/// file, in slot order, and every run after them reports a full directory and
/// writes nothing.
pub proof fn law_touch_fills_directory(disk: DiskModel, earlier: nat)
    requires
        directory(disk) == formatted_image(),
    ensures
        earlier < 15 ==> execute(
            Mode::Normal,
            word_touch(),
            touched(disk, earlier),
        ).report == (ReportModel::Created { slot: earlier as int }),
        earlier >= 15 ==> execute(
            Mode::Normal,
            word_touch(),
            touched(disk, earlier),
        ).report == ReportModel::DirectoryFull,
        earlier >= 15 ==> execute(Mode::Normal, word_touch(), touched(disk, earlier)).writes == 0,
        earlier >= 15 ==> touched(disk, earlier + 1) == touched(disk, earlier),
    decreases earlier,
{
    lemma_keywords();
    reveal_with_fuel(settle, 4);
    if earlier <= 15 {
        lemma_touched(disk, earlier);
        let image = directory(touched(disk, earlier));
        lemma_claimable_found(image, 0, earlier as int);
    } else {
        law_touch_fills_directory(disk, (earlier - 1) as nat);
    }
}

/// `KWRITE` and its content line, submitted while the directory holds no file to
/// write into, end in "no active file": neither step writes to the disk, and the
/// shell is back in `Normal` mode.
pub proof fn law_write_without_file(disk: DiskModel, content: Seq<u8>)
    requires
        content.len() <= 512,
        open_slot(directory(disk)) is None,
    ensures
        ({
            let asked = execute(Mode::Normal, word_kwrite(), disk);
            let asked_mode = mode_after(Mode::Normal, word_kwrite());
            let answered = execute(asked_mode, content, asked.disk);
            &&& asked.report == ReportModel::WritePrompt
            &&& asked_mode == Mode::AwaitingWriteContent
            &&& answered.report == ReportModel::NoActiveFile
            &&& asked.writes + answered.writes == 0
            &&& answered.disk == disk
            &&& mode_after(asked_mode, content) == Mode::Normal
        }),
{
    lemma_keywords();
    reveal_with_fuel(settle, 4);
}

/// What a run of `TOUCH` does: it claims the first claimable slot with one write of
/// the directory, or reports a full directory and leaves the disk alone.
pub proof fn lemma_run_touch(disk: DiskModel)
    ensures
        execute(Mode::Normal, word_touch(), disk) == (match first_claimable(directory(disk)) {
            Some(slot) => Outcome {
                report: ReportModel::Created { slot },
                disk: disk.insert(DIR_SECTOR, after_create(directory(disk))),
                writes: 1,
            },
            None => Outcome { report: ReportModel::DirectoryFull, disk, writes: 0 },
        }),
{
    lemma_keywords();
    reveal_with_fuel(settle, 4);
}

/// What a content line does where a file is open: it writes the content sector
/// first and the directory, with the new size, last.
pub proof fn lemma_run_write(disk: DiskModel, content: Seq<u8>, slot: int)
    requires
        content.len() <= 512,
        open_slot(directory(disk)) == Some(slot),
    ensures
        execute(Mode::AwaitingWriteContent, content, disk) == (Outcome {
            report: ReportModel::Synced,
            disk: disk.insert(
                record_at(directory(disk), slot).start_sector,
                content_image(content),
            ).insert(DIR_SECTOR, after_resize(directory(disk), content.len() as u32)),
            writes: 2,
        }),
{
    reveal_with_fuel(settle, 4);
}

/// The order of a finalised write, for any open file whatever its start sector:
/// the content sector is written first, the directory sector last, as the commit;
/// the directory written differs from the one read only in the size of the open
/// file's record; and nothing else is written.
pub proof fn law_commit_order(image: Seq<u8>, content: Seq<u8>, slot: int, other: int)
    requires
        image.len() == 512,
        content.len() <= 512,
        open_slot(image) == Some(slot),
        0 <= other < 15,
        other != slot,
    ensures
        ({
            let target = record_at(image, slot);
            let directory = after_resize(image, content.len() as u32);
            let first = advance(
                TransactionModel::FinalizeDirectory { content },
                ReplyModel::Data(image),
            );
            let second = advance(
                TransactionModel::FinalizeContent { directory },
                ReplyModel::Written,
            );
            &&& first == (StepModel::Disk {
                request: RequestModel::Write {
                    lba: target.start_sector,
                    data: content_image(content),
                },
                then: TransactionModel::FinalizeContent { directory },
            })
            &&& second == (StepModel::Disk {
                request: RequestModel::Write { lba: DIR_SECTOR, data: directory },
                then: TransactionModel::FinalizeCommit,
            })
            &&& advance(TransactionModel::FinalizeCommit, ReplyModel::Written) == StepModel::Done(
                ReportModel::Synced,
            )
            &&& record_at(directory, slot) == (RecordModel {
                size: content.len() as u32,
                ..target
            })
            &&& record_at(directory, other) == record_at(image, other)
            &&& forall|i: int| 0 <= i < 16 ==> directory[i] == image[i]
        }),
{
    lemma_first_in_use_from(image, 0);
    let target = record_at(image, slot);
    assert(target.name.len() == 8);
    lemma_with_record(image, slot, RecordModel { size: content.len() as u32, ..target });
}

/// What a run of `CAT` reports where a file is open: the first `size` bytes of the
/// file's content sector.
pub proof fn lemma_run_cat(disk: DiskModel, slot: int)
    requires
        open_slot(directory(disk)) == Some(slot),
    ensures
        execute(Mode::Normal, word_cat(), disk) == (Outcome {
            report: ReportModel::Content(
                content_of(
                    sector(disk, record_at(directory(disk), slot).start_sector),
                    record_at(directory(disk), slot).size,
                ),
            ),
            disk,
            writes: 0,
        }),
{
    lemma_keywords();
    reveal_with_fuel(settle, 4);
}

/// What a run of `LS` reports: the records in use, or an empty directory.
pub proof fn lemma_run_list(disk: DiskModel)
    ensures
        execute(Mode::Normal, word_ls(), disk) == (Outcome {
            report: if listing(directory(disk)).len() == 0 {
                ReportModel::DirectoryEmpty
            } else {
                ReportModel::Listing(listing(directory(disk)))
            },
            disk,
            writes: 0,
        }),
{
    lemma_keywords();
    reveal_with_fuel(settle, 4);
}

/// `KWRITE` only asks for the content line: it touches no sector.
pub proof fn lemma_run_kwrite(disk: DiskModel)
    ensures
        execute(Mode::Normal, word_kwrite(), disk) == (Outcome {
            report: ReportModel::WritePrompt,
            disk,
            writes: 0,
        }),
        mode_after(Mode::Normal, word_kwrite()) == Mode::AwaitingWriteContent,
{
    lemma_keywords();
    reveal_with_fuel(settle, 2);
}

/// Content written after a successful `TOUCH` comes back: on a sound directory,
/// `TOUCH`, `KWRITE` and a content line of at most 512 bytes end in "synced"; a
/// following `CAT` reports exactly that content, and a following `LS` lists the
/// file first, with the content's length as its size.
pub proof fn law_write_then_cat(disk: DiskModel, content: Seq<u8>)
    requires
        sound(directory(disk)),
        content.len() <= 512,
        execute(Mode::Normal, word_touch(), disk).report is Created,
    ensures
        ({
            let created = execute(Mode::Normal, word_touch(), disk).disk;
            let asked = execute(Mode::Normal, word_kwrite(), created);
            let written = execute(mode_after(Mode::Normal, word_kwrite()), content, asked.disk);
            let shown = execute(Mode::Normal, word_cat(), written.disk);
            let listed = execute(Mode::Normal, word_ls(), written.disk);
            &&& asked.report == ReportModel::WritePrompt
            &&& written.report == ReportModel::Synced
            &&& shown.report == ReportModel::Content(content)
            &&& listed.report is Listing
            &&& listed.report->Listing_0.len() >= 1
            &&& listed.report->Listing_0[0].size == content.len()
            &&& sound(directory(written.disk))
        }),
{
    let image0 = directory(disk);
    lemma_run_touch(disk);
    lemma_first_claimable_from(image0, 0);
    lemma_create_keeps_sound(image0);
    let created = execute(Mode::Normal, word_touch(), disk).disk;
    let image1 = directory(created);
    let claimed = first_claimable(image0)->Some_0;
    assert(image1 == after_create(image0));
    lemma_with_record(image0, claimed, fresh_record(claimed));
    assert(record_at(image1, claimed).in_use());
    // The directory now holds a file, so the scan finds one, and soundness puts its
    // content sector behind the directory.
    lemma_first_in_use_from(image1, 0);
    let slot = first_in_use_from(image1, 0);
    assert(slot < 15) by {
        if slot == 15 {
            assert(!record_at(image1, claimed).in_use());
        }
    }
    assert(record_at(image1, slot).in_use());
    let target = record_at(image1, slot);
    assert(target.start_sector == DIR_SECTOR + 1 + slot);
    assert(open_slot(image1) == Some(slot));
    let len = content.len() as u32;
    let resized = RecordModel { size: len, ..target };
    assert(target.name.len() == 8);
    lemma_with_record(image1, slot, resized);
    lemma_resize_keeps_sound(image1, len);
    let image2 = after_resize(image1, len);
    lemma_run_kwrite(created);
    lemma_run_write(created, content, slot);
    let written = execute(Mode::AwaitingWriteContent, content, created);
    assert(directory(written.disk) == image2);
    assert(sector(written.disk, target.start_sector) == content_image(content));
    assert forall|j: int| 0 <= j < slot implies !(#[trigger] record_at(image2, j)).in_use() by {
        assert(record_at(image2, j) == record_at(image1, j));
    }
    lemma_in_use_found(image2, 0, slot);
    assert(open_slot(image2) == Some(slot));
    assert(content_of(content_image(content), len) =~= content);
    lemma_run_cat(written.disk, slot);
    lemma_listing_head(image2, slot, 15);
    lemma_run_list(written.disk);
}

} // verus!
