//! The command dispatcher: a two-state shell whose disk work is handed out one
//! request at a time and resumed with the disk's reply.

use vstd::prelude::*;
use crate::directory::{
    after_create, after_resize, create, first_claimable, format_image, formatted_image,
    is_formatted, list, listing, open_file, open_slot, record_at, record_views,
    resize_open_file, DIR_SECTOR, MAGIC,
};
use crate::record::{FileRecord, RecordModel};

verus! {

/// Whether the next submitted line is a command or the content of a pending write.
#[derive(Clone, Copy, Debug, PartialEq, Eq, Structural)]
pub enum Mode {
    Normal,
    AwaitingWriteContent,
}

/// What a line means in `Normal` mode.
#[derive(Clone, Copy, Debug, PartialEq, Eq, Structural)]
pub enum Command {
    Empty,
    Help,
    Fetch,
    Format,
    Ls,
    Touch,
    Cat,
    Kwrite,
    Clear,
    Reboot,
    Unknown,
}

/// One single-sector transfer the dispatcher asks of the disk driver.
#[derive(Clone, Copy, Debug, PartialEq, Eq)]
pub enum DiskRequest {
    Read { lba: u32 },
    Write { lba: u32, data: [u8; 512] },
}

/// How a transfer ended.
#[derive(Clone, Copy, Debug, PartialEq, Eq)]
pub enum DiskReply {
    Data([u8; 512]),
    Written,
    Failed,
}

/// The one result of a command, ready for the display.
#[derive(Debug, PartialEq, Eq)]
pub enum Report {
    Nothing,
    Help,
    SystemInfo,
    Formatted,
    FormatFailed,
    DirectoryEmpty,
    Listing(Vec<FileRecord>),
    Created { slot: usize },
    DirectoryFull,
    Content(Vec<u8>),
    NoFileFound,
    WritePrompt,
    Synced,
    NoActiveFile,
    ContentTooLong,
    Cleared,
    Reboot,
    UnknownCommand,
    DiskError,
}

/// Where a command stands while a disk transfer is under way.
#[derive(Debug, PartialEq, Eq)]
pub enum Transaction {
    FormatWrite,
    FormatVerify,
    ListRead,
    CreateRead,
    CreateWrite { slot: usize },
    CatDirectory,
    CatContent { size: u32 },
    FinalizeDirectory { content: Vec<u8> },
    FinalizeContent { directory: [u8; 512] },
    FinalizeCommit,
}

/// What the dispatcher wants next: a disk transfer, or nothing more.
#[derive(Debug, PartialEq, Eq)]
pub enum Step {
    Disk { request: DiskRequest, then: Transaction },
    Done(Report),
}

/// A disk request as plain values.
pub enum RequestModel {
    Read { lba: u32 },
    Write { lba: u32, data: Seq<u8> },
}

/// A disk reply as plain values.
pub enum ReplyModel {
    Data(Seq<u8>),
    Written,
    Failed,
}

/// A report as plain values.
pub enum ReportModel {
    Nothing,
    Help,
    SystemInfo,
    Formatted,
    FormatFailed,
    DirectoryEmpty,
    Listing(Seq<RecordModel>),
    Created { slot: int },
    DirectoryFull,
    Content(Seq<u8>),
    NoFileFound,
    WritePrompt,
    Synced,
    NoActiveFile,
    ContentTooLong,
    Cleared,
    Reboot,
    UnknownCommand,
    DiskError,
}

/// A transaction as plain values.
pub enum TransactionModel {
    FormatWrite,
    FormatVerify,
    ListRead,
    CreateRead,
    CreateWrite { slot: int },
    CatDirectory,
    CatContent { size: u32 },
    FinalizeDirectory { content: Seq<u8> },
    FinalizeContent { directory: Seq<u8> },
    FinalizeCommit,
}

/// A step as plain values.
pub enum StepModel {
    Disk { request: RequestModel, then: TransactionModel },
    Done(ReportModel),
}

impl View for DiskRequest {
    type V = RequestModel;

    open spec fn view(&self) -> RequestModel {
        match *self {
            DiskRequest::Read { lba } => RequestModel::Read { lba },
            DiskRequest::Write { lba, data } => RequestModel::Write { lba, data: data@ },
        }
    }
}

impl View for DiskReply {
    type V = ReplyModel;

    open spec fn view(&self) -> ReplyModel {
        match *self {
            DiskReply::Data(data) => ReplyModel::Data(data@),
            DiskReply::Written => ReplyModel::Written,
            DiskReply::Failed => ReplyModel::Failed,
        }
    }
}

impl View for Report {
    type V = ReportModel;

    open spec fn view(&self) -> ReportModel {
        match *self {
            Report::Nothing => ReportModel::Nothing,
            Report::Help => ReportModel::Help,
            Report::SystemInfo => ReportModel::SystemInfo,
            Report::Formatted => ReportModel::Formatted,
            Report::FormatFailed => ReportModel::FormatFailed,
            Report::DirectoryEmpty => ReportModel::DirectoryEmpty,
            Report::Listing(records) => ReportModel::Listing(record_views(records@)),
            Report::Created { slot } => ReportModel::Created { slot: slot as int },
            Report::DirectoryFull => ReportModel::DirectoryFull,
            Report::Content(bytes) => ReportModel::Content(bytes@),
            Report::NoFileFound => ReportModel::NoFileFound,
            Report::WritePrompt => ReportModel::WritePrompt,
            Report::Synced => ReportModel::Synced,
            Report::NoActiveFile => ReportModel::NoActiveFile,
            Report::ContentTooLong => ReportModel::ContentTooLong,
            Report::Cleared => ReportModel::Cleared,
            Report::Reboot => ReportModel::Reboot,
            Report::UnknownCommand => ReportModel::UnknownCommand,
            Report::DiskError => ReportModel::DiskError,
        }
    }
}

impl View for Transaction {
    type V = TransactionModel;

    open spec fn view(&self) -> TransactionModel {
        match *self {
            Transaction::FormatWrite => TransactionModel::FormatWrite,
            Transaction::FormatVerify => TransactionModel::FormatVerify,
            Transaction::ListRead => TransactionModel::ListRead,
            Transaction::CreateRead => TransactionModel::CreateRead,
            Transaction::CreateWrite { slot } => TransactionModel::CreateWrite { slot: slot as int },
            Transaction::CatDirectory => TransactionModel::CatDirectory,
            Transaction::CatContent { size } => TransactionModel::CatContent { size },
            Transaction::FinalizeDirectory { content } => TransactionModel::FinalizeDirectory {
                content: content@,
            },
            Transaction::FinalizeContent { directory } => TransactionModel::FinalizeContent {
                directory: directory@,
            },
            Transaction::FinalizeCommit => TransactionModel::FinalizeCommit,
        }
    }
}

impl View for Step {
    type V = StepModel;

    open spec fn view(&self) -> StepModel {
        match *self {
            Step::Disk { request, then } => StepModel::Disk { request: request@, then: then@ },
            Step::Done(report) => StepModel::Done(report@),
        }
    }
}

/// `HELP`
pub open spec fn word_help() -> Seq<u8> {
    seq![0x48u8, 0x45u8, 0x4Cu8, 0x50u8]
}

/// `FETCH`
pub open spec fn word_fetch() -> Seq<u8> {
    seq![0x46u8, 0x45u8, 0x54u8, 0x43u8, 0x48u8]
}

/// `FORMAT`
pub open spec fn word_format() -> Seq<u8> {
    seq![0x46u8, 0x4Fu8, 0x52u8, 0x4Du8, 0x41u8, 0x54u8]
}

/// `LS`
pub open spec fn word_ls() -> Seq<u8> {
    seq![0x4Cu8, 0x53u8]
}

/// `TOUCH`
pub open spec fn word_touch() -> Seq<u8> {
    seq![0x54u8, 0x4Fu8, 0x55u8, 0x43u8, 0x48u8]
}

/// `CAT`
pub open spec fn word_cat() -> Seq<u8> {
    seq![0x43u8, 0x41u8, 0x54u8]
}

/// `KWRITE`
pub open spec fn word_kwrite() -> Seq<u8> {
    seq![0x4Bu8, 0x57u8, 0x52u8, 0x49u8, 0x54u8, 0x45u8]
}

/// `CLEAR`
pub open spec fn word_clear() -> Seq<u8> {
    seq![0x43u8, 0x4Cu8, 0x45u8, 0x41u8, 0x52u8]
}

/// `REBOOT`
pub open spec fn word_reboot() -> Seq<u8> {
    seq![0x52u8, 0x45u8, 0x42u8, 0x4Fu8, 0x4Fu8, 0x54u8]
}

/// The command a line spells: an upper-case keyword, exactly and alone.
pub open spec fn command_of(line: Seq<u8>) -> Command {
    if line.len() == 0 {
        Command::Empty
    } else if line == word_help() {
        Command::Help
    } else if line == word_format() {
        Command::Format
    } else if line == word_ls() {
        Command::Ls
    } else if line == word_touch() {
        Command::Touch
    } else if line == word_cat() {
        Command::Cat
    } else if line == word_kwrite() {
        Command::Kwrite
    } else if line == word_fetch() {
        Command::Fetch
    } else if line == word_clear() {
        Command::Clear
    } else if line == word_reboot() {
        Command::Reboot
    } else {
        Command::Unknown
    }
}

/// A content sector that starts with `content` and is zero behind it.
pub open spec fn content_image(content: Seq<u8>) -> Seq<u8> {
    Seq::new(512, |i: int| if i < content.len() { content[i] } else { 0u8 })
}

/// The first `size` bytes of a content sector, all of it where `size` exceeds the sector.
pub open spec fn content_of(image: Seq<u8>, size: u32) -> Seq<u8> {
    image.subrange(0, if size <= image.len() { size as int } else { image.len() as int })
}

/// A read of the directory sector, to be followed by `then`.
pub open spec fn read_directory(then: TransactionModel) -> StepModel {
    StepModel::Disk { request: RequestModel::Read { lba: DIR_SECTOR }, then }
}

/// The mode after a line was submitted: a content line and every command return to
/// `Normal`; `KWRITE` alone asks for a content line.
pub open spec fn mode_after(mode: Mode, line: Seq<u8>) -> Mode {
    if mode == Mode::Normal && command_of(line) == Command::Kwrite {
        Mode::AwaitingWriteContent
    } else {
        Mode::Normal
    }
}

/// The first step of the work a submitted line sets off.
pub open spec fn begin(mode: Mode, line: Seq<u8>) -> StepModel {
    match mode {
        Mode::AwaitingWriteContent => if line.len() > 512 {
            StepModel::Done(ReportModel::ContentTooLong)
        } else {
            read_directory(TransactionModel::FinalizeDirectory { content: line })
        },
        Mode::Normal => match command_of(line) {
            Command::Empty => StepModel::Done(ReportModel::Nothing),
            Command::Help => StepModel::Done(ReportModel::Help),
            Command::Fetch => StepModel::Done(ReportModel::SystemInfo),
            Command::Format => StepModel::Disk {
                request: RequestModel::Write { lba: DIR_SECTOR, data: formatted_image() },
                then: TransactionModel::FormatWrite,
            },
            Command::Ls => read_directory(TransactionModel::ListRead),
            Command::Touch => read_directory(TransactionModel::CreateRead),
            Command::Cat => read_directory(TransactionModel::CatDirectory),
            Command::Kwrite => StepModel::Done(ReportModel::WritePrompt),
            Command::Clear => StepModel::Done(ReportModel::Cleared),
            Command::Reboot => StepModel::Done(ReportModel::Reboot),
            Command::Unknown => StepModel::Done(ReportModel::UnknownCommand),
        },
    }
}

/// The step that follows a disk reply. A read wants `Data` and a write wants `Written`;
/// any other reply ends the command in `DiskError`, except that a format goes on to
/// its read-back whatever the write returned and judges by the read-back alone.
/// Content that no sector can hold is turned away before anything is written.
pub open spec fn advance(txn: TransactionModel, reply: ReplyModel) -> StepModel {
    match txn {
        TransactionModel::FormatWrite => read_directory(TransactionModel::FormatVerify),
        TransactionModel::FormatVerify => match reply {
            ReplyModel::Data(image) => if image[0] == MAGIC {
                StepModel::Done(ReportModel::Formatted)
            } else {
                StepModel::Done(ReportModel::FormatFailed)
            },
            _ => StepModel::Done(ReportModel::FormatFailed),
        },
        TransactionModel::ListRead => match reply {
            ReplyModel::Data(image) => if listing(image).len() == 0 {
                StepModel::Done(ReportModel::DirectoryEmpty)
            } else {
                StepModel::Done(ReportModel::Listing(listing(image)))
            },
            _ => StepModel::Done(ReportModel::DiskError),
        },
        TransactionModel::CreateRead => match reply {
            ReplyModel::Data(image) => match first_claimable(image) {
                Some(slot) => StepModel::Disk {
                    request: RequestModel::Write { lba: DIR_SECTOR, data: after_create(image) },
                    then: TransactionModel::CreateWrite { slot },
                },
                None => StepModel::Done(ReportModel::DirectoryFull),
            },
            _ => StepModel::Done(ReportModel::DiskError),
        },
        TransactionModel::CreateWrite { slot } => match reply {
            ReplyModel::Written => StepModel::Done(ReportModel::Created { slot }),
            _ => StepModel::Done(ReportModel::DiskError),
        },
        TransactionModel::CatDirectory => match reply {
            ReplyModel::Data(image) => match open_slot(image) {
                Some(slot) => StepModel::Disk {
                    request: RequestModel::Read { lba: record_at(image, slot).start_sector },
                    then: TransactionModel::CatContent { size: record_at(image, slot).size },
                },
                None => StepModel::Done(ReportModel::NoFileFound),
            },
            _ => StepModel::Done(ReportModel::DiskError),
        },
        TransactionModel::CatContent { size } => match reply {
            ReplyModel::Data(image) => StepModel::Done(
                ReportModel::Content(content_of(image, size)),
            ),
            _ => StepModel::Done(ReportModel::DiskError),
        },
        TransactionModel::FinalizeDirectory { content } => match reply {
            ReplyModel::Data(image) => if content.len() > 512 {
                StepModel::Done(ReportModel::ContentTooLong)
            } else {
                match open_slot(image) {
                    Some(slot) => StepModel::Disk {
                        request: RequestModel::Write {
                            lba: record_at(image, slot).start_sector,
                            data: content_image(content),
                        },
                        then: TransactionModel::FinalizeContent {
                            directory: after_resize(image, content.len() as u32),
                        },
                    },
                    None => StepModel::Done(ReportModel::NoActiveFile),
                }
            },
            _ => StepModel::Done(ReportModel::DiskError),
        },
        TransactionModel::FinalizeContent { directory } => match reply {
            ReplyModel::Written => StepModel::Disk {
                request: RequestModel::Write { lba: DIR_SECTOR, data: directory },
                then: TransactionModel::FinalizeCommit,
            },
            _ => StepModel::Done(ReportModel::DiskError),
        },
        TransactionModel::FinalizeCommit => match reply {
            ReplyModel::Written => StepModel::Done(ReportModel::Synced),
            _ => StepModel::Done(ReportModel::DiskError),
        },
    }
}

/// Compares a line with a keyword, byte for byte.
pub fn str_eq(buf: &[u8], word: &[u8]) -> (same: bool)
    ensures
        same == (buf@ == word@),
{
    if buf.len() != word.len() {
        return false;
    }
    let mut i: usize = 0;
    while i < buf.len()
        invariant
            i <= buf@.len(),
            buf@.len() == word@.len(),
            forall|k: int| 0 <= k < i ==> buf@[k] == word@[k],
        decreases buf@.len() - i,
    {
        if buf[i] != word[i] {
            return false;
        }
        i += 1;
    }
    assert(buf@ =~= word@);
    true
}

/// Reads the command a line spells.
pub fn parse(line: &[u8]) -> (command: Command)
    ensures
        command == command_of(line@),
{
    let help: [u8; 4] = [0x48, 0x45, 0x4C, 0x50];
    let fetch: [u8; 5] = [0x46, 0x45, 0x54, 0x43, 0x48];
    let format: [u8; 6] = [0x46, 0x4F, 0x52, 0x4D, 0x41, 0x54];
    let ls: [u8; 2] = [0x4C, 0x53];
    let touch: [u8; 5] = [0x54, 0x4F, 0x55, 0x43, 0x48];
    let cat: [u8; 3] = [0x43, 0x41, 0x54];
    let kwrite: [u8; 6] = [0x4B, 0x57, 0x52, 0x49, 0x54, 0x45];
    let clear: [u8; 5] = [0x43, 0x4C, 0x45, 0x41, 0x52];
    let reboot: [u8; 6] = [0x52, 0x45, 0x42, 0x4F, 0x4F, 0x54];
    assert(help@ =~= word_help());
    assert(fetch@ =~= word_fetch());
    assert(format@ =~= word_format());
    assert(ls@ =~= word_ls());
    assert(touch@ =~= word_touch());
    assert(cat@ =~= word_cat());
    assert(kwrite@ =~= word_kwrite());
    assert(clear@ =~= word_clear());
    assert(reboot@ =~= word_reboot());
    if line.len() == 0 {
        Command::Empty
    } else if str_eq(line, help.as_slice()) {
        Command::Help
    } else if str_eq(line, format.as_slice()) {
        Command::Format
    } else if str_eq(line, ls.as_slice()) {
        Command::Ls
    } else if str_eq(line, touch.as_slice()) {
        Command::Touch
    } else if str_eq(line, cat.as_slice()) {
        Command::Cat
    } else if str_eq(line, kwrite.as_slice()) {
        Command::Kwrite
    } else if str_eq(line, fetch.as_slice()) {
        Command::Fetch
    } else if str_eq(line, clear.as_slice()) {
        Command::Clear
    } else if str_eq(line, reboot.as_slice()) {
        Command::Reboot
    } else {
        Command::Unknown
    }
}

/// Lays content out as a content sector: the bytes first, zeros behind them.
pub fn fill_content(content: &[u8]) -> (image: [u8; 512])
    requires
        content@.len() <= 512,
    ensures
        image@ == content_image(content@),
{
    let mut image: [u8; 512] = [0u8; 512];
    let mut i: usize = 0;
    while i < content.len()
        invariant
            i <= content@.len() <= 512,
            forall|k: int| 0 <= k < i ==> image@[k] == content@[k],
            forall|k: int| i <= k < 512 ==> image@[k] == 0,
        decreases content@.len() - i,
    {
        image[i] = content[i];
        i += 1;
    }
    assert(image@ =~= content_image(content@));
    image
}

/// Copies the meaningful bytes out of a content sector.
pub fn take_content(image: &[u8; 512], size: u32) -> (bytes: Vec<u8>)
    ensures
        bytes@ == content_of(image@, size),
{
    let count: usize = if size <= 512 { size as usize } else { 512 };
    let mut bytes: Vec<u8> = Vec::new();
    let mut i: usize = 0;
    while i < count
        invariant
            i <= count <= 512,
            bytes@ =~= image@.subrange(0, i as int),
        decreases count - i,
    {
        bytes.push(image[i]);
        i += 1;
    }
    bytes
}

/// The dispatcher's own state: the mode latch.
#[derive(Clone, Copy, Debug)]
pub struct Shell {
    pub mode: Mode,
}

impl Shell {
    /// A dispatcher in `Normal` mode.
    pub fn new() -> (shell: Shell)
        ensures
            shell.mode == Mode::Normal,
    {
        Shell { mode: Mode::Normal }
    }

    /// Takes one submitted line. In `Normal` mode the line is a command; in
    /// `AwaitingWriteContent` it is the raw content of the open file. Commands that
    /// need the disk answer with their first transfer; the rest are done at once.
    pub fn execute_command(&mut self, line: &[u8]) -> (step: Step)
        ensures
            step@ == begin(old(self).mode, line@),
            final(self).mode == mode_after(old(self).mode, line@),
    {
        match self.mode {
            Mode::AwaitingWriteContent => {
                self.mode = Mode::Normal;
                if line.len() > 512 {
                    Step::Done(Report::ContentTooLong)
                } else {
                    let content: Vec<u8> = vstd::slice::slice_to_vec(line);
                    Step::Disk {
                        request: DiskRequest::Read { lba: DIR_SECTOR },
                        then: Transaction::FinalizeDirectory { content },
                    }
                }
            },
            Mode::Normal => match parse(line) {
                Command::Empty => Step::Done(Report::Nothing),
                Command::Help => Step::Done(Report::Help),
                Command::Fetch => Step::Done(Report::SystemInfo),
                Command::Format => Step::Disk {
                    request: DiskRequest::Write { lba: DIR_SECTOR, data: format_image() },
                    then: Transaction::FormatWrite,
                },
                Command::Ls => Step::Disk {
                    request: DiskRequest::Read { lba: DIR_SECTOR },
                    then: Transaction::ListRead,
                },
                Command::Touch => Step::Disk {
                    request: DiskRequest::Read { lba: DIR_SECTOR },
                    then: Transaction::CreateRead,
                },
                Command::Cat => Step::Disk {
                    request: DiskRequest::Read { lba: DIR_SECTOR },
                    then: Transaction::CatDirectory,
                },
                Command::Kwrite => {
                    self.mode = Mode::AwaitingWriteContent;
                    Step::Done(Report::WritePrompt)
                },
                Command::Clear => Step::Done(Report::Cleared),
                Command::Reboot => Step::Done(Report::Reboot),
                Command::Unknown => Step::Done(Report::UnknownCommand),
            },
        }
    }
}

impl Transaction {
    /// Goes on with a command once the disk has answered its last request.
    pub fn resume(self, reply: DiskReply) -> (step: Step)
        ensures
            step@ == advance(self@, reply@),
    {
        match self {
            Transaction::FormatWrite => Step::Disk {
                request: DiskRequest::Read { lba: DIR_SECTOR },
                then: Transaction::FormatVerify,
            },
            Transaction::FormatVerify => match reply {
                DiskReply::Data(image) => {
                    if is_formatted(&image) {
                        Step::Done(Report::Formatted)
                    } else {
                        Step::Done(Report::FormatFailed)
                    }
                },
                _ => Step::Done(Report::FormatFailed),
            },
            Transaction::ListRead => match reply {
                DiskReply::Data(image) => {
                    let records = list(&image);
                    if records.len() == 0 {
                        Step::Done(Report::DirectoryEmpty)
                    } else {
                        Step::Done(Report::Listing(records))
                    }
                },
                _ => Step::Done(Report::DiskError),
            },
            Transaction::CreateRead => match reply {
                DiskReply::Data(image) => {
                    let mut directory = image;
                    match create(&mut directory) {
                        Some(slot) => Step::Disk {
                            request: DiskRequest::Write { lba: DIR_SECTOR, data: directory },
                            then: Transaction::CreateWrite { slot },
                        },
                        None => Step::Done(Report::DirectoryFull),
                    }
                },
                _ => Step::Done(Report::DiskError),
            },
            Transaction::CreateWrite { slot } => match reply {
                DiskReply::Written => Step::Done(Report::Created { slot }),
                _ => Step::Done(Report::DiskError),
            },
            Transaction::CatDirectory => match reply {
                DiskReply::Data(image) => match open_file(&image) {
                    Some((_, rec)) => Step::Disk {
                        request: DiskRequest::Read { lba: rec.start_sector },
                        then: Transaction::CatContent { size: rec.size },
                    },
                    None => Step::Done(Report::NoFileFound),
                },
                _ => Step::Done(Report::DiskError),
            },
            Transaction::CatContent { size } => match reply {
                DiskReply::Data(image) => Step::Done(Report::Content(take_content(&image, size))),
                _ => Step::Done(Report::DiskError),
            },
            Transaction::FinalizeDirectory { content } => match reply {
                DiskReply::Data(image) => {
                    if content.len() > 512 {
                        return Step::Done(Report::ContentTooLong);
                    }
                    let mut directory = image;
                    match resize_open_file(&mut directory, content.len() as u32) {
                        Some(lba) => Step::Disk {
                            request: DiskRequest::Write {
                                lba,
                                data: fill_content(content.as_slice()),
                            },
                            then: Transaction::FinalizeContent { directory },
                        },
                        None => Step::Done(Report::NoActiveFile),
                    }
                },
                _ => Step::Done(Report::DiskError),
            },
            Transaction::FinalizeContent { directory } => match reply {
                DiskReply::Written => Step::Disk {
                    request: DiskRequest::Write { lba: DIR_SECTOR, data: directory },
                    then: Transaction::FinalizeCommit,
                },
                _ => Step::Done(Report::DiskError),
            },
            Transaction::FinalizeCommit => match reply {
                DiskReply::Written => Step::Done(Report::Synced),
                _ => Step::Done(Report::DiskError),
            },
        }
    }
}

} // verus!
