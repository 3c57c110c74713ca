//! The disk protocol driver: one single-sector ATA PIO transfer as a state machine
//! that names the next port access and takes what the port returned.

use vstd::prelude::*;
use crate::shell::{DiskReply, DiskRequest, ReplyModel, RequestModel};

verus! {

/// 16-bit data port.
pub const PORT_DATA: u16 = 0x1F0;

/// Sector count register.
pub const PORT_SECTOR_COUNT: u16 = 0x1F2;

/// Block address, bits 0 to 7.
pub const PORT_LBA_LOW: u16 = 0x1F3;

/// Block address, bits 8 to 15.
pub const PORT_LBA_MID: u16 = 0x1F4;

/// Block address, bits 16 to 23.
pub const PORT_LBA_HIGH: u16 = 0x1F5;

/// Drive and head select; carries bits 24 to 27 of the block address.
pub const PORT_DRIVE_SELECT: u16 = 0x1F6;

/// Command register when written, status register when read.
pub const PORT_COMMAND: u16 = 0x1F7;

/// Device control register; reading it is the settle delay.
pub const PORT_CONTROL: u16 = 0x3F6;

/// Command byte: read one sector.
pub const COMMAND_READ: u8 = 0x20;

/// Command byte: write one sector.
pub const COMMAND_WRITE: u8 = 0x30;

/// Command byte: flush the write cache.
pub const COMMAND_FLUSH: u8 = 0xE7;

/// Status bit 7: the drive is busy.
pub const STATUS_BUSY: u8 = 0x80;

/// Status bit 6: the drive is ready.
pub const STATUS_READY: u8 = 0x40;

/// Status bit 3: the drive wants the data port used.
pub const STATUS_DATA_REQUEST: u8 = 0x08;

/// Status bit 0: the last command failed.
pub const STATUS_ERROR: u8 = 0x01;

/// Dummy reads that make up one settle delay.
pub const SETTLE_READS: u8 = 4;

/// Status polls the wait for a ready drive may take.
pub const READY_BUDGET: u32 = 100000;

/// Status polls the wait for a data request may take.
pub const DATA_REQUEST_BUDGET: u32 = 100000;

/// 16-bit words in one sector.
pub const SECTOR_WORDS: u16 = 256;

/// One access to an I/O port, or the end of the transfer.
#[derive(Clone, Copy, Debug, PartialEq, Eq)]
pub enum PortAction {
    Out8 { port: u16, value: u8 },
    In8 { port: u16 },
    Out16 { port: u16, word: u16 },
    In16 { port: u16 },
    Finished,
}

/// Where a transfer stands.
#[derive(Clone, Copy, Debug, PartialEq, Eq)]
pub enum Phase {
    Select,
    SelectSettle { reads: u8 },
    ReadyWait { budget: u32 },
    Program { register: u8 },
    CommandSettle { reads: u8 },
    DataRequestWait { budget: u32 },
    Data { index: u16 },
    FlushWait,
    Flush,
    DurableWait,
    Done,
    Failed,
}

/// One transfer in progress.
#[derive(Clone, Copy, Debug)]
pub struct Transfer {
    write: bool,
    lba: u32,
    data: [u8; 512],
    phase: Phase,
}

/// A transfer as plain values.
pub struct TransferModel {
    pub write: bool,
    pub lba: u32,
    pub data: Seq<u8>,
    pub phase: Phase,
}

impl View for Transfer {
    type V = TransferModel;

    closed spec fn view(&self) -> TransferModel {
        TransferModel { write: self.write, lba: self.lba, data: self.data@, phase: self.phase }
    }
}

/// The counters of a phase stay inside their ranges.
pub open spec fn phase_in_range(phase: Phase) -> bool {
    match phase {
        Phase::SelectSettle { reads } => reads < 4,
        Phase::ReadyWait { budget } => budget > 0,
        Phase::Program { register } => register < 5,
        Phase::CommandSettle { reads } => reads < 4,
        Phase::DataRequestWait { budget } => budget > 0,
        Phase::Data { index } => index < 256,
        _ => true,
    }
}

/// The busy bit of a status byte.
pub open spec fn busy(status: u8) -> bool {
    status & STATUS_BUSY != 0
}

/// The ready bit of a status byte.
pub open spec fn ready(status: u8) -> bool {
    status & STATUS_READY != 0
}

/// The data request bit of a status byte.
pub open spec fn data_requested(status: u8) -> bool {
    status & STATUS_DATA_REQUEST != 0
}

/// The error bit of a status byte.
pub open spec fn error(status: u8) -> bool {
    status & STATUS_ERROR != 0
}

/// The status byte inside what a port read returned.
pub open spec fn status_of(input: u16) -> u8 {
    (input % 256) as u8
}

/// The drive select byte: LBA mode, master drive, bits 24 to 27 of the address.
pub open spec fn select_byte(lba: u32) -> u8 {
    (0xE0 + lba / 0x100_0000 % 16) as u8
}

/// The five registers that set a command going, in the order they are written:
/// sector count 1, the low 24 address bits in three bytes, the command.
pub open spec fn program_step(write: bool, lba: u32, register: u8) -> PortAction {
    if register == 0 {
        PortAction::Out8 { port: PORT_SECTOR_COUNT, value: 1 }
    } else if register == 1 {
        PortAction::Out8 { port: PORT_LBA_LOW, value: (lba % 256) as u8 }
    } else if register == 2 {
        PortAction::Out8 { port: PORT_LBA_MID, value: (lba / 256 % 256) as u8 }
    } else if register == 3 {
        PortAction::Out8 { port: PORT_LBA_HIGH, value: (lba / 65536 % 256) as u8 }
    } else {
        PortAction::Out8 {
            port: PORT_COMMAND,
            value: if write { COMMAND_WRITE } else { COMMAND_READ },
        }
    }
}

/// The word that bytes `2 * index` and `2 * index + 1` of a sector make, low byte first.
pub open spec fn word_at(data: Seq<u8>, index: int) -> u16 {
    (data[2 * index] + 256 * data[2 * index + 1]) as u16
}

/// The sector with word `index` replaced.
pub open spec fn with_word(data: Seq<u8>, index: int, word: u16) -> Seq<u8> {
    data.update(2 * index, (word % 256) as u8).update(2 * index + 1, (word / 256) as u8)
}

/// The port access a transfer asks for in its present phase.
pub open spec fn action_of(t: TransferModel) -> PortAction {
    match t.phase {
        Phase::Select => PortAction::Out8 { port: PORT_DRIVE_SELECT, value: select_byte(t.lba) },
        Phase::SelectSettle { reads } => PortAction::In8 { port: PORT_CONTROL },
        Phase::ReadyWait { budget } => PortAction::In8 { port: PORT_COMMAND },
        Phase::Program { register } => program_step(t.write, t.lba, register),
        Phase::CommandSettle { reads } => PortAction::In8 { port: PORT_CONTROL },
        Phase::DataRequestWait { budget } => PortAction::In8 { port: PORT_COMMAND },
        Phase::Data { index } => if t.write {
            PortAction::Out16 { port: PORT_DATA, word: word_at(t.data, index as int) }
        } else {
            PortAction::In16 { port: PORT_DATA }
        },
        Phase::FlushWait => PortAction::In8 { port: PORT_COMMAND },
        Phase::Flush => PortAction::Out8 { port: PORT_COMMAND, value: COMMAND_FLUSH },
        Phase::DurableWait => PortAction::In8 { port: PORT_COMMAND },
        Phase::Done => PortAction::Finished,
        Phase::Failed => PortAction::Finished,
    }
}

/// The phase that follows once the present access was made and returned `input`.
///
/// The wait for a ready drive ends when the drive is ready and not busy, or shows
/// an error left by an earlier command, which the new command clears; it fails when
/// its budget of polls is spent. The wait for a data request looks for the request
/// first and the error bit second, and fails on an error or a spent budget. The two
/// waits around the cache flush of a write poll until the drive is not busy.
pub open spec fn next_phase(t: TransferModel, input: u16) -> Phase {
    let status = status_of(input);
    match t.phase {
        Phase::Select => Phase::SelectSettle { reads: 0 },
        Phase::SelectSettle { reads } => if reads + 1 >= 4 {
            Phase::ReadyWait { budget: READY_BUDGET }
        } else {
            Phase::SelectSettle { reads: (reads + 1) as u8 }
        },
        Phase::ReadyWait { budget } => if error(status) || (!busy(status) && ready(status)) {
            Phase::Program { register: 0 }
        } else if budget <= 1 {
            Phase::Failed
        } else {
            Phase::ReadyWait { budget: (budget - 1) as u32 }
        },
        Phase::Program { register } => if register >= 4 {
            Phase::CommandSettle { reads: 0 }
        } else {
            Phase::Program { register: (register + 1) as u8 }
        },
        Phase::CommandSettle { reads } => if reads + 1 >= 4 {
            Phase::DataRequestWait { budget: DATA_REQUEST_BUDGET }
        } else {
            Phase::CommandSettle { reads: (reads + 1) as u8 }
        },
        Phase::DataRequestWait { budget } => if data_requested(status) {
            Phase::Data { index: 0 }
        } else if error(status) || budget <= 1 {
            Phase::Failed
        } else {
            Phase::DataRequestWait { budget: (budget - 1) as u32 }
        },
        Phase::Data { index } => if index + 1 < 256 {
            Phase::Data { index: (index + 1) as u16 }
        } else if t.write {
            Phase::FlushWait
        } else {
            Phase::Done
        },
        Phase::FlushWait => if busy(status) { Phase::FlushWait } else { Phase::Flush },
        Phase::Flush => Phase::DurableWait,
        Phase::DurableWait => if busy(status) { Phase::DurableWait } else { Phase::Done },
        Phase::Done => Phase::Done,
        Phase::Failed => Phase::Failed,
    }
}

/// The transfer after its present access returned `input`: a read stores the data
/// word it received; nothing else touches the sector buffer.
pub open spec fn fed(t: TransferModel, input: u16) -> TransferModel {
    TransferModel {
        phase: next_phase(t, input),
        data: match t.phase {
            Phase::Data { index } => if t.write {
                t.data
            } else {
                with_word(t.data, index as int, input)
            },
            _ => t.data,
        },
        ..t
    }
}

/// How a transfer that has finished answers the request it was started for.
pub open spec fn reply_of(t: TransferModel) -> Option<ReplyModel> {
    match t.phase {
        Phase::Done => Some(if t.write { ReplyModel::Written } else { ReplyModel::Data(t.data) }),
        Phase::Failed => Some(ReplyModel::Failed),
        _ => None,
    }
}

/// The transfer that serves a request, before its first port access.
pub open spec fn started(request: RequestModel) -> TransferModel {
    match request {
        RequestModel::Read { lba } => TransferModel {
            write: false,
            lba,
            data: Seq::new(512, |i: int| 0u8),
            phase: Phase::Select,
        },
        RequestModel::Write { lba, data } => TransferModel {
            write: true,
            lba,
            data,
            phase: Phase::Select,
        },
    }
}

/// The transfer after a run of port results, first to last.
pub open spec fn fed_all(t: TransferModel, inputs: Seq<u16>) -> TransferModel
    decreases inputs.len(),
{
    if inputs.len() == 0 {
        t
    } else {
        fed(fed_all(t, inputs.drop_last()), inputs.last())
    }
}

/// Feeding two runs one after the other is feeding their concatenation.
pub proof fn lemma_fed_all_split(t: TransferModel, first: Seq<u16>, second: Seq<u16>)
    ensures
        fed_all(t, first + second) == fed_all(fed_all(t, first), second),
    decreases second.len(),
{
    if second.len() == 0 {
        assert(first + second =~= first);
    } else {
        lemma_fed_all_split(t, first, second.drop_last());
        assert((first + second).drop_last() =~= first + second.drop_last());
    }
}

/// A status that ends the wait for a ready drive.
pub open spec fn answers_ready(status: u8) -> bool {
    error(status) || (!busy(status) && ready(status))
}

/// A status that neither ends the wait for a data request nor fails it.
pub open spec fn leaves_waiting(status: u8) -> bool {
    !data_requested(status) && !error(status)
}

/// The phase after the first `done` accesses of a lead-in in which the drive leaves
/// `ready_polls` polls for readiness unanswered and `request_polls` polls for the
/// data request: the select, four settle reads, the polls for readiness, five
/// register writes, four settle reads, the polls for the data request.
pub open spec fn lead_in_phase(done: int, ready_polls: int, request_polls: int) -> Phase {
    if done <= 0 {
        Phase::Select
    } else if done <= 4 {
        Phase::SelectSettle { reads: (done - 1) as u8 }
    } else if done <= 5 + ready_polls {
        Phase::ReadyWait { budget: (READY_BUDGET - (done - 5)) as u32 }
    } else if done <= 10 + ready_polls {
        Phase::Program { register: (done - 6 - ready_polls) as u8 }
    } else if done <= 14 + ready_polls {
        Phase::CommandSettle { reads: (done - 11 - ready_polls) as u8 }
    } else if done <= 15 + ready_polls + request_polls {
        Phase::DataRequestWait {
            budget: (DATA_REQUEST_BUDGET - (done - 15 - ready_polls)) as u32,
        }
    } else {
        Phase::Data { index: 0 }
    }
}

/// Whether the first `done` port results of `lead` are those of a drive that leaves
/// `ready_polls` polls for readiness unanswered and answers the next, then leaves
/// `request_polls` polls for the data request unanswered and answers the next with
/// the request. Both counts stay below their budgets.
pub open spec fn follows_lead_in(
    lead: Seq<u16>,
    ready_polls: int,
    request_polls: int,
    done: int,
) -> bool {
    &&& 0 <= ready_polls < READY_BUDGET
    &&& 0 <= request_polls < DATA_REQUEST_BUDGET
    &&& 0 <= done <= lead.len()
    &&& done <= 16 + ready_polls + request_polls
    &&& forall|i: int|
        5 <= i < 5 + ready_polls && i < done ==> !answers_ready(status_of(#[trigger] lead[i]))
    &&& 5 + ready_polls < done ==> answers_ready(status_of(lead[5 + ready_polls]))
    &&& forall|i: int|
        15 + ready_polls <= i < 15 + ready_polls + request_polls && i < done ==> leaves_waiting(
            status_of(#[trigger] lead[i]),
        )
    &&& 15 + ready_polls + request_polls < done ==> data_requested(
        status_of(lead[15 + ready_polls + request_polls]),
    )
}

/// A whole lead-in, up to and including the poll that sees the data request.
pub open spec fn answered_lead_in(lead: Seq<u16>, ready_polls: int, request_polls: int) -> bool {
    &&& lead.len() == 16 + ready_polls + request_polls
    &&& follows_lead_in(lead, ready_polls, request_polls, 16 + ready_polls + request_polls)
}

/// The bytes of a run of words, low byte first.
pub open spec fn bytes_of_words(words: Seq<u16>) -> Seq<u8> {
    Seq::new(
        2 * words.len(),
        |i: int| if i % 2 == 0 { (words[i / 2] % 256) as u8 } else { (words[i / 2] / 256) as u8 },
    )
}

/// The lead-in is a fixed script around its two waits: each unanswered poll spends
/// one unit of its wait's budget, the answering poll moves on, and nothing touches
/// the sector buffer.
pub proof fn law_lead_in(
    t: TransferModel,
    lead: Seq<u16>,
    ready_polls: int,
    request_polls: int,
    done: int,
)
    requires
        t.phase == Phase::Select,
        follows_lead_in(lead, ready_polls, request_polls, done),
    ensures
        fed_all(t, lead.subrange(0, done)) == (TransferModel {
            phase: lead_in_phase(done, ready_polls, request_polls),
            ..t
        }),
    decreases done,
{
    if done > 0 {
        law_lead_in(t, lead, ready_polls, request_polls, done - 1);
        assert(lead.subrange(0, done).drop_last() =~= lead.subrange(0, done - 1));
        assert(lead.subrange(0, done).last() == lead[done - 1]);
    }
}

/// A whole lead-in brings the transfer to its first data word.
pub proof fn law_lead_in_reaches_data(
    t: TransferModel,
    lead: Seq<u16>,
    ready_polls: int,
    request_polls: int,
)
    requires
        t.phase == Phase::Select,
        answered_lead_in(lead, ready_polls, request_polls),
    ensures
        fed_all(t, lead) == (TransferModel { phase: Phase::Data { index: 0 }, ..t }),
{
    law_lead_in(t, lead, ready_polls, request_polls, 16 + ready_polls + request_polls);
    assert(lead.subrange(0, 16 + ready_polls + request_polls) =~= lead);
}

/// The data phase of a read stores each word it is fed, in order, and leaves the
/// rest of the buffer alone; the 256th word ends the transfer. The data phase of a
/// write offers the sector's words in order, changes nothing in the buffer, and
/// goes on to the flush after the 256th.
pub proof fn law_data_phase(t: TransferModel, words: Seq<u16>)
    requires
        t.phase == (Phase::Data { index: 0 }),
        t.data.len() == 512,
        words.len() <= 256,
    ensures
        ({
            let end = fed_all(t, words);
            &&& end.write == t.write
            &&& end.lba == t.lba
            &&& end.data.len() == 512
            &&& end.phase == if words.len() < 256 {
                Phase::Data { index: words.len() as u16 }
            } else if t.write {
                Phase::FlushWait
            } else {
                Phase::Done
            }
            &&& t.write ==> end.data == t.data
            &&& t.write && words.len() < 256 ==> action_of(end) == (PortAction::Out16 {
                port: PORT_DATA,
                word: word_at(t.data, words.len() as int),
            })
            &&& !t.write ==> end.data.subrange(0, 2 * (words.len() as int)) == bytes_of_words(words)
            &&& !t.write ==> forall|i: int| 2 * words.len() <= i < 512 ==> end.data[i] == t.data[i]
        }),
    decreases words.len(),
{
    if words.len() > 0 {
        let before = words.drop_last();
        law_data_phase(t, before);
        let mid = fed_all(t, before);
        let end = fed_all(t, words);
        let k = before.len() as int;
        if !t.write {
            assert(end.data == with_word(mid.data, k, words.last()));
            assert(end.data.subrange(0, 2 * (words.len() as int)) =~= bytes_of_words(words)) by {
                assert forall|i: int| 0 <= i < 2 * words.len() implies end.data[i]
                    == bytes_of_words(words)[i] by {
                    if i < 2 * k {
                        assert(end.data[i] == mid.data.subrange(0, 2 * k)[i]);
                        assert(bytes_of_words(before)[i] == bytes_of_words(words)[i]);
                    }
                }
            }
        }
    } else {
        assert(t.data.subrange(0, 0) =~= bytes_of_words(words));
    }
}

/// A read returns exactly the 512 bytes of the 256 words the data port gave, in the
/// order it gave them, however many polls below the budgets the drive left
/// unanswered before.
pub proof fn law_read_returns_sector(
    lba: u32,
    lead: Seq<u16>,
    ready_polls: int,
    request_polls: int,
    words: Seq<u16>,
)
    requires
        answered_lead_in(lead, ready_polls, request_polls),
        words.len() == 256,
    ensures
        reply_of(fed_all(started(RequestModel::Read { lba }), lead + words)) == Some(
            ReplyModel::Data(bytes_of_words(words)),
        ),
{
    let t = started(RequestModel::Read { lba });
    law_lead_in_reaches_data(t, lead, ready_polls, request_polls);
    lemma_fed_all_split(t, lead, words);
    let at_data = fed_all(t, lead);
    law_data_phase(at_data, words);
    let end = fed_all(at_data, words);
    assert(end.data.subrange(0, 512) =~= end.data);
}

/// While the drive stays busy, the two waits around the cache flush go on polling
/// the status and change nothing.
pub proof fn law_busy_wait(t: TransferModel, polls: Seq<u16>)
    requires
        t.phase == Phase::FlushWait || t.phase == Phase::DurableWait,
        forall|i: int| 0 <= i < polls.len() ==> busy(status_of(#[trigger] polls[i])),
    ensures
        fed_all(t, polls) == t,
        action_of(t) == (PortAction::In8 { port: PORT_COMMAND }),
        reply_of(t) is None,
    decreases polls.len(),
{
    if polls.len() > 0 {
        law_busy_wait(t, polls.drop_last());
        assert(polls.last() == polls[polls.len() - 1]);
    }
}

/// A write sends the sector's 256 words to the data port in order, then polls until
/// the drive is not busy, flushes its cache, polls again until the drive is not
/// busy, and only then reports the sector written. This holds however many polls
/// below the budgets the drive left unanswered in the lead-in and however long it
/// stays busy around the flush.
pub proof fn law_write_sends_sector(
    lba: u32,
    data: Seq<u8>,
    lead: Seq<u16>,
    ready_polls: int,
    request_polls: int,
    sent: Seq<u16>,
    busy_before: Seq<u16>,
    busy_after: Seq<u16>,
    idle: u16,
    any: u16,
)
    requires
        data.len() == 512,
        answered_lead_in(lead, ready_polls, request_polls),
        sent.len() <= 256,
        forall|i: int| 0 <= i < busy_before.len() ==> busy(status_of(#[trigger] busy_before[i])),
        forall|i: int| 0 <= i < busy_after.len() ==> busy(status_of(#[trigger] busy_after[i])),
        !busy(status_of(idle)),
    ensures
        ({
            let t = started(RequestModel::Write { lba, data });
            let now = fed_all(t, lead + sent);
            let waited = fed_all(now, busy_before);
            let flushing = fed(waited, idle);
            let flushed = fed_all(fed(flushing, any), busy_after);
            &&& sent.len() < 256 ==> action_of(now) == (PortAction::Out16 {
                port: PORT_DATA,
                word: word_at(data, sent.len() as int),
            })
            &&& sent.len() < 256 ==> reply_of(now) is None
            &&& sent.len() == 256 ==> {
                &&& action_of(waited) == (PortAction::In8 { port: PORT_COMMAND })
                &&& reply_of(waited) is None
                &&& action_of(flushing) == (PortAction::Out8 {
                    port: PORT_COMMAND,
                    value: COMMAND_FLUSH,
                })
                &&& reply_of(flushing) is None
                &&& action_of(flushed) == (PortAction::In8 { port: PORT_COMMAND })
                &&& reply_of(flushed) is None
                &&& reply_of(fed(flushed, idle)) == Some(ReplyModel::Written)
            }
        }),
{
    let t = started(RequestModel::Write { lba, data });
    law_lead_in_reaches_data(t, lead, ready_polls, request_polls);
    lemma_fed_all_split(t, lead, sent);
    law_data_phase(fed_all(t, lead), sent);
    if sent.len() == 256 {
        let now = fed_all(t, lead + sent);
        law_busy_wait(now, busy_before);
        let flushing = fed(now, idle);
        law_busy_wait(fed(flushing, any), busy_after);
    }
}

/// A transfer whose polls for readiness all go unanswered fails with the poll that
/// spends the budget, before any register is programmed.
pub proof fn law_unready_drive_fails(request: RequestModel, head: Seq<u16>, polls: Seq<u16>)
    requires
        head.len() == 5,
        polls.len() <= READY_BUDGET,
        forall|i: int| 0 <= i < polls.len() ==> !answers_ready(status_of(#[trigger] polls[i])),
    ensures
        polls.len() < READY_BUDGET ==> reply_of(fed_all(started(request), head + polls)) is None
            && action_of(fed_all(started(request), head + polls)) == (PortAction::In8 {
            port: PORT_COMMAND,
        }),
        polls.len() == READY_BUDGET ==> reply_of(fed_all(started(request), head + polls)) == Some(
            ReplyModel::Failed,
        ),
{
    let t = started(request);
    law_lead_in(t, head, 0, 0, 5);
    assert(head.subrange(0, 5) =~= head);
    lemma_fed_all_split(t, head, polls);
    law_ready_budget(fed_all(t, head), READY_BUDGET, polls);
}

/// A transfer whose command the drive does not take fails: with the first poll for
/// the data request that shows an error and no request, or with the poll that
/// spends the budget. No data word is moved.
pub proof fn law_refused_command_fails(
    request: RequestModel,
    lead: Seq<u16>,
    ready_polls: int,
    polls: Seq<u16>,
    last: u16,
)
    requires
        lead.len() == 15 + ready_polls,
        follows_lead_in(lead, ready_polls, 0, 15 + ready_polls),
        polls.len() < DATA_REQUEST_BUDGET,
        forall|i: int| 0 <= i < polls.len() ==> leaves_waiting(status_of(#[trigger] polls[i])),
        !data_requested(status_of(last)),
        error(status_of(last)) || polls.len() + 1 == DATA_REQUEST_BUDGET,
    ensures
        reply_of(fed_all(started(request), lead + polls)) is None,
        reply_of(fed(fed_all(started(request), lead + polls), last)) == Some(ReplyModel::Failed),
        fed_all(started(request), lead + polls).data == started(request).data,
{
    let t = started(request);
    law_lead_in(t, lead, ready_polls, 0, 15 + ready_polls);
    assert(lead.subrange(0, 15 + ready_polls) =~= lead);
    lemma_fed_all_split(t, lead, polls);
    law_data_request_budget(fed_all(t, lead), DATA_REQUEST_BUDGET, polls);
}

/// The wait for a data request is bounded: while the drive shows neither the
/// request nor an error, each poll spends one unit of the budget, and the poll that
/// spends the last unit fails the transfer.
pub proof fn law_data_request_budget(t: TransferModel, budget: u32, polls: Seq<u16>)
    requires
        t.phase == (Phase::DataRequestWait { budget }),
        budget > 0,
        polls.len() <= budget,
        forall|i: int|
            0 <= i < polls.len() ==> !data_requested(status_of(#[trigger] polls[i])) && !error(
                status_of(polls[i]),
            ),
    ensures
        fed_all(t, polls).phase == if polls.len() < budget {
            Phase::DataRequestWait { budget: (budget - polls.len()) as u32 }
        } else {
            Phase::Failed
        },
        fed_all(t, polls).data == t.data,
    decreases polls.len(),
{
    if polls.len() > 0 {
        law_data_request_budget(t, budget, polls.drop_last());
        assert(polls.last() == polls[polls.len() - 1]);
    }
}

/// The wait for a ready drive is bounded in the same way.
pub proof fn law_ready_budget(t: TransferModel, budget: u32, polls: Seq<u16>)
    requires
        t.phase == (Phase::ReadyWait { budget }),
        budget > 0,
        polls.len() <= budget,
        forall|i: int| 0 <= i < polls.len() ==> !answers_ready(status_of(#[trigger] polls[i])),
    ensures
        fed_all(t, polls).phase == if polls.len() < budget {
            Phase::ReadyWait { budget: (budget - polls.len()) as u32 }
        } else {
            Phase::Failed
        },
        fed_all(t, polls).data == t.data,
    decreases polls.len(),
{
    if polls.len() > 0 {
        law_ready_budget(t, budget, polls.drop_last());
        assert(polls.last() == polls[polls.len() - 1]);
    }
}

/// The 256 words a sector goes over the wire as.
pub open spec fn words_of(data: Seq<u8>) -> Seq<u16> {
    Seq::new(256, |i: int| word_at(data, i))
}

/// A sector that went out as words and came back as words is the same sector, byte
/// for byte.
pub proof fn law_wire_round_trip(data: Seq<u8>)
    requires
        data.len() == 512,
    ensures
        bytes_of_words(words_of(data)) == data,
{
    assert(bytes_of_words(words_of(data)) =~= data);
}

/// The words that a write of a sector puts on the wire, given back to a read, make
/// the read return that very sector, however many polls below the budgets the drive
/// left unanswered.
pub proof fn law_sector_survives_the_wire(
    lba: u32,
    data: Seq<u8>,
    lead: Seq<u16>,
    ready_polls: int,
    request_polls: int,
)
    requires
        data.len() == 512,
        answered_lead_in(lead, ready_polls, request_polls),
    ensures
        reply_of(fed_all(started(RequestModel::Read { lba }), lead + words_of(data))) == Some(
            ReplyModel::Data(data),
        ),
{
    law_read_returns_sector(lba, lead, ready_polls, request_polls, words_of(data));
    law_wire_round_trip(data);
}

/// A failed transfer stays failed and a finished one stays finished, whatever the
/// ports return afterwards.
pub proof fn law_end_is_final(t: TransferModel, input: u16)
    requires
        t.phase == Phase::Done || t.phase == Phase::Failed,
    ensures
        fed(t, input) == t,
        action_of(t) == PortAction::Finished,
{
}

/// Tests the busy bit.
pub fn is_busy(status: u8) -> (yes: bool)
    ensures
        yes == busy(status),
{
    status & STATUS_BUSY != 0
}

/// Tests the ready bit.
pub fn is_ready(status: u8) -> (yes: bool)
    ensures
        yes == ready(status),
{
    status & STATUS_READY != 0
}

/// Tests the data request bit.
pub fn is_data_requested(status: u8) -> (yes: bool)
    ensures
        yes == data_requested(status),
{
    status & STATUS_DATA_REQUEST != 0
}

/// Tests the error bit.
pub fn is_error(status: u8) -> (yes: bool)
    ensures
        yes == error(status),
{
    status & STATUS_ERROR != 0
}

impl Transfer {
    #[verifier::type_invariant]
    spec fn in_range(self) -> bool {
        phase_in_range(self.phase)
    }

    /// Starts the transfer that serves a request.
    pub fn start(request: &DiskRequest) -> (t: Transfer)
        ensures
            t@ == started(request@),
    {
        match request {
            DiskRequest::Read { lba } => {
                let t = Transfer {
                    write: false,
                    lba: *lba,
                    data: [0u8; 512],
                    phase: Phase::Select,
                };
                assert(t.data@ =~= Seq::new(512, |i: int| 0u8));
                t
            },
            DiskRequest::Write { lba, data } => Transfer {
                write: true,
                lba: *lba,
                data: *data,
                phase: Phase::Select,
            },
        }
    }

    /// Starts the read of one sector.
    pub fn read_sector(lba: u32) -> (t: Transfer)
        ensures
            t@ == started(RequestModel::Read { lba }),
    {
        Transfer::start(&DiskRequest::Read { lba })
    }

    /// Starts the write of one sector.
    pub fn write_sector(lba: u32, data: &[u8; 512]) -> (t: Transfer)
        ensures
            t@ == started(RequestModel::Write { lba, data: data@ }),
    {
        Transfer::start(&DiskRequest::Write { lba, data: *data })
    }

    /// The phase the transfer is in.
    pub fn phase(&self) -> (phase: Phase)
        ensures
            phase == self@.phase,
            phase_in_range(phase),
    {
        proof {
            use_type_invariant(self);
        }
        self.phase
    }

    /// The port access to make now; `Finished` once the transfer is over.
    pub fn action(&self) -> (action: PortAction)
        ensures
            action == action_of(self@),
    {
        proof {
            use_type_invariant(self);
        }
        match self.phase {
            Phase::Select => PortAction::Out8 {
                port: PORT_DRIVE_SELECT,
                value: 0xE0 + (self.lba / 0x100_0000 % 16) as u8,
            },
            Phase::SelectSettle { reads: _ } => PortAction::In8 { port: PORT_CONTROL },
            Phase::ReadyWait { budget: _ } => PortAction::In8 { port: PORT_COMMAND },
            Phase::Program { register } => {
                if register == 0 {
                    PortAction::Out8 { port: PORT_SECTOR_COUNT, value: 1 }
                } else if register == 1 {
                    PortAction::Out8 { port: PORT_LBA_LOW, value: (self.lba % 256) as u8 }
                } else if register == 2 {
                    PortAction::Out8 { port: PORT_LBA_MID, value: (self.lba / 256 % 256) as u8 }
                } else if register == 3 {
                    PortAction::Out8 { port: PORT_LBA_HIGH, value: (self.lba / 65536 % 256) as u8 }
                } else {
                    PortAction::Out8 {
                        port: PORT_COMMAND,
                        value: if self.write { COMMAND_WRITE } else { COMMAND_READ },
                    }
                }
            },
            Phase::CommandSettle { reads: _ } => PortAction::In8 { port: PORT_CONTROL },
            Phase::DataRequestWait { budget: _ } => PortAction::In8 { port: PORT_COMMAND },
            Phase::Data { index } => {
                if self.write {
                    let at: usize = 2 * (index as usize);
                    let low: u16 = self.data[at] as u16;
                    let high: u16 = self.data[at + 1] as u16;
                    PortAction::Out16 { port: PORT_DATA, word: low + 256 * high }
                } else {
                    PortAction::In16 { port: PORT_DATA }
                }
            },
            Phase::FlushWait => PortAction::In8 { port: PORT_COMMAND },
            Phase::Flush => PortAction::Out8 { port: PORT_COMMAND, value: COMMAND_FLUSH },
            Phase::DurableWait => PortAction::In8 { port: PORT_COMMAND },
            Phase::Done => PortAction::Finished,
            Phase::Failed => PortAction::Finished,
        }
    }

    /// Takes what the present access returned (anything after a write to a port)
    /// and moves to the next phase.
    pub fn feed(&mut self, input: u16)
        ensures
            final(self)@ == fed(old(self)@, input),
    {
        proof {
            use_type_invariant(&*self);
        }
        let status: u8 = (input % 256) as u8;
        match self.phase {
            Phase::Select => {
                self.phase = Phase::SelectSettle { reads: 0 };
            },
            Phase::SelectSettle { reads } => {
                if reads + 1 >= SETTLE_READS {
                    self.phase = Phase::ReadyWait { budget: READY_BUDGET };
                } else {
                    self.phase = Phase::SelectSettle { reads: reads + 1 };
                }
            },
            Phase::ReadyWait { budget } => {
                if is_error(status) || (!is_busy(status) && is_ready(status)) {
                    self.phase = Phase::Program { register: 0 };
                } else if budget <= 1 {
                    self.phase = Phase::Failed;
                } else {
                    self.phase = Phase::ReadyWait { budget: budget - 1 };
                }
            },
            Phase::Program { register } => {
                if register >= 4 {
                    self.phase = Phase::CommandSettle { reads: 0 };
                } else {
                    self.phase = Phase::Program { register: register + 1 };
                }
            },
            Phase::CommandSettle { reads } => {
                if reads + 1 >= SETTLE_READS {
                    self.phase = Phase::DataRequestWait { budget: DATA_REQUEST_BUDGET };
                } else {
                    self.phase = Phase::CommandSettle { reads: reads + 1 };
                }
            },
            Phase::DataRequestWait { budget } => {
                if is_data_requested(status) {
                    self.phase = Phase::Data { index: 0 };
                } else if is_error(status) || budget <= 1 {
                    self.phase = Phase::Failed;
                } else {
                    self.phase = Phase::DataRequestWait { budget: budget - 1 };
                }
            },
            Phase::Data { index } => {
                let next: Phase = if index + 1 < SECTOR_WORDS {
                    Phase::Data { index: index + 1 }
                } else if self.write {
                    Phase::FlushWait
                } else {
                    Phase::Done
                };
                self.phase = next;
                if !self.write {
                    let at: usize = 2 * (index as usize);
                    self.data[at] = (input % 256) as u8;
                    self.data[at + 1] = (input / 256) as u8;
                }
            },
            Phase::FlushWait => {
                if !is_busy(status) {
                    self.phase = Phase::Flush;
                }
            },
            Phase::Flush => {
                self.phase = Phase::DurableWait;
            },
            Phase::DurableWait => {
                if !is_busy(status) {
                    self.phase = Phase::Done;
                }
            },
            Phase::Done => {},
            Phase::Failed => {},
        }
    }

    /// The answer to the request once the transfer is over: the sector read, the
    /// word that the write is on the medium, or the failure.
    pub fn reply(&self) -> (reply: Option<DiskReply>)
        ensures
            match reply {
                Some(r) => reply_of(self@) == Some(r@),
                None => reply_of(self@) is None,
            },
    {
        match self.phase {
            Phase::Done => if self.write {
                Some(DiskReply::Written)
            } else {
                Some(DiskReply::Data(self.data))
            },
            Phase::Failed => Some(DiskReply::Failed),
            _ => None,
        }
    }
}

} // verus!
