//! Interrupt routing and start-up: the descriptors of the vector table, the
//! controller's remap sequence, the tick counter and the start-up disk probe.

use vstd::prelude::*;
use crate::directory::MAGIC;
use crate::shell::{DiskReply, ReplyModel};

verus! {

/// Entries in the vector table.
pub const VECTOR_COUNT: usize = 256;

/// Vector of the timer, IRQ0.
pub const TIMER_VECTOR: usize = 32;

/// Vector of the keyboard, IRQ1.
pub const KEYBOARD_VECTOR: usize = 33;

/// Selector of the kernel's code segment.
pub const KERNEL_CODE_SELECTOR: u16 = 0x08;

/// Present, ring 0, 32-bit interrupt gate.
pub const INTERRUPT_GATE: u8 = 0x8E;

/// Limit field of the table's descriptor: 256 entries of 8 bytes, less one.
pub const TABLE_LIMIT: u16 = 2047;

/// Command port of the master controller.
pub const PIC_MASTER_COMMAND: u16 = 0x20;

/// Data and mask port of the master controller.
pub const PIC_MASTER_DATA: u16 = 0x21;

/// Command port of the slave controller.
pub const PIC_SLAVE_COMMAND: u16 = 0xA0;

/// Data and mask port of the slave controller.
pub const PIC_SLAVE_DATA: u16 = 0xA1;

/// The byte that ends an interrupt, written to the owning controller's command port.
pub const END_OF_INTERRUPT: u8 = 0x20;

/// Timer ticks in one second.
pub const TICKS_PER_SECOND: u32 = 100;

/// Reads of the directory sector the start-up probe may make.
pub const PROBE_ATTEMPTS: u32 = 5;

/// One entry of the vector table.
#[derive(Clone, Copy, Debug, PartialEq, Eq, Structural)]
pub struct IdtEntry {
    pub low: u16,
    pub sel: u16,
    pub res: u8,
    pub flags: u8,
    pub high: u16,
}

/// One byte written to a port of the interrupt controller.
#[derive(Clone, Copy, Debug, PartialEq, Eq, Structural)]
pub struct PortWrite {
    pub port: u16,
    pub value: u8,
}

/// The entry of a vector nobody handles: all zero, so not present.
pub open spec fn absent() -> IdtEntry {
    IdtEntry { low: 0, sel: 0, res: 0, flags: 0, high: 0 }
}

/// The descriptor that leads to the handler at `handler`: the address in two halves, the
/// kernel's code segment, present, ring 0, 32-bit interrupt gate.
pub open spec fn gate_for(handler: u32) -> IdtEntry {
    IdtEntry {
        low: (handler % 0x1_0000) as u16,
        sel: KERNEL_CODE_SELECTOR,
        res: 0,
        flags: INTERRUPT_GATE,
        high: (handler / 0x1_0000) as u16,
    }
}

/// The vector table: gates for the timer and the keyboard, nothing else present.
pub open spec fn table_for(timer: u32, keyboard: u32) -> Seq<IdtEntry> {
    Seq::new(
        256,
        |v: int|
            if v == TIMER_VECTOR {
                gate_for(timer)
            } else if v == KEYBOARD_VECTOR {
                gate_for(keyboard)
            } else {
                absent()
            },
    )
}

/// The eight bytes of an entry as the processor reads them.
pub open spec fn entry_bytes(e: IdtEntry) -> Seq<u8> {
    seq![
        (e.low % 256) as u8,
        (e.low / 256) as u8,
        (e.sel % 256) as u8,
        (e.sel / 256) as u8,
        e.res,
        e.flags,
        (e.high % 256) as u8,
        (e.high / 256) as u8,
    ]
}

/// The mask of the master controller: every line off but the keyboard's and, where
/// asked for, the timer's.
pub open spec fn master_mask(with_timer: bool) -> u8 {
    if with_timer { 0xFC } else { 0xFD }
}

/// The writes that remap the controllers: initialisation word, vector offsets 32
/// and 40, the cascade on line 2, 8086 mode, then the masks.
pub open spec fn remap_sequence(with_timer: bool) -> Seq<PortWrite> {
    seq![
        PortWrite { port: PIC_MASTER_COMMAND, value: 0x11 },
        PortWrite { port: PIC_SLAVE_COMMAND, value: 0x11 },
        PortWrite { port: PIC_MASTER_DATA, value: 0x20 },
        PortWrite { port: PIC_SLAVE_DATA, value: 0x28 },
        PortWrite { port: PIC_MASTER_DATA, value: 0x04 },
        PortWrite { port: PIC_SLAVE_DATA, value: 0x02 },
        PortWrite { port: PIC_MASTER_DATA, value: 0x01 },
        PortWrite { port: PIC_SLAVE_DATA, value: 0x01 },
        PortWrite { port: PIC_MASTER_DATA, value: master_mask(with_timer) },
        PortWrite { port: PIC_SLAVE_DATA, value: 0xFF },
    ]
}

/// Builds the descriptor for one handler.
pub fn gate(handler: u32) -> (entry: IdtEntry)
    ensures
        entry == gate_for(handler),
{
    IdtEntry {
        low: (handler % 0x1_0000) as u16,
        sel: KERNEL_CODE_SELECTOR,
        res: 0,
        flags: INTERRUPT_GATE,
        high: (handler / 0x1_0000) as u16,
    }
}

/// Builds the vector table for the two trampolines.
pub fn build_table(timer: u32, keyboard: u32) -> (table: [IdtEntry; 256])
    ensures
        table@ == table_for(timer, keyboard),
{
    let mut table: [IdtEntry; 256] = [IdtEntry { low: 0, sel: 0, res: 0, flags: 0, high: 0 }; 256];
    table[TIMER_VECTOR] = gate(timer);
    table[KEYBOARD_VECTOR] = gate(keyboard);
    assert(table@ =~= table_for(timer, keyboard));
    table
}

impl IdtEntry {
    /// Lays the entry out in its eight bytes.
    pub fn encode(&self) -> (bytes: [u8; 8])
        ensures
            bytes@ == entry_bytes(*self),
    {
        let bytes: [u8; 8] = [
            (self.low % 256) as u8,
            (self.low / 256) as u8,
            (self.sel % 256) as u8,
            (self.sel / 256) as u8,
            self.res,
            self.flags,
            (self.high % 256) as u8,
            (self.high / 256) as u8,
        ];
        assert(bytes@ =~= entry_bytes(*self));
        bytes
    }
}

/// Lists the port writes that remap the interrupt controllers, in order.
pub fn pic_remap(with_timer: bool) -> (writes: [PortWrite; 10])
    ensures
        writes@ == remap_sequence(with_timer),
{
    let mask: u8 = if with_timer { 0xFC } else { 0xFD };
    let writes: [PortWrite; 10] = [
        PortWrite { port: PIC_MASTER_COMMAND, value: 0x11 },
        PortWrite { port: PIC_SLAVE_COMMAND, value: 0x11 },
        PortWrite { port: PIC_MASTER_DATA, value: 0x20 },
        PortWrite { port: PIC_SLAVE_DATA, value: 0x28 },
        PortWrite { port: PIC_MASTER_DATA, value: 0x04 },
        PortWrite { port: PIC_SLAVE_DATA, value: 0x02 },
        PortWrite { port: PIC_MASTER_DATA, value: 0x01 },
        PortWrite { port: PIC_SLAVE_DATA, value: 0x01 },
        PortWrite { port: PIC_MASTER_DATA, value: mask },
        PortWrite { port: PIC_SLAVE_DATA, value: 0xFF },
    ];
    assert(writes@ =~= remap_sequence(with_timer));
    writes
}

/// The write that ends an interrupt of the timer or the keyboard, both lines of the
/// master controller. Every handler makes it last.
pub fn end_of_interrupt() -> (write: PortWrite)
    ensures
        write == (PortWrite { port: PIC_MASTER_COMMAND, value: END_OF_INTERRUPT }),
{
    PortWrite { port: PIC_MASTER_COMMAND, value: END_OF_INTERRUPT }
}

/// The tick count after one more timer interrupt. The count wraps.
pub open spec fn ticked(ticks: u32) -> u32 {
    if ticks == u32::MAX { 0 } else { (ticks + 1) as u32 }
}

/// Counts one timer interrupt.
pub fn timer_handler(ticks: u32) -> (next: u32)
    ensures
        next == ticked(ticks),
{
    if ticks == u32::MAX {
        0
    } else {
        ticks + 1
    }
}

/// Whole seconds since start-up.
pub fn uptime_seconds(ticks: u32) -> (seconds: u32)
    ensures
        seconds == ticks / TICKS_PER_SECOND,
{
    ticks / TICKS_PER_SECOND
}

/// What the start-up probe found, or that it wants another read.
#[derive(Clone, Copy, Debug, PartialEq, Eq, Structural)]
pub enum ProbeStep {
    Retry,
    Detected,
    Unformatted,
    DriveFailed,
}

/// The verdict on one read of the directory sector, the `attempt`-th counting from
/// 1. A sector that came back settles it: formatted if it starts with the magic
/// byte. A failed read is tried again until the fifth has failed.
pub open spec fn probe_verdict(attempt: u32, reply: ReplyModel) -> ProbeStep {
    match reply {
        ReplyModel::Data(image) => if image[0] == MAGIC {
            ProbeStep::Detected
        } else {
            ProbeStep::Unformatted
        },
        _ => if attempt < PROBE_ATTEMPTS { ProbeStep::Retry } else { ProbeStep::DriveFailed },
    }
}

/// Judges one attempt of the start-up probe.
pub fn probe_step(attempt: u32, reply: &DiskReply) -> (step: ProbeStep)
    ensures
        step == probe_verdict(attempt, reply@),
{
    match reply {
        DiskReply::Data(image) => {
            if image[0] == MAGIC {
                ProbeStep::Detected
            } else {
                ProbeStep::Unformatted
            }
        },
        _ => {
            if attempt < PROBE_ATTEMPTS {
                ProbeStep::Retry
            } else {
                ProbeStep::DriveFailed
            }
        },
    }
}

} // verus!
