//! The kernel heap: a bump allocator that hands out addresses and never takes one
//! back.

use vstd::prelude::*;

verus! {

/// First address of the heap.
pub const HEAP_START: usize = 0x100000;

/// One past the last address of the heap.
pub const HEAP_END: usize = 0x400000;

/// A region of addresses and the first one not yet handed out.
#[derive(Clone, Copy, Debug)]
pub struct KingAllocator {
    pub heap_start: usize,
    pub heap_end: usize,
    pub next: usize,
}

/// The lowest address at or above `start` that is a multiple of `align`.
pub open spec fn aligned_up(start: int, align: int) -> int {
    if start % align == 0 {
        start
    } else {
        start + (align - start % align)
    }
}

/// `aligned_up` gives a multiple of the alignment, at or above the start and less
/// than one alignment above it.
pub proof fn law_aligned_up(start: int, align: int)
    requires
        0 <= start,
        0 < align,
    ensures
        aligned_up(start, align) % align == 0,
        start <= aligned_up(start, align) < start + align,
{
    let rem = start % align;
    let q = start / align;
    assert(start == q * align + rem && 0 <= rem < align) by (nonlinear_arith)
        requires
            rem == start % align,
            q == start / align,
            0 < align,
    ;
    if rem != 0 {
        assert((q * align + align) % align == 0) by (nonlinear_arith)
            requires
                0 < align,
        ;
    }
}

/// What is left to do when the kernel cannot go on.
#[derive(Clone, Copy, Debug, PartialEq, Eq, Structural)]
pub enum Fatal {
    /// Stop the processor for good.
    Halt,
}

/// Decides what follows a request for memory that the heap could not meet. There is
/// nobody to restart the kernel, so whatever was asked for, the processor is halted.
pub fn alloc_error(size: usize, align: usize) -> (action: Fatal)
    ensures
        action == Fatal::Halt,
{
    Fatal::Halt
}

impl KingAllocator {
    /// The kernel's heap with nothing handed out.
    pub fn new() -> (heap: KingAllocator)
        ensures
            heap.heap_start == HEAP_START,
            heap.heap_end == HEAP_END,
            heap.next == HEAP_START,
    {
        KingAllocator { heap_start: HEAP_START, heap_end: HEAP_END, next: HEAP_START }
    }

    /// Hands out `size` bytes at the next address that `align` divides. Where the
    /// block would reach past the heap's end nothing is handed out and nothing
    /// changes.
    pub fn allocate(&mut self, size: usize, align: usize) -> (block: Option<usize>)
        requires
            align > 0,
        ensures
            match block {
                Some(address) => {
                    &&& address == aligned_up(old(self).next as int, align as int)
                    &&& address + size <= old(self).heap_end
                    &&& final(self).next == address + size
                },
                None => {
                    &&& aligned_up(old(self).next as int, align as int) + size > old(
                        self,
                    ).heap_end
                    &&& final(self).next == old(self).next
                },
            },
            final(self).heap_start == old(self).heap_start,
            final(self).heap_end == old(self).heap_end,
    {
        let rem: usize = self.next % align;
        let pad: usize = if rem == 0 { 0 } else { align - rem };
        if pad > self.heap_end || self.next > self.heap_end - pad {
            return None;
        }
        let address: usize = self.next + pad;
        if size > self.heap_end - address {
            return None;
        }
        self.next = address + size;
        Some(address)
    }

    /// Takes a block back. A bump allocator has no use for it: nothing changes.
    pub fn dealloc(&mut self, address: usize, size: usize)
        ensures
            *final(self) == *old(self),
    {
    }
}

} // verus!
