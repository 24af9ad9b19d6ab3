//! The diagnostic scratch words: a small array that the runtime writes and
//! never reads, for a debug probe to inspect after the core has stopped.

use vstd::prelude::*;

verus! {

/// Number of scratch words.
pub const SCRATCH_WORDS: usize = 8;

/// Slot of the hardware configuration status read at boot.
pub const SLOT_CONFIG_STATUS: usize = 2;

/// Slot of the size of the allocation request that failed last.
pub const SLOT_ALLOC_FAILURE: usize = 3;

/// Slot of the heap's start address.
pub const SLOT_HEAP_START: usize = 4;

/// Slot of the heap's size in bytes.
pub const SLOT_HEAP_SIZE: usize = 6;

/// The low 32 bits of `v`.
pub open spec fn low_word(v: int) -> u32 {
    (v % 0x1_0000_0000) as u32
}

/// The low 32 bits of an address or a size.
pub fn word_of(v: usize) -> (w: u32)
    ensures
        w == low_word(v as int),
        v <= u32::MAX ==> w == v,
    no_unwind
{
    let wide: u64 = v as u64;
    (wide % 0x1_0000_0000) as u32
}

/// The region that the allocator serves, as the link step laid it out.
#[derive(Clone, Copy, Debug, PartialEq, Eq, Structural)]
pub struct HeapRegion {
    pub start: usize,
    pub size: usize,
}

/// The scratch words. Each slot holds the value written to it last.
#[derive(Clone, Copy, Debug, PartialEq, Eq)]
pub struct DebugScratch {
    pub words: [u32; 8],
}

impl View for DebugScratch {
    type V = Seq<u32>;

    open spec fn view(&self) -> Seq<u32> {
        self.words@
    }
}

/// The words after a failed allocation of `size` bytes was noted.
pub open spec fn with_alloc_failure(words: Seq<u32>, size: int) -> Seq<u32> {
    words.update(SLOT_ALLOC_FAILURE as int, low_word(size))
}

/// The words after the boot diagnostics were noted.
pub open spec fn with_boot(words: Seq<u32>, heap: HeapRegion, config_status: u32) -> Seq<u32> {
    words.update(SLOT_HEAP_START as int, low_word(heap.start as int)).update(
        SLOT_HEAP_SIZE as int,
        low_word(heap.size as int),
    ).update(SLOT_CONFIG_STATUS as int, config_status)
}

impl DebugScratch {
    /// Scratch words that are all zero.
    pub fn new() -> (s: DebugScratch)
        ensures
            s@ == Seq::new(SCRATCH_WORDS as nat, |i: int| 0u32),
    {
        DebugScratch { words: [0, 0, 0, 0, 0, 0, 0, 0] }
    }

    /// Notes the size of an allocation request that could not be met.
    pub fn record_alloc_failure(&mut self, size: usize)
        ensures
            final(self)@ == with_alloc_failure(old(self)@, size as int),
        no_unwind
    {
        self.words[SLOT_ALLOC_FAILURE] = word_of(size);
    }

    /// Notes where the heap lies and what the hardware configuration
    /// status read.
    pub fn record_boot(&mut self, heap: HeapRegion, config_status: u32)
        ensures
            final(self)@ == with_boot(old(self)@, heap, config_status),
        no_unwind
    {
        self.words[SLOT_HEAP_START] = word_of(heap.start);
        self.words[SLOT_HEAP_SIZE] = word_of(heap.size);
        self.words[SLOT_CONFIG_STATUS] = config_status;
    }
}

} // verus!
