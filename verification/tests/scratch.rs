use bounce_runtime::scratch::{
    word_of, DebugScratch, HeapRegion, SCRATCH_WORDS, SLOT_ALLOC_FAILURE, SLOT_CONFIG_STATUS,
    SLOT_HEAP_SIZE, SLOT_HEAP_START,
};

#[test]
fn it_works() {
    assert_eq!(2 + 2, 4);
}

#[test]
fn slots_are_where_the_probe_looks() {
    assert_eq!(SCRATCH_WORDS, 8);
    assert_eq!(SLOT_CONFIG_STATUS, 2);
    assert_eq!(SLOT_ALLOC_FAILURE, 3);
    assert_eq!(SLOT_HEAP_START, 4);
    assert_eq!(SLOT_HEAP_SIZE, 6);
}

#[test]
fn new_scratch_is_zero() {
    assert_eq!(DebugScratch::new().words, [0; 8]);
}

#[test]
fn alloc_failure_goes_to_its_slot() {
    let mut s = DebugScratch::new();
    s.record_alloc_failure(4096);
    assert_eq!(s.words, [0, 0, 0, 4096, 0, 0, 0, 0]);
    s.record_alloc_failure(24);
    assert_eq!(s.words, [0, 0, 0, 24, 0, 0, 0, 0]);
}

#[test]
fn boot_diagnostics_go_to_their_slots() {
    let mut s = DebugScratch { words: [1, 2, 3, 4, 5, 6, 7, 8] };
    s.record_boot(HeapRegion { start: 0x1000_4000, size: 0x2_0000 }, 0xdead_beef);
    assert_eq!(s.words, [1, 2, 0xdead_beef, 4, 0x1000_4000, 6, 0x2_0000, 8]);
}

#[test]
fn word_of_keeps_the_low_bits() {
    assert_eq!(word_of(0), 0);
    assert_eq!(word_of(4096), 4096);
    assert_eq!(word_of(0xffff_ffff), 0xffff_ffff);
    let wide = (0x1_0000_1000u64 as usize, 0x7_ffff_fffeu64 as usize);
    if usize::BITS > 32 {
        assert_eq!(word_of(wide.0), 0x1000);
        assert_eq!(word_of(wide.1), 0xffff_fffe);
    }
}
