//! Scenario tests of the bounded bump allocator's state machine: LIFO
//! reclaim, allocation-bound failures, in-place resizing and lazy
//! initialization.

use slh_verifier::heap::{
    align_up, heap_start, set_heap_limit_bytes, snapshot, BpfBumpAlloc, HeapMeta,
    DEFAULT_LIMIT_BYTES, HEAP_START_ADDR, META_SIZE,
};

fn fresh() -> HeapMeta {
    HeapMeta { start: HEAP_START_ADDR, head: 0, limit: 0, last_ptr: 0, last_size: 0 }
}

#[test]
fn heap_constants() {
    assert_eq!(heap_start(), 0x3000_0000_00);
    assert_eq!(DEFAULT_LIMIT_BYTES, 32 * 1024);
    assert_eq!(META_SIZE, 32);
}

#[test]
fn align_up_values() {
    assert_eq!(align_up(0, 8), 0);
    assert_eq!(align_up(1, 8), 8);
    assert_eq!(align_up(8, 8), 8);
    assert_eq!(align_up(9, 16), 16);
    assert_eq!(align_up(17, 1), 17);
}

#[test]
fn lazy_initialization_on_first_allocation() {
    let a = BpfBumpAlloc;
    let mut m = fresh();
    let p = a.allocate(&mut m, 64, 8).unwrap();
    assert_eq!(p, HEAP_START_ADDR + META_SIZE);
    assert_eq!(m.head, p + 64);
    assert_eq!(m.limit, HEAP_START_ADDR + DEFAULT_LIMIT_BYTES);
    assert_eq!((m.last_ptr, m.last_size), (p, 64));
}

#[test]
fn set_heap_limit_rounds_and_clamps() {
    let mut m = fresh();
    // Rounded down to the 1024-byte quantum.
    set_heap_limit_bytes(&mut m, 100_000);
    assert_eq!(m.limit, HEAP_START_ADDR + 99_328);
    assert_eq!(m.head, HEAP_START_ADDR + META_SIZE);
    // Clamped up to the 32 KiB floor.
    set_heap_limit_bytes(&mut m, 1000);
    assert_eq!(m.limit, HEAP_START_ADDR + 32 * 1024);
    assert_eq!(snapshot(&m), (HEAP_START_ADDR, HEAP_START_ADDR + META_SIZE, m.limit));
}

#[test]
fn lifo_free_reclaims_in_full() {
    let a = BpfBumpAlloc;
    let mut m = fresh();
    let p1 = a.allocate(&mut m, 100, 8).unwrap();
    let before = m.head;
    let p2 = a.allocate(&mut m, 200, 4).unwrap();
    assert_eq!(p2, before);

    // Freeing the most recent allocation returns the cursor exactly.
    a.free(&mut m, p2, 200);
    assert_eq!(m.head, before);
    assert_eq!((m.last_ptr, m.last_size), (0, 0));

    // Freeing anything that is not the recorded last allocation is a
    // silent no-op: the cursor and the record stay untouched.
    let head_now = m.head;
    a.free(&mut m, p1, 100);
    assert_eq!(m.head, head_now);

    let p3 = a.allocate(&mut m, 8, 8).unwrap();
    a.free(&mut m, p3, 7);  // size mismatch: also a no-op
    assert_eq!(m.head, p3 + 8);
    assert_eq!((m.last_ptr, m.last_size), (p3, 8));
}

#[test]
fn alternating_pairs_reclaim_every_time() {
    let a = BpfBumpAlloc;
    let mut m = fresh();
    let base = a.allocate(&mut m, 64, 8).unwrap();
    a.free(&mut m, base, 64);
    let before = m.head;
    for size in [8u64, 24, 104, 1000] {
        let p = a.allocate(&mut m, size, 8).unwrap();
        assert_eq!(p, before);
        a.free(&mut m, p, size);
        assert_eq!(m.head, before);
    }
}

#[test]
fn over_limit_allocation_fails_without_corruption() {
    let a = BpfBumpAlloc;
    let mut m = fresh();
    let p1 = a.allocate(&mut m, 64, 8).unwrap();
    let saved = (m.head, m.limit, m.last_ptr, m.last_size);

    // A request past the byte limit always fails ...
    assert!(a.allocate(&mut m, DEFAULT_LIMIT_BYTES, 8).is_none());
    // ... and leaves every metadata word unchanged, so a request within
    // the remaining budget still succeeds.
    assert_eq!((m.head, m.limit, m.last_ptr, m.last_size), saved);
    let p2 = a.allocate(&mut m, 128, 8).unwrap();
    assert_eq!(p2, p1 + 64);
}

#[test]
fn grow_or_relocate_cases() {
    let a = BpfBumpAlloc;
    let mut m = fresh();
    let p = a.allocate(&mut m, 100, 8).unwrap();

    // Shrink in place: always legal for the last allocation.
    assert_eq!(a.grow_or_relocate(&mut m, p, 8, 40), Some(p));
    assert_eq!(m.head, p + 40);
    assert_eq!(m.last_size, 40);

    // Grow in place: the cursor still sits at the block's end.
    assert_eq!(a.grow_or_relocate(&mut m, p, 8, 300), Some(p));
    assert_eq!(m.head, p + 300);

    // After another allocation the block is no longer last: relocate.
    let q = a.allocate(&mut m, 16, 8).unwrap();
    let r = a.grow_or_relocate(&mut m, p, 8, 400).unwrap();
    assert!(r > q);
    assert_eq!(m.head, r + 400);

    // A relocation that cannot fit fails and changes nothing.
    let saved = (m.head, m.limit, m.last_ptr, m.last_size);
    assert!(a.grow_or_relocate(&mut m, p, 8, DEFAULT_LIMIT_BYTES).is_none());
    assert_eq!((m.head, m.limit, m.last_ptr, m.last_size), saved);
}
