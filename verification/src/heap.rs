//! Bounded bump allocator for a host without writable static sections.
//!
//! All allocator metadata (cursor, byte limit, last allocation) lives in the
//! first machine words of the arena itself.  This module verifies the state
//! machine over an explicit [`HeapMeta`] value; the thin unsafe shim that
//! reads and writes those words at the real arena address stays outside the
//! library.  Addresses are modelled as `u64`, the word width of the target.
//!
//! Discipline: `alloc` bumps an aligned cursor and records the allocation as
//! the most recent one; `free` reclaims space only when it names exactly that
//! most recent allocation (LIFO), and otherwise changes nothing; `realloc`
//! shrinks in place, grows in place when nothing was allocated after the
//! block, and otherwise falls back to a fresh allocation.

use vstd::prelude::*;

verus! {

/// Start address of the arena on the off-host build.
pub const HEAP_START_ADDR: u64 = 0x3000_0000_00;

/// Default byte limit of the arena: 32 KiB.
pub const DEFAULT_LIMIT_BYTES: u64 = 32 * 1024;

/// Alignment quantum of the configurable byte limit.
pub const LIMIT_QUANTUM: u64 = 1024;

/// Bytes reserved at the arena start for the allocator metadata:
/// four machine words (cursor, limit, last pointer, last size).
pub const META_SIZE: u64 = 4 * 8;

/// Zero-sized allocator front end.  It keeps no state of its own: every
/// operation works on a [`HeapMeta`] holding the four metadata words.
pub struct BpfBumpAlloc;

/// The allocator metadata words, read out of the arena head.
///
/// `start` is the arena's base address; `head` the bump cursor (address of
/// the next free byte); `limit` the first address past the usable arena;
/// `last_ptr`/`last_size` record the most recent allocation (`last_ptr == 0`
/// when none is recorded).
pub struct HeapMeta {
    pub start: u64,
    pub head: u64,
    pub limit: u64,
    pub last_ptr: u64,
    pub last_size: u64,
}

impl HeapMeta {
    /// A fresh, never-touched arena: the host hands the region over zeroed.
    pub open spec fn is_unused(self) -> bool {
        &&& self.head == 0
        &&& self.limit == 0
        &&& self.last_ptr == 0
        &&& self.last_size == 0
        &&& self.start + DEFAULT_LIMIT_BYTES <= u64::MAX
    }

    /// Well-formed metadata of an initialized arena.  The recorded last
    /// allocation, when present, ends exactly at the cursor.
    pub open spec fn wf(self) -> bool {
        &&& self.start + META_SIZE <= self.head
        &&& self.start + META_SIZE <= self.limit
        &&& self.last_ptr != 0 ==> {
            &&& self.start + META_SIZE <= self.last_ptr
            &&& self.last_ptr + self.last_size == self.head
        }
    }

    /// The metadata written on first touch of a zeroed arena.
    pub open spec fn init_state(start: u64) -> HeapMeta {
        HeapMeta {
            start,
            head: (start + META_SIZE) as u64,
            limit: (start + DEFAULT_LIMIT_BYTES) as u64,
            last_ptr: 0,
            last_size: 0,
        }
    }

    /// The state after lazy initialization ran: a zero limit word marks a
    /// never-touched arena and is replaced by the defaults.
    pub open spec fn norm(self) -> HeapMeta {
        if self.limit == 0 {
            HeapMeta::init_state(self.start)
        } else {
            self
        }
    }
}

/// Least multiple of `a` that is at least `x`, for `a >= 1`.
pub open spec fn spec_align_up(x: int, a: int) -> int {
    x + ((a - x % a) % a)
}

/// Cursor position the next allocation with this alignment would start at.
pub open spec fn spec_alloc_ptr(m: HeapMeta, align: u64) -> int {
    spec_align_up(m.head as int, align as int)
}

/// Whether an allocation of `size`/`align` fits under the byte limit.
pub open spec fn spec_alloc_fits(m: HeapMeta, size: u64, align: u64) -> bool {
    spec_alloc_ptr(m, align) + size <= m.limit
}

/// Metadata after a successful allocation of `size`/`align`.
pub open spec fn spec_after_alloc(m: HeapMeta, size: u64, align: u64) -> HeapMeta {
    HeapMeta {
        head: (spec_alloc_ptr(m, align) + size) as u64,
        last_ptr: spec_alloc_ptr(m, align) as u64,
        last_size: size,
        ..m
    }
}

/// Metadata after `free(ptr, size)`: reclaimed only on an exact match of the
/// most recent allocation, otherwise unchanged.
pub open spec fn spec_after_free(m: HeapMeta, ptr: u64, size: u64) -> HeapMeta {
    if m.last_ptr == ptr && m.last_size == size {
        HeapMeta { head: ptr, last_ptr: 0, last_size: 0, ..m }
    } else {
        m
    }
}

/// Returns the fixed start address of the heap arena.
pub fn heap_start() -> (r: u64)
    ensures
        r == HEAP_START_ADDR,
{
    HEAP_START_ADDR
}

/// Rounds `x` up to the next multiple of `a`.
pub fn align_up(x: u64, a: u64) -> (r: u64)
    requires
        a >= 1,
        x + a <= u64::MAX,
    ensures
        r == spec_align_up(x as int, a as int),
        (r as int) % (a as int) == 0,
        x <= r < x + a,
{
    proof {
        lemma_align_up_bounds(x as int, a as int);
    }
    let rem = x % a;
    if rem == 0 {
        x
    } else {
        x + (a - rem)
    }
}

proof fn lemma_align_up_bounds(x: int, a: int) by (nonlinear_arith)
    requires
        a >= 1,
        x >= 0,
    ensures
        spec_align_up(x, a) % a == 0,
        x <= spec_align_up(x, a) < x + a,
        x % a == 0 ==> spec_align_up(x, a) == x,
        x % a != 0 ==> spec_align_up(x, a) == x + (a - x % a),
{
}

/// Lazily initializes the metadata words on first access, detected by a
/// zero limit word.
pub fn ensure_inited(m: &mut HeapMeta)
    requires
        old(m).is_unused() || old(m).wf(),
    ensures
        *final(m) == old(m).norm(),
        final(m).wf(),
{
    if m.limit == 0 {
        m.head = m.start + META_SIZE;
        m.limit = m.start + DEFAULT_LIMIT_BYTES;
        m.last_ptr = 0;
        m.last_size = 0;
    }
}

/// Byte limit actually configured for a request of `bytes`: rounded down to
/// the limit quantum, with the default limit as a floor.
pub open spec fn spec_rounded_limit(bytes: u64) -> int {
    if bytes - bytes % LIMIT_QUANTUM > DEFAULT_LIMIT_BYTES {
        bytes - bytes % LIMIT_QUANTUM
    } else {
        DEFAULT_LIMIT_BYTES as int
    }
}

/// Sets the heap byte limit: a multiple of the limit quantum with a minimum
/// of the default 32 KiB.  Also initializes the cursor if it is still zero.
pub fn set_heap_limit_bytes(m: &mut HeapMeta, bytes: u64)
    requires
        old(m).is_unused() || old(m).wf(),
        old(m).start + spec_rounded_limit(bytes) <= u64::MAX,
    ensures
        final(m).start == old(m).start,
        final(m).limit == old(m).start + spec_rounded_limit(bytes),
        final(m).head == if old(m).head == 0 {
            old(m).start + META_SIZE
        } else {
            old(m).head as int
        },
        final(m).last_ptr == old(m).last_ptr,
        final(m).last_size == old(m).last_size,
        final(m).wf(),
{
    let rounded = bytes - bytes % LIMIT_QUANTUM;
    let n = if rounded > DEFAULT_LIMIT_BYTES {
        rounded
    } else {
        DEFAULT_LIMIT_BYTES
    };
    if m.head == 0 {
        m.head = m.start + META_SIZE;
    }
    m.limit = m.start + n;
}

/// Returns the metadata triple (arena start, cursor, limit).
pub fn snapshot(m: &HeapMeta) -> (r: (u64, u64, u64))
    ensures
        r.0 == m.start,
        r.1 == m.head,
        r.2 == m.limit,
{
    (m.start, m.head, m.limit)
}

impl BpfBumpAlloc {
    /// Allocates `size` bytes at alignment `align`, bumping the cursor.
    /// Returns the address, or `None` exactly when the aligned end of the
    /// request would exceed the byte limit; a failed request leaves the
    /// metadata unchanged (beyond lazy initialization).
    pub fn allocate(&self, m: &mut HeapMeta, size: u64, align: u64) -> (r: Option<u64>)
        requires
            old(m).is_unused() || old(m).wf(),
            align >= 1,
        ensures
            final(m).wf(),
            spec_alloc_fits(old(m).norm(), size, align) ==> {
                &&& r == Some(spec_alloc_ptr(old(m).norm(), align) as u64)
                &&& *final(m) == spec_after_alloc(old(m).norm(), size, align)
                &&& r.unwrap() != 0
            },
            !spec_alloc_fits(old(m).norm(), size, align) ==> {
                &&& r is None
                &&& *final(m) == old(m).norm()
            },
    {
        ensure_inited(m);
        proof {
            lemma_align_up_bounds(m.head as int, align as int);
        }
        let rem = m.head % align;
        let pad = if rem == 0 { 0 } else { align - rem };
        let ptr = match m.head.checked_add(pad) {
            Some(p) => p,
            None => {
                return None;
            },
        };
        let end = match ptr.checked_add(size) {
            Some(e) => e,
            None => {
                return None;
            },
        };
        if end > m.limit {
            return None;
        }
        m.head = end;
        m.last_ptr = ptr;
        m.last_size = size;
        Some(ptr)
    }

    /// Frees `(ptr, size)`.  Space is reclaimed only when the pair names
    /// exactly the most recent allocation (LIFO discipline): the cursor moves
    /// back to its start and the record is cleared.  Any other free is a
    /// silent no-op and changes nothing.
    pub fn free(&self, m: &mut HeapMeta, ptr: u64, size: u64)
        requires
            old(m).wf(),
            ptr != 0,
        ensures
            *final(m) == spec_after_free(*old(m), ptr, size),
            final(m).wf(),
    {
        if m.last_ptr == ptr && m.last_size == size {
            m.head = ptr;
            m.last_ptr = 0;
            m.last_size = 0;
        }
    }

    /// Resizes the block at `ptr`.  When `ptr` is the most recent allocation
    /// the block shrinks in place (always legal), or grows in place when the
    /// cursor still sits at its end and the new end fits under the limit.
    /// Otherwise a fresh block is allocated (the old one is left stranded);
    /// the caller copies the contents over.  Returns the block's address, or
    /// `None` when nothing fits.
    pub fn grow_or_relocate(&self, m: &mut HeapMeta, ptr: u64, align: u64, new_size: u64) -> (r: Option<
        u64,
    >)
        requires
            old(m).wf(),
            align >= 1,
            ptr != 0,
        ensures
            final(m).wf(),
            ({
                let o = old(m).norm();
                let old_end = o.last_ptr + o.last_size;
                if o.last_ptr == ptr {
                    if ptr + new_size > u64::MAX {
                        r is None && *final(m) == o
                    } else if ptr + new_size <= old_end || (ptr + new_size <= o.limit
                        && o.head == old_end) {
                        &&& r == Some(ptr)
                        &&& *final(m) == HeapMeta {
                            head: (ptr + new_size) as u64,
                            last_size: new_size,
                            ..o
                        }
                    } else {
                        spec_realloc_fallback(o, new_size, align, r, *final(m))
                    }
                } else {
                    spec_realloc_fallback(o, new_size, align, r, *final(m))
                }
            }),
    {
        ensure_inited(m);
        if m.last_ptr == ptr {
            let old_end = m.last_ptr + m.last_size;
            let new_end = match ptr.checked_add(new_size) {
                Some(e) => e,
                None => {
                    return None;
                },
            };
            if new_end <= old_end {
                m.head = new_end;
                m.last_size = new_size;
                return Some(ptr);
            } else if new_end <= m.limit && m.head == old_end {
                m.head = new_end;
                m.last_size = new_size;
                return Some(ptr);
            }
        }
        self.allocate(m, new_size, align)
    }
}

/// Outcome of `realloc`'s fall-back path: a plain allocation of the new size.
pub open spec fn spec_realloc_fallback(
    o: HeapMeta,
    new_size: u64,
    align: u64,
    r: Option<u64>,
    f: HeapMeta,
) -> bool {
    if spec_alloc_fits(o, new_size, align) {
        &&& r == Some(spec_alloc_ptr(o, align) as u64)
        &&& f == spec_after_alloc(o, new_size, align)
    } else {
        &&& r is None
        &&& f == o
    }
}

/// Law (LIFO reclaim): allocating and then freeing exactly that allocation
/// moves the cursor back to the allocation's start; when the cursor was
/// already aligned, that is exactly the cursor's value before the pair, so
/// the pair reclaims in full.  Freeing anything that is not the most recent
/// allocation changes nothing at all.
pub proof fn lemma_lifo_reclaim(m: HeapMeta, size: u64, align: u64, p: u64, s: u64)
    requires
        m.wf(),
        align >= 1,
        spec_alloc_fits(m, size, align),
    ensures
        ({
            let ptr = spec_alloc_ptr(m, align) as u64;
            let after = spec_after_alloc(m, size, align);
            &&& spec_after_free(after, ptr, size).head == ptr
            &&& m.head as int % align as int == 0 ==> spec_after_free(after, ptr, size).head
                == m.head
            &&& !(p == ptr && s == size) ==> spec_after_free(after, p, s) == after
        }),
{
    lemma_align_up_bounds(m.head as int, align as int);
}

/// One allocate/free round trip: the allocation of `size`/`align`
/// performed and then immediately freed.
pub open spec fn spec_pair(m: HeapMeta, size: u64, align: u64) -> HeapMeta {
    spec_after_free(spec_after_alloc(m, size, align), spec_alloc_ptr(m, align) as u64, size)
}

/// The metadata after a sequence of allocate/free round trips.
pub open spec fn spec_run_pairs(m: HeapMeta, reqs: Seq<(u64, u64)>) -> HeapMeta
    decreases reqs.len(),
{
    if reqs.len() == 0 {
        m
    } else {
        spec_run_pairs(spec_pair(m, reqs.first().0, reqs.first().1), reqs.drop_first())
    }
}

/// Law (LIFO reclaim over sequences): for any sequence of fitting requests
/// at alignments the cursor already satisfies, where each free names the
/// allocation made right before it, the cursor returns exactly to its
/// pre-sequence value, and the limit and arena start never move.
pub proof fn lemma_lifo_sequence(m: HeapMeta, reqs: Seq<(u64, u64)>)
    requires
        m.wf(),
        forall|i: int|
            0 <= i < reqs.len() ==> {
                &&& (#[trigger] reqs[i]).1 >= 1
                &&& spec_alloc_fits(m, reqs[i].0, reqs[i].1)
                &&& m.head as int % reqs[i].1 as int == 0
            },
    ensures
        spec_run_pairs(m, reqs).head == m.head,
        spec_run_pairs(m, reqs).limit == m.limit,
        spec_run_pairs(m, reqs).start == m.start,
        spec_run_pairs(m, reqs).wf(),
    decreases reqs.len(),
{
    if reqs.len() == 0 {
    } else {
        let r = reqs.first();
        assert(r == reqs[0]);
        lemma_align_up_bounds(m.head as int, r.1 as int);
        let m1 = spec_pair(m, r.0, r.1);
        assert(m1 == HeapMeta { last_ptr: 0, last_size: 0, ..m });
        assert forall|i: int| 0 <= i < reqs.drop_first().len() implies {
            &&& (#[trigger] reqs.drop_first()[i]).1 >= 1
            &&& spec_alloc_fits(m1, reqs.drop_first()[i].0, reqs.drop_first()[i].1)
            &&& m1.head as int % reqs.drop_first()[i].1 as int == 0
        } by {
            assert(reqs.drop_first()[i] == reqs[i + 1]);
        }
        lemma_lifo_sequence(m1, reqs.drop_first());
    }
}

/// Law (allocation bound): a request whose aligned end exceeds the byte
/// limit fails and leaves every metadata word unchanged, so any later
/// request that fits the remaining budget still succeeds at the same
/// cursor.
pub proof fn lemma_failed_alloc_keeps_budget(m: HeapMeta, s1: u64, a1: u64, s2: u64, a2: u64)
    requires
        m.wf(),
        m.limit != 0,
        a1 >= 1,
        a2 >= 1,
        !spec_alloc_fits(m, s1, a1),
        spec_alloc_fits(m, s2, a2),
    ensures
        m.norm() == m,
        spec_alloc_fits(m.norm(), s2, a2),
        spec_after_alloc(m.norm(), s2, a2).head == spec_alloc_ptr(m, a2) + s2,
{
}

} // verus!
