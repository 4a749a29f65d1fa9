//! The one-shot bootstrap arena.
//!
//! Before the frame bitmap exists there is no general-purpose heap, yet the
//! bitmap itself needs backing memory.  The bootstrap allocator breaks that
//! circle: a fixed-size scratch region is carved out of the first usable
//! memory-map entry that can hold it, and a bump cursor hands out aligned
//! pieces of it.  Nothing is ever returned piecemeal; the whole arena goes
//! back to the pool once the bitmap is built.

use vstd::prelude::*;

use crate::bit_utils::{find_next_aligned_byte, is_power_of_two, spec_align_up, AlignmentError};
use crate::memory_map::{lemma_mem_span_covers, spec_mem_span, EntryType, MemoryMapEntry};

verus! {

/// Size of the bootstrap arena in bytes (64 MiB): enough for the bitmap of a
/// 40-bit physical address space with room to spare.
pub const BOOTSTRAP_HEAP_SIZE: usize = 0x400_0000;

/// Why a bootstrap allocation failed.
#[derive(Debug, Clone, Copy, PartialEq, Eq, Structural)]
pub enum AllocError {
    /// The requested alignment is zero or not a power of two.
    InvalidAlignment,
    /// No address with the requested alignment lies within the arena.
    AlignmentNotPossible,
    /// An aligned address exists, but the region would overrun the arena.
    OutOfSpace,
}

/// A bump allocator over a fixed scratch region.
///
/// `cursor` is the next address that may be handed out; it starts at `start`
/// and only ever advances.  Deallocation is a no-op by design: the arena is
/// reclaimed wholesale after bootstrap, never piecemeal.
#[derive(Debug, Clone, Copy, PartialEq, Eq, Structural)]
pub struct BootstrapAllocator {
    /// First byte of the arena.
    pub start: usize,
    /// Arena length in bytes.
    pub size: usize,
    /// Next address the bump allocator may hand out.
    pub cursor: usize,
}

impl BootstrapAllocator {
    /// The states the allocator's operations are defined on: the cursor lies
    /// inside the arena and the arena does not wrap the address space.
    pub open spec fn wf(self) -> bool {
        self.start <= self.cursor <= self.start + self.size <= usize::MAX
    }

    /// Bytes of the arena not yet handed out.
    pub open spec fn spec_remaining(self) -> int {
        self.start + self.size - self.cursor
    }

    pub fn new(start: usize, size: usize) -> (r: Self)
        requires
            start + size <= usize::MAX,
        ensures
            r.start == start,
            r.size == size,
            r.cursor == start,
            r.wf(),
    {
        BootstrapAllocator { start, size, cursor: start }
    }

    /// Hands out the next `size`-byte region at or after the bump cursor
    /// whose start satisfies `align`, and advances the cursor past it.
    ///
    /// Fails with `InvalidAlignment` when `align` is zero or not a power of
    /// two; with `AlignmentNotPossible` when no aligned address lies within
    /// the arena; and with `OutOfSpace` when the aligned region would
    /// overrun the arena's bound.  On failure the allocator is unchanged.
    pub fn allocate(&mut self, size: usize, align: usize) -> (r: Result<usize, AllocError>)
        requires
            old(self).wf(),
        ensures
            final(self).wf(),
            final(self).start == old(self).start,
            final(self).size == old(self).size,
            !is_power_of_two(align) <==> r == Err::<usize, AllocError>(AllocError::InvalidAlignment),
            (is_power_of_two(align) && spec_align_up(old(self).cursor, align) > old(self).start
                + old(self).size) <==> r == Err::<usize, AllocError>(
                AllocError::AlignmentNotPossible,
            ),
            (is_power_of_two(align) && spec_align_up(old(self).cursor, align) <= old(self).start
                + old(self).size && spec_align_up(old(self).cursor, align) + size > old(self).start
                + old(self).size) <==> r == Err::<usize, AllocError>(AllocError::OutOfSpace),
            (is_power_of_two(align) && spec_align_up(old(self).cursor, align) + size <= old(
                self,
            ).start + old(self).size) <==> (r matches Ok(_)),
            r matches Ok(a) ==> {
                &&& a == spec_align_up(old(self).cursor, align)
                &&& a % align == 0
                &&& old(self).cursor <= a
                &&& a + size <= old(self).start + old(self).size
                &&& final(self).cursor == a + size
            },
            r matches Err(_) ==> final(self).cursor == old(self).cursor,
    {
        let end = self.start + self.size;
        let next_aligned_byte = match find_next_aligned_byte(self.cursor, align) {
            Ok(aligned_byte) => aligned_byte,
            Err(AlignmentError::InvalidAlignment) => {
                return Err(AllocError::InvalidAlignment);
            },
            Err(AlignmentError::AlignmentNotPossible) => {
                return Err(AllocError::AlignmentNotPossible);
            },
        };
        if next_aligned_byte > end {
            return Err(AllocError::AlignmentNotPossible);
        }
        if size > end - next_aligned_byte {
            return Err(AllocError::OutOfSpace);
        }
        self.cursor = next_aligned_byte + size;
        Ok(next_aligned_byte)
    }

    /// Deallocation is intentionally a no-op: the arena's whole purpose is
    /// transient bootstrapping, and it is reclaimed wholesale afterwards.
    pub fn deallocate(&mut self, _addr: usize, _size: usize)
        ensures
            *final(self) == *old(self),
    {
    }
}

/// Whether `e` is a usable region that still holds `size` bytes once its
/// base is rounded up to `align`.
pub open spec fn spec_entry_fits(e: MemoryMapEntry, size: usize, align: usize) -> bool {
    &&& e.entry_type == EntryType::Usable
    &&& spec_align_up(e.base as usize, align) <= usize::MAX
    &&& spec_align_up(e.base as usize, align) + size <= e.base + e.length
}

/// The aligned base of the first memory-map entry that fits, if any.
pub open spec fn spec_find_memblock(
    s: Seq<MemoryMapEntry>,
    size: usize,
    align: usize,
) -> Option<usize>
    decreases s.len(),
{
    if s.len() == 0 {
        None
    } else if spec_entry_fits(s[0], size, align) {
        Some(spec_align_up(s[0].base as usize, align) as usize)
    } else {
        spec_find_memblock(s.subrange(1, s.len() as int), size, align)
    }
}

/// Scans the memory map in order for the first usable region whose length,
/// after rounding the base up to `align`, is at least `size`; returns that
/// rounded base.
pub fn find_memblock(size: usize, mm_entries: &Vec<MemoryMapEntry>, align: usize) -> (r: Option<
    usize,
>)
    requires
        is_power_of_two(align),
        spec_mem_span(mm_entries@) <= usize::MAX as int,
    ensures
        r == spec_find_memblock(mm_entries@, size, align),
{
    let n = mm_entries.len();
    proof {
        assert(mm_entries@.subrange(0, n as int) =~= mm_entries@);
    }
    for i in 0..n
        invariant
            n == mm_entries@.len(),
            is_power_of_two(align),
            spec_mem_span(mm_entries@) <= usize::MAX as int,
            spec_find_memblock(mm_entries@, size, align) == spec_find_memblock(
                mm_entries@.subrange(i as int, n as int),
                size,
                align,
            ),
    {
        let entry = mm_entries[i];
        proof {
            lemma_mem_span_covers(mm_entries@, i as int);
            assert(mm_entries@.subrange(i as int, n as int)[0] == entry);
            assert(mm_entries@.subrange(i as int, n as int).subrange(
                1,
                (n - i) as int,
            ) =~= mm_entries@.subrange(i + 1, n as int));
        }
        if matches!(entry.entry_type, EntryType::Usable) {
            let entry_base = entry.base as usize;
            match find_next_aligned_byte(entry_base, align) {
                Ok(aligned_base) => {
                    let diff = aligned_base - entry_base;
                    if entry.length >= diff as u64 && entry.length - diff as u64 >= size as u64 {
                        return Some(aligned_base);
                    }
                    proof {
                        assert(entry.base + entry.length < aligned_base + size);
                        assert(!spec_entry_fits(entry, size, align));
                    }
                },
                Err(e) => {
                    proof {
                        assert(e == AlignmentError::AlignmentNotPossible);
                        assert(spec_align_up(entry_base, align) > usize::MAX);
                        assert(!spec_entry_fits(entry, size, align));
                    }
                },
            }
        } else {
            proof {
                assert(entry.entry_type != EntryType::Usable);
                assert(!spec_entry_fits(entry, size, align));
            }
        }
        proof {
            assert(!spec_entry_fits(entry, size, align));
            assert(spec_find_memblock(mm_entries@.subrange(i as int, n as int), size, align)
                == spec_find_memblock(mm_entries@.subrange(i + 1, n as int), size, align));
        }
    }
    None
}

/// Locates the bootstrap arena: the first usable region that can hold
/// [`BOOTSTRAP_HEAP_SIZE`] bytes, shifted into the direct map by
/// `hhdm_offset`.  Returns `None` when no region is large enough or the
/// shifted arena would not fit the address space; boot cannot proceed then.
pub fn init_bootstrap_alloc(entries: &Vec<MemoryMapEntry>, hhdm_offset: u64) -> (r: Option<
    BootstrapAllocator,
>)
    requires
        spec_mem_span(entries@) <= usize::MAX as int,
    ensures
        match spec_find_memblock(entries@, BOOTSTRAP_HEAP_SIZE, 1) {
            Some(base) => {
                if base + hhdm_offset + BOOTSTRAP_HEAP_SIZE <= usize::MAX {
                    r matches Some(a) && a.start == base + hhdm_offset && a.size
                        == BOOTSTRAP_HEAP_SIZE && a.cursor == a.start && a.wf()
                } else {
                    r is None
                }
            },
            None => r is None,
        },
{
    assert(1usize & 0usize == 0usize) by (bit_vector);
    let start = match find_memblock(BOOTSTRAP_HEAP_SIZE, entries, 1) {
        Some(start) => start,
        None => {
            return None;
        },
    };
    if hhdm_offset > (usize::MAX - start) as u64 {
        return None;
    }
    let hhdm_start = start + hhdm_offset as usize;
    if BOOTSTRAP_HEAP_SIZE > usize::MAX - hhdm_start {
        return None;
    }
    Some(BootstrapAllocator::new(hhdm_start, BOOTSTRAP_HEAP_SIZE))
}

} // verus!
