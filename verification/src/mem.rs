//! Steady-state memory management: the frame-allocator interface and the
//! kernel allocator that owns the completed bitmap.

use vstd::prelude::*;

use crate::bitmap::Bitmap;
use crate::memory_map::{spec_mem_span, MemoryMapEntry};
use crate::page::{Page, PageSize};

verus! {

/// The kernel's allocator: owns the frame bitmap for the rest of the
/// system's life and serves requests against a fixed heap base.
pub struct KernelAlloc {
    /// Virtual base address of the kernel heap.
    pub heap_adr: usize,
    /// The authoritative free/used record for every 4 KiB frame.
    pub bitmap: Bitmap,
}

impl KernelAlloc {
    pub fn new(heap_adr: usize, bitmap: Bitmap) -> (r: KernelAlloc)
        ensures
            r.heap_adr == heap_adr,
            r.bitmap == bitmap,
    {
        KernelAlloc { heap_adr, bitmap }
    }
}

/// A source of 4 KiB page frames.
///
/// `frame_view` is one `bool` per trackable frame, `true` meaning used.
/// Allocation hands out the lowest free frame and marks it used;
/// deallocation clears exactly the given frame's mark.
pub trait PageFrameAllocator {
    /// States on which the allocator's operations are defined.
    spec fn inv(&self) -> bool;

    /// One flag per trackable frame: `true` = used or reserved.
    spec fn frame_view(&self) -> Seq<bool>;

    /// Hands out the lowest free frame, marking it used; returns `None`,
    /// and changes nothing, exactly when no free frame remains.
    fn allocate_frame(&mut self) -> (r: Option<Page>)
        requires
            old(self).inv(),
        ensures
            final(self).inv(),
            match r {
                Some(p) => {
                    let idx = p.start as int / 4096;
                    &&& p.size == PageSize::KB4
                    &&& p.start % 4096 == 0
                    &&& 0 <= idx < old(self).frame_view().len()
                    &&& !old(self).frame_view()[idx]
                    &&& (forall|j: int| 0 <= j < idx ==> old(self).frame_view()[j])
                    &&& final(self).frame_view() == old(self).frame_view().update(idx, true)
                },
                None => {
                    &&& final(self).frame_view() == old(self).frame_view()
                    &&& (forall|j: int|
                        0 <= j < old(self).frame_view().len() ==> old(self).frame_view()[j])
                },
            },
    ;

    /// Clears the used mark of exactly the frame that `page` starts at.
    fn deallocate_frame(&mut self, page: Page)
        requires
            old(self).inv(),
            page.size == PageSize::KB4,
            page.start % 4096 == 0,
            0 <= page.start as int / 4096 < old(self).frame_view().len(),
        ensures
            final(self).inv(),
            final(self).frame_view() == old(self).frame_view().update(
                page.start as int / 4096,
                false,
            ),
    ;
}

/// The total addressable span of the memory map: the maximum of
/// `base + length` over all entries.
pub fn calc_mem_available(entries: &Vec<MemoryMapEntry>) -> (r: u64)
    requires
        spec_mem_span(entries@) <= u64::MAX,
    ensures
        r == spec_mem_span(entries@),
{
    let mut span: u64 = 0;
    let n = entries.len();
    proof {
        assert(entries@.take(0) =~= Seq::<MemoryMapEntry>::empty());
    }
    for i in 0..n
        invariant
            n == entries@.len(),
            spec_mem_span(entries@) <= u64::MAX,
            span == spec_mem_span(entries@.take(i as int)),
    {
        proof {
            crate::memory_map::lemma_mem_span_covers(entries@, i as int);
            assert(entries@.take(i + 1).drop_last() =~= entries@.take(i as int));
            assert(entries@.take(i + 1).last() == entries@[i as int]);
            lemma_mem_span_take_le(entries@, i + 1);
        }
        let entry = entries[i];
        let end = entry.base + entry.length;
        if end > span {
            span = end;
        }
    }
    proof {
        assert(entries@.take(n as int) =~= entries@);
    }
    span
}

/// The span of a prefix never exceeds the span of the whole map.
proof fn lemma_mem_span_take_le(s: Seq<MemoryMapEntry>, n: int)
    requires
        0 <= n <= s.len(),
    ensures
        spec_mem_span(s.take(n)) <= spec_mem_span(s),
    decreases s.len() - n,
{
    if n == s.len() {
        assert(s.take(n) =~= s);
    } else {
        lemma_mem_span_take_le(s, n + 1);
        assert(s.take(n + 1).drop_last() =~= s.take(n));
        crate::memory_map::lemma_mem_span_nonneg(s.take(n));
    }
}

} // verus!
