//! The frame bitmap: the authoritative free/used record for every 4 KiB
//! physical frame.
//!
//! Bit `i` of the byte sequence stands for frame `i` (the frame whose bytes
//! are `[i * 4096, (i + 1) * 4096)`); 1 means used or reserved, 0 means
//! free.  The bitmap is built once from the firmware memory map, into bytes
//! carved from the bootstrap arena, and then queried and mutated for the
//! rest of the system's life.  Any bit beyond the last true frame is set
//! permanently, since no valid frame backs it.

use vstd::prelude::*;

use crate::bit_utils::is_power_of_two;
use crate::bootstrap_allocator::BootstrapAllocator;
use crate::mem::{calc_mem_available, PageFrameAllocator};
use crate::memory_map::{lemma_mem_span_covers, spec_mem_span, EntryType, MemoryMapEntry};
use crate::page::{calc_4kb_page_count, Page, PageSize};

verus! {

/// True when bit `k` of byte `b` is set.
pub open spec fn byte_bit(b: u8, k: u64) -> bool {
    b >> k & 1 == 1
}

/// True when the bitmap `bm` marks frame `i` used.
pub open spec fn frame_used(bm: Seq<u8>, i: int) -> bool
    recommends
        0 <= i < 8 * bm.len(),
{
    byte_bit(bm[i / 8], (i % 8) as u64)
}

/// Frame `i` is the lowest free frame of `bm`.
pub open spec fn is_first_free_frame(bm: Seq<u8>, i: int) -> bool {
    &&& 0 <= i < 8 * bm.len()
    &&& !frame_used(bm, i)
    &&& forall|j: int| 0 <= j < i ==> frame_used(bm, j)
}

/// The free/used record for every 4 KiB physical frame, one bit per frame.
pub struct Bitmap(pub Vec<u8>);

impl View for Bitmap {
    type V = Seq<u8>;

    open spec fn view(&self) -> Seq<u8> {
        self.0@
    }
}

impl Bitmap {
    /// The bitmaps the operations are defined on: every tracked frame's
    /// start address fits the machine word.
    pub open spec fn wf(self) -> bool {
        self@.len() * 32768 <= usize::MAX as int + 1
    }

    pub fn new(bitmap: Vec<u8>) -> (r: Self)
        ensures
            r@ == bitmap@,
    {
        Bitmap(bitmap)
    }

    /// The lowest frame whose bit is clear, as a 4 KiB page; `None` when
    /// every frame is marked used.
    pub fn find_free_4kb_page(&self) -> (r: Option<Page>)
        requires
            self.wf(),
        ensures
            match r {
                Some(p) => p.size == PageSize::KB4 && p.start % 4096 == 0 && is_first_free_frame(
                    self@,
                    p.start as int / 4096,
                ),
                None => forall|j: int| 0 <= j < 8 * self@.len() ==> frame_used(self@, j),
            },
    {
        let n = self.0.len();
        for i in 0..n
            invariant
                n == self@.len(),
                self.wf(),
                forall|j: int| 0 <= j < 8 * i ==> frame_used(self@, j),
        {
            let pagebyte = self.0[i];
            if pagebyte != u8::MAX {
                for bit in 0..8usize
                    invariant
                        n == self@.len(),
                        self.wf(),
                        i < n,
                        pagebyte == self@[i as int],
                        forall|j: int| 0 <= j < 8 * i ==> frame_used(self@, j),
                        forall|k: u64| k < bit ==> byte_bit(pagebyte, k),
                {
                    if (1u8 << bit) & pagebyte == 0 {
                        let index = i * 8 + bit;
                        proof {
                            lemma_frame_index(i as int, bit as int);
                            assert((1u8 << (bit as u64)) & pagebyte == 0 ==> !(pagebyte >> (
                            bit as u64) & 1 == 1)) by (bit_vector)
                                requires
                                    bit < 8,
                            ;
                            assert forall|j: int| 0 <= j < index implies frame_used(self@, j) by {
                                if j >= 8 * i {
                                    lemma_frame_index_range(j, i as int);
                                }
                            }
                        }
                        return Some(pagekb4_from_index(index));
                    }
                    proof {
                        assert((1u8 << (bit as u64)) & pagebyte != 0 ==> pagebyte >> (bit as u64)
                            & 1 == 1) by (bit_vector)
                            requires
                                bit < 8,
                        ;
                    }
                }
            } else {
                proof {
                    assert forall|j: int| 8 * i <= j < 8 * (i + 1) implies frame_used(self@, j) by {
                        lemma_frame_index_range(j, i as int);
                        let k = (j % 8) as u64;
                        assert(k < 8 ==> (255u8 >> k & 1 == 1)) by (bit_vector);
                    }
                }
            }
            proof {
                assert forall|j: int| 0 <= j < 8 * (i + 1) implies frame_used(self@, j) by {
                    if j >= 8 * i {
                        lemma_frame_index_range(j, i as int);
                        let k = (j % 8) as u64;
                        assert(k < 8);
                    }
                }
            }
        }
        None
    }
}

/// For a frame index written as `8 * i + k` with `k < 8`, the byte index is
/// `i` and the bit index is `k`.
proof fn lemma_frame_index(i: int, k: int)
    requires
        0 <= i,
        0 <= k < 8,
    ensures
        (8 * i + k) / 8 == i,
        (8 * i + k) % 8 == k,
{
    vstd::arithmetic::div_mod::lemma_fundamental_div_mod_converse(8 * i + k, 8, i, k);
}

/// A frame index `j` in byte `i`'s range decomposes as `8 * i + (j % 8)`.
proof fn lemma_frame_index_range(j: int, i: int)
    requires
        8 * i <= j < 8 * (i + 1),
    ensures
        j / 8 == i,
        0 <= j % 8 < 8,
        j == 8 * i + j % 8,
{
    vstd::arithmetic::div_mod::lemma_fundamental_div_mod_converse(j, 8, i, j - 8 * i);
}

/// The 4 KiB page whose frame index is `index`.
pub fn pagekb4_from_index(index: usize) -> (r: Page)
    requires
        index * 4096 <= usize::MAX,
    ensures
        r.start == index * 4096,
        r.size == PageSize::KB4,
        r.start as int / 4096 == index,
        r.start % 4096 == 0,
{
    proof {
        vstd::arithmetic::div_mod::lemma_fundamental_div_mod_converse(index * 4096, 4096, index as int, 0);
    }
    Page { start: index * 4096, size: PageSize::KB4 }
}

} // verus!

verus! {

/// Setting bit `k` of a byte leaves every other bit alone.
proof fn lemma_byte_set_bit(b: u8, k: u64, k2: u64)
    by (bit_vector)
    requires
        k < 8,
        k2 < 8,
    ensures
        k2 == k ==> ((b | (1u8 << k)) >> k2 & 1 == 1),
        k2 != k ==> ((b | (1u8 << k)) >> k2 & 1) == (b >> k2 & 1),
{
}

/// Clearing bit `k` of a byte leaves every other bit alone.
proof fn lemma_byte_clear_bit(b: u8, k: u64, k2: u64)
    by (bit_vector)
    requires
        k < 8,
        k2 < 8,
    ensures
        k2 == k ==> ((b & !(1u8 << k)) >> k2 & 1 == 0),
        k2 != k ==> ((b & !(1u8 << k)) >> k2 & 1) == (b >> k2 & 1),
{
}

impl PageFrameAllocator for Bitmap {
    open spec fn inv(&self) -> bool {
        self.wf()
    }

    open spec fn frame_view(&self) -> Seq<bool> {
        Seq::new((8 * self@.len()) as nat, |i: int| frame_used(self@, i))
    }

    fn allocate_frame(&mut self) -> (r: Option<Page>) {
        let page = match self.find_free_4kb_page() {
            None => {
                proof {
                    assert(self.frame_view() =~= old(self).frame_view());
                }
                return None;
            },
            Some(page) => page,
        };
        let index = page.start / 4096;
        let byte_index = index / 8;
        proof {
            vstd::arithmetic::div_mod::lemma_fundamental_div_mod(index as int, 8);
        }
        let old_byte = self.0[byte_index];
        let new_byte = old_byte | (1u8 << (index % 8));
        self.0.set(byte_index, new_byte);
        proof {
            lemma_toggle_view(old(self)@, self@, index as int, true);
            assert(self.frame_view() =~= old(self).frame_view().update(index as int, true));
        }
        Some(page)
    }

    fn deallocate_frame(&mut self, page: Page) {
        let index = page.start / 4096;
        let byte_index = index / 8;
        proof {
            vstd::arithmetic::div_mod::lemma_fundamental_div_mod(index as int, 8);
        }
        let old_byte = self.0[byte_index];
        let new_byte = old_byte & !(1u8 << (index % 8));
        self.0.set(byte_index, new_byte);
        proof {
            lemma_toggle_view(old(self)@, self@, index as int, false);
            assert(self.frame_view() =~= old(self).frame_view().update(index as int, false));
        }
    }
}

/// After replacing frame `idx`'s byte by the same byte with that frame's bit
/// set (or cleared), every frame flag is the old one except frame `idx`'s,
/// which now reads `set`.
proof fn lemma_toggle_view(old_bm: Seq<u8>, new_bm: Seq<u8>, idx: int, set: bool)
    requires
        0 <= idx < 8 * old_bm.len(),
        new_bm == old_bm.update(
            idx / 8,
            if set {
                (old_bm[idx / 8] | (1u8 << ((idx % 8) as u64))) as u8
            } else {
                (old_bm[idx / 8] & !(1u8 << ((idx % 8) as u64))) as u8
            },
        ),
    ensures
        new_bm.len() == old_bm.len(),
        frame_used(new_bm, idx) == set,
        forall|j: int|
            0 <= j < 8 * old_bm.len() && j != idx ==> frame_used(new_bm, j) == frame_used(
                old_bm,
                j,
            ),
{
    let bi = idx / 8;
    let k = (idx % 8) as u64;
    vstd::arithmetic::div_mod::lemma_fundamental_div_mod(idx, 8);
    if set {
        lemma_byte_set_bit(old_bm[bi], k, k);
    } else {
        lemma_byte_clear_bit(old_bm[bi], k, k);
    }
    assert forall|j: int|
        0 <= j < 8 * old_bm.len() && j != idx implies frame_used(new_bm, j) == frame_used(
        old_bm,
        j,
    ) by {
        vstd::arithmetic::div_mod::lemma_fundamental_div_mod(j, 8);
        if j / 8 == bi {
            if set {
                lemma_byte_set_bit(old_bm[bi], k, (j % 8) as u64);
            } else {
                lemma_byte_clear_bit(old_bm[bi], k, (j % 8) as u64);
            }
        }
    }
}

/// Allocating a frame and then deallocating that same frame restores the
/// frame record to exactly its prior state: the free/used marks form a
/// toggle.
pub proof fn lemma_alloc_dealloc_roundtrip(v: Seq<bool>, idx: int)
    requires
        0 <= idx < v.len(),
        !v[idx],
    ensures
        v.update(idx, true).update(idx, false) == v,
{
    assert(v.update(idx, true).update(idx, false) =~= v);
}

} // verus!

verus! {

/// Whether the non-usable entry `e` overlaps the byte range `[start, end)`
/// anywhere.
pub open spec fn spec_nonusable_overlaps(e: MemoryMapEntry, start: int, end: int) -> bool {
    &&& e.entry_type != EntryType::Usable
    &&& e.base < end
    &&& e.base + e.length > start
}

/// Whether no non-usable memory-map entry overlaps the byte range
/// `[start, end)`.
pub open spec fn spec_range_free(s: Seq<MemoryMapEntry>, start: int, end: int) -> bool {
    forall|k: int| 0 <= k < s.len() ==> !spec_nonusable_overlaps(s[k], start, end)
}

/// Whether frame `i` overlaps no non-usable memory-map entry.
pub open spec fn spec_frame_free(s: Seq<MemoryMapEntry>, i: int) -> bool {
    spec_range_free(s, 4096 * i, 4096 * (i + 1))
}

/// True exactly when no non-usable memory-map entry overlaps any part of
/// the page: an entry that contains the page, or covers only its head or
/// only its tail, all make it not-free.  A frame straddling a region
/// boundary is never reported free.
pub fn is_page_entirely_free(page: &Page, entries: &Vec<MemoryMapEntry>) -> (r: bool)
    requires
        page.start + page.size.spec_bytes() <= u64::MAX,
        spec_mem_span(entries@) <= u64::MAX,
    ensures
        r == spec_range_free(entries@, page.start as int, page.start + page.size.spec_bytes()),
{
    let page_start = page.start as u64;
    let page_end = page_start + page.size.bytes() as u64;
    let n = entries.len();
    for k in 0..n
        invariant
            n == entries@.len(),
            page_start == page.start,
            page_end == page.start + page.size.spec_bytes(),
            spec_mem_span(entries@) <= u64::MAX,
            forall|j: int|
                0 <= j < k ==> !spec_nonusable_overlaps(
                    entries@[j],
                    page_start as int,
                    page_end as int,
                ),
    {
        let entry = entries[k];
        proof {
            lemma_mem_span_covers(entries@, k as int);
        }
        if !matches!(entry.entry_type, EntryType::Usable) {
            let entry_end = entry.base + entry.length;
            if entry.base < page_end && entry_end > page_start {
                return false;
            }
        }
    }
    true
}

/// The byte whose 8 bits record, for frames `8 * pagebyte_index` through
/// `8 * pagebyte_index + 7`, whether the frame overlaps any non-usable
/// memory-map entry.
pub fn set_used_page_bits(pagebyte_index: usize, entries: &Vec<MemoryMapEntry>) -> (r: u8)
    requires
        (8 * pagebyte_index + 8) * 4096 <= usize::MAX,
        spec_mem_span(entries@) <= u64::MAX,
    ensures
        forall|k: u64|
            k < 8 ==> #[trigger] byte_bit(r, k) == !spec_frame_free(
                entries@,
                8 * pagebyte_index + k,
            ),
{
    let mut pagebyte: u8 = 0;
    proof {
        assert forall|k: u64| k < 8 implies !byte_bit(0u8, k) by {
            assert(k < 8 ==> !(0u8 >> k & 1 == 1)) by (bit_vector);
        }
    }
    for bit in 0..8usize
        invariant
            (8 * pagebyte_index + 8) * 4096 <= usize::MAX,
            spec_mem_span(entries@) <= u64::MAX,
            forall|k: u64|
                k < bit ==> #[trigger] byte_bit(pagebyte, k) == !spec_frame_free(
                    entries@,
                    8 * pagebyte_index + k,
                ),
            forall|k: u64| bit <= k < 8 ==> !(#[trigger] byte_bit(pagebyte, k)),
    {
        let index = pagebyte_index * 8 + bit;
        let page = pagekb4_from_index(index);
        proof {
            assert(page.start + page.size.spec_bytes() == 4096 * (index + 1));
        }
        let free = is_page_entirely_free(&page, entries);
        if !free {
            let new_byte = pagebyte | (1u8 << bit);
            proof {
                assert forall|k: u64| k < 8 implies #[trigger] byte_bit(new_byte, k) == (k
                    == bit || byte_bit(pagebyte, k)) by {
                    lemma_byte_set_bit(pagebyte, bit as u64, k);
                }
            }
            pagebyte = new_byte;
        }
    }
    pagebyte
}

/// How many whole 4 KiB frames the memory map spans.
pub open spec fn spec_frame_count(s: Seq<MemoryMapEntry>) -> int {
    spec_mem_span(s) / 4096
}

/// How many bytes the bitmap needs: one bit per frame, rounded up to whole
/// bytes.
pub open spec fn spec_bitmap_bytes(s: Seq<MemoryMapEntry>) -> int {
    (spec_frame_count(s) + 7) / 8
}

} // verus!

verus! {

/// Builds the frame bitmap from the firmware memory map: carves
/// `ceil(frame count / 8)` bytes out of the bootstrap arena as the bitmap's
/// backing region, then fills each bit with the conservative overlap test.
/// A bit is 1 exactly when its frame overlaps some non-usable entry, and
/// every bit beyond the last whole frame is 1, since no valid frame backs
/// it.  The arena running out here is fatal to boot, so the caller must
/// bring an arena with room for the bitmap.
pub fn create_bitmap(entries: &Vec<MemoryMapEntry>, allocator: &mut BootstrapAllocator) -> (r: Vec<
    u8,
>)
    requires
        old(allocator).wf(),
        spec_mem_span(entries@) + 32768 <= usize::MAX,
        spec_bitmap_bytes(entries@) <= old(allocator).spec_remaining(),
    ensures
        r@.len() == spec_bitmap_bytes(entries@),
        r@.len() * 32768 <= usize::MAX as int + 1,
        forall|i: int|
            0 <= i < spec_frame_count(entries@) ==> #[trigger] frame_used(r@, i)
                == !spec_frame_free(entries@, i),
        forall|i: int| spec_frame_count(entries@) <= i < 8 * r@.len() ==> frame_used(r@, i),
        final(allocator).start == old(allocator).start,
        final(allocator).size == old(allocator).size,
        final(allocator).cursor == old(allocator).cursor + spec_bitmap_bytes(entries@),
        final(allocator).wf(),
{
    let ghost span = spec_mem_span(entries@);
    proof {
        crate::memory_map::lemma_mem_span_nonneg(entries@);
        vstd::arithmetic::div_mod::lemma_div_pos_is_pos(span, 4096);
        vstd::arithmetic::div_mod::lemma_fundamental_div_mod(span, 4096);
    }
    let mem_available = calc_mem_available(entries);
    let frame_count = calc_4kb_page_count(mem_available);
    // each byte of the bitmap covers 8 frames; a last partial byte is still
    // a whole byte
    let bitmap_size_u64 = (frame_count + 7) / 8;
    proof {
        vstd::arithmetic::div_mod::lemma_div_pos_is_pos(frame_count + 7, 8);
        vstd::arithmetic::div_mod::lemma_fundamental_div_mod(frame_count + 7, 8);
        assert(8 * spec_bitmap_bytes(entries@) <= spec_frame_count(entries@) + 7);
        assert(spec_frame_count(entries@) <= 8 * spec_bitmap_bytes(entries@));
    }
    let bitmap_size = bitmap_size_u64 as usize;
    let arena_region = allocator.allocate(bitmap_size, 1);
    proof {
        assert(1usize & 0usize == 0usize) by (bit_vector);
        assert(is_power_of_two(1));
        vstd::arithmetic::div_mod::lemma_fundamental_div_mod_converse(
            old(allocator).cursor as int,
            1,
            old(allocator).cursor as int,
            0,
        );
        assert(crate::bit_utils::spec_align_up(old(allocator).cursor, 1) == old(allocator).cursor);
        assert(arena_region matches Ok(_));
    }
    let mut bitmap_vec: Vec<u8> = Vec::new();
    for idx in 0..bitmap_size
        invariant
            bitmap_vec@.len() == idx,
    {
        bitmap_vec.push(0);
    }
    for pagebyte_index in 0..bitmap_size
        invariant
            bitmap_vec@.len() == bitmap_size,
            bitmap_size == spec_bitmap_bytes(entries@),
            spec_mem_span(entries@) + 32768 <= usize::MAX,
            8 * bitmap_size <= spec_frame_count(entries@) + 7,
            4096 * spec_frame_count(entries@) <= spec_mem_span(entries@),
            forall|i: int|
                0 <= i < 8 * pagebyte_index ==> #[trigger] frame_used(bitmap_vec@, i)
                    == !spec_frame_free(entries@, i),
    {
        let used_bits = set_used_page_bits(pagebyte_index, entries);
        let ghost prev = bitmap_vec@;
        bitmap_vec.set(pagebyte_index, used_bits);
        proof {
            assert forall|i: int|
                0 <= i < 8 * (pagebyte_index + 1) implies #[trigger] frame_used(bitmap_vec@, i)
                == !spec_frame_free(entries@, i) by {
                vstd::arithmetic::div_mod::lemma_fundamental_div_mod(i, 8);
                if i >= 8 * pagebyte_index {
                    lemma_frame_index_range(i, pagebyte_index as int);
                    assert(byte_bit(used_bits, (i % 8) as u64) == !spec_frame_free(
                        entries@,
                        8 * pagebyte_index + (i % 8) as u64,
                    ));
                    assert(bitmap_vec@[i / 8] == used_bits);
                } else {
                    assert(frame_used(prev, i) == !spec_frame_free(entries@, i));
                    assert(bitmap_vec@[i / 8] == prev[i / 8]);
                }
            }
        }
    }
    let frames = frame_count as usize;
    let total_bits = bitmap_size * 8;
    for idx in frames..total_bits
        invariant
            bitmap_vec@.len() == bitmap_size,
            bitmap_size == spec_bitmap_bytes(entries@),
            frames == spec_frame_count(entries@),
            total_bits == 8 * bitmap_size,
            forall|i: int|
                0 <= i < spec_frame_count(entries@) ==> #[trigger] frame_used(bitmap_vec@, i)
                    == !spec_frame_free(entries@, i),
            forall|i: int| frames <= i < idx ==> frame_used(bitmap_vec@, i),
    {
        let byte_index = idx / 8;
        proof {
            vstd::arithmetic::div_mod::lemma_fundamental_div_mod(idx as int, 8);
        }
        let old_byte = bitmap_vec[byte_index];
        let new_byte = old_byte | (1u8 << (idx % 8));
        let ghost prev = bitmap_vec@;
        bitmap_vec.set(byte_index, new_byte);
        proof {
            lemma_toggle_view(prev, bitmap_vec@, idx as int, true);
        }
    }
    proof {
        assert(bitmap_vec@.len() * 32768 <= (spec_frame_count(entries@) + 7) * 4096);
    }
    bitmap_vec
}

/// How many of the first `n` frame bits of `bm` are clear (free).
pub open spec fn count_free_bits(bm: Seq<u8>, n: int) -> int
    decreases n,
{
    if n <= 0 {
        0
    } else {
        count_free_bits(bm, n - 1) + if frame_used(bm, n - 1) {
            0int
        } else {
            1int
        }
    }
}

/// How many of the first `n` frames overlap no non-usable entry of `s`.
pub open spec fn count_free_frames(s: Seq<MemoryMapEntry>, n: int) -> int
    decreases n,
{
    if n <= 0 {
        0
    } else {
        count_free_frames(s, n - 1) + if spec_frame_free(s, n - 1) {
            1int
        } else {
            0int
        }
    }
}

proof fn lemma_free_count_agrees(bm: Seq<u8>, s: Seq<MemoryMapEntry>, n: int)
    requires
        0 <= n,
        forall|i: int| 0 <= i < n ==> #[trigger] frame_used(bm, i) == !spec_frame_free(s, i),
    ensures
        count_free_bits(bm, n) == count_free_frames(s, n),
    decreases n,
{
    if n > 0 {
        lemma_free_count_agrees(bm, s, n - 1);
    }
}

/// For any memory map and any bitmap built from it, the number of frames
/// the bitmap reports free equals the number of frames that overlap no
/// non-usable memory-map entry, and the bitmap holds at least one bit per
/// frame.
pub proof fn lemma_builder_free_count(bm: Seq<u8>, s: Seq<MemoryMapEntry>)
    requires
        bm.len() == spec_bitmap_bytes(s),
        forall|i: int|
            0 <= i < spec_frame_count(s) ==> #[trigger] frame_used(bm, i) == !spec_frame_free(
                s,
                i,
            ),
    ensures
        count_free_bits(bm, spec_frame_count(s)) == count_free_frames(s, spec_frame_count(s)),
        8 * bm.len() >= spec_frame_count(s),
{
    crate::memory_map::lemma_mem_span_nonneg(s);
    vstd::arithmetic::div_mod::lemma_div_pos_is_pos(spec_mem_span(s), 4096);
    lemma_free_count_agrees(bm, s, spec_frame_count(s));
    vstd::arithmetic::div_mod::lemma_fundamental_div_mod(spec_frame_count(s) + 7, 8);
}

} // verus!
