//! The firmware-supplied memory map, as plain values.
//!
//! The boot loader hands the kernel an ordered list of physical address
//! ranges tagged by usage type.  The boundary code outside this crate
//! converts each raw entry into a [`MemoryMapEntry`]; everything the
//! allocators and the bitmap builder read is in these fields.

use vstd::prelude::*;

verus! {

/// The usage type of one memory-map region.
#[derive(Debug, Clone, Copy, PartialEq, Eq, Structural)]
pub enum EntryType {
    /// Free for the kernel to use.
    Usable,
    /// Permanently reserved by firmware or hardware.
    Reserved,
    /// Reclaimable once ACPI tables have been consumed.
    AcpiReclaimable,
    /// ACPI non-volatile storage.
    AcpiNvs,
    /// Reported defective.
    BadMemory,
    /// Holds boot-loader data; reclaimable after handoff.
    BootloaderReclaimable,
    /// Occupied by the kernel image or boot modules.
    KernelAndModules,
    /// Backs the boot framebuffer.
    Framebuffer,
}

/// One region of the firmware memory map: `length` bytes starting at
/// physical address `base`.
#[derive(Debug, Clone, Copy, PartialEq, Eq, Structural)]
pub struct MemoryMapEntry {
    /// Physical byte address where the region starts.
    pub base: u64,
    /// Length of the region in bytes.
    pub length: u64,
    /// What the region is used for.
    pub entry_type: EntryType,
}

impl MemoryMapEntry {
    pub fn new(base: u64, length: u64, entry_type: EntryType) -> (r: Self)
        ensures
            r.base == base,
            r.length == length,
            r.entry_type == entry_type,
    {
        MemoryMapEntry { base, length, entry_type }
    }
}

/// The total addressable span of a memory map: the maximum of
/// `base + length` over all entries, and 0 for an empty map.
pub open spec fn spec_mem_span(s: Seq<MemoryMapEntry>) -> int
    decreases s.len(),
{
    if s.len() == 0 {
        0
    } else {
        let rest = spec_mem_span(s.drop_last());
        let last = s.last().base + s.last().length;
        if last > rest {
            last
        } else {
            rest
        }
    }
}

/// Every entry's end lies within the span.
pub proof fn lemma_mem_span_covers(s: Seq<MemoryMapEntry>, i: int)
    requires
        0 <= i < s.len(),
    ensures
        s[i].base + s[i].length <= spec_mem_span(s),
        spec_mem_span(s) >= 0,
    decreases s.len(),
{
    if i == s.len() - 1 {
        lemma_mem_span_nonneg(s.drop_last());
    } else {
        lemma_mem_span_covers(s.drop_last(), i);
        assert(s.drop_last()[i] == s[i]);
    }
}

/// The span is never negative.
pub proof fn lemma_mem_span_nonneg(s: Seq<MemoryMapEntry>)
    ensures
        spec_mem_span(s) >= 0,
    decreases s.len(),
{
    if s.len() > 0 {
        lemma_mem_span_nonneg(s.drop_last());
    }
}

} // verus!
