//! Frame-aligned regions of physical memory.

use vstd::prelude::*;

verus! {

/// The two page sizes the translation hierarchy can map.
#[derive(Debug, Clone, Copy, PartialEq, Eq, Structural)]
pub enum PageSize {
    /// A 4 KiB frame, the unit the bitmap tracks.
    KB4,
    /// A 2 MiB large page, mapped by a terminal lower-middle entry.
    MB2,
}

impl PageSize {
    /// The size in bytes.
    pub open spec fn spec_bytes(self) -> usize {
        match self {
            PageSize::KB4 => 4096,
            PageSize::MB2 => 0x20_0000,
        }
    }

    /// The size in bytes.
    pub fn bytes(&self) -> (r: usize)
        ensures
            r == self.spec_bytes(),
    {
        match self {
            PageSize::KB4 => 4096,
            PageSize::MB2 => 0x20_0000,
        }
    }
}

/// A frame-aligned region of physical memory: a start address and a size.
/// It describes the region itself, not a mapping of it.
#[derive(Debug, Clone, Copy, PartialEq, Eq, Structural)]
pub struct Page {
    /// Physical byte address where the region starts.
    pub start: usize,
    /// Extent of the region.
    pub size: PageSize,
}

impl Page {
    pub fn new(start: usize, size: PageSize) -> (r: Self)
        ensures
            r.start == start,
            r.size == size,
    {
        Page { start, size }
    }
}

/// How many whole 4 KiB frames fit below `mem_available`: the last partial
/// frame at the very top of memory, if any, is not counted.
pub fn calc_4kb_page_count(mem_available: u64) -> (r: u64)
    ensures
        r == mem_available as int / 4096,
{
    let kb4: u64 = 4096;
    let overshoot = mem_available % kb4;
    let highest_aligned_addr = if overshoot == 0 {
        mem_available
    } else {
        mem_available - overshoot
    };
    proof {
        vstd::arithmetic::div_mod::lemma_fundamental_div_mod(mem_available as int, 4096);
        assert((mem_available as int - mem_available as int % 4096) / 4096 == mem_available as int
            / 4096) by (nonlinear_arith)
            requires
                mem_available as int == 4096 * (mem_available as int / 4096) + mem_available as int
                    % 4096,
                0 <= mem_available as int % 4096 < 4096,
        ;
    }
    highest_aligned_addr / kb4
}

} // verus!
