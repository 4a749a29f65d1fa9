//! Page-table entry codec for the four levels of the x86-64 translation
//! hierarchy.
//!
//! Each entry is one bit-packed 64-bit word: a level-specific set of flag
//! bits plus a 40-bit frame-address field in bits 12..52.  Encoding masks the
//! given address to its 4 KiB frame boundary before packing; decoding
//! extracts only the bit positions valid for the entry's level.  `get_flags`
//! always succeeds and ignores unknown bits; this is the documented
//! forward-compatibility choice.

use vstd::prelude::*;

use crate::bit_utils::{spec_bit, spec_bit_range, BitRange};

verus! {

/// Mask that clears the low 12 bits of an address, aligning it down to its
/// 4 KiB frame boundary.
pub const PAGE_MASK_4KB: u64 = 0xFFFF_FFFF_FFFF_F000u64;

/// A byte offset in physical memory.
///
/// Kept distinct from virtual addresses on purpose: the only sanctioned way
/// from one to the other is the direct-map offset, applied at the hardware
/// boundary outside this crate.
#[derive(Debug, Clone, Copy, PartialEq, Eq, Structural)]
pub struct PhysAddr(pub u64);

impl PhysAddr {
    pub fn new(addr: u64) -> (r: Self)
        ensures
            r.0 == addr,
    {
        Self(addr)
    }
}

/// The frame-address field of a packed entry: bits 12..52, shifted back up
/// to a byte address.
pub open spec fn spec_frame_addr(x: u64) -> u64 {
    spec_bit_range(x, 12, 52) << 12
}

/// The flag bits a top-level (PML4) entry carries: bits 0..6 and bit 63.
#[derive(Debug, Clone, Copy, PartialEq, Eq, Structural)]
pub struct PML4Flags {
    /// Bit 0: the referenced table is loaded in physical memory.
    pub present: bool,
    /// Bit 1: write access is allowed through this entry.
    pub writable: bool,
    /// Bit 2: user-mode (CPL 3) access is allowed.
    pub user_accessible: bool,
    /// Bit 3: write-through caching policy for the referenced table.
    pub write_through: bool,
    /// Bit 4: caching of the referenced table is disabled.
    pub cache_disabled: bool,
    /// Bit 5: the processor has accessed the referenced table.
    pub accessed: bool,
    /// Bit 63: instruction fetch through this entry is forbidden.
    pub no_execute: bool,
}

impl PML4Flags {
    /// The packed numeric value of this flag set.
    pub open spec fn spec_bits(self) -> u64 {
        ((if self.present {
            1u64
        } else {
            0u64
        }) + (if self.writable {
            2u64
        } else {
            0u64
        }) + (if self.user_accessible {
            4u64
        } else {
            0u64
        }) + (if self.write_through {
            8u64
        } else {
            0u64
        }) + (if self.cache_disabled {
            16u64
        } else {
            0u64
        }) + (if self.accessed {
            32u64
        } else {
            0u64
        }) + (if self.no_execute {
            0x8000_0000_0000_0000u64
        } else {
            0u64
        })) as u64
    }

    /// The packed numeric value of this flag set, as one word.
    pub fn bits(&self) -> (r: u64)
        ensures
            r == self.spec_bits(),
    {
        (if self.present {
            1u64
        } else {
            0u64
        }) + (if self.writable {
            2u64
        } else {
            0u64
        }) + (if self.user_accessible {
            4u64
        } else {
            0u64
        }) + (if self.write_through {
            8u64
        } else {
            0u64
        }) + (if self.cache_disabled {
            16u64
        } else {
            0u64
        }) + (if self.accessed {
            32u64
        } else {
            0u64
        }) + (if self.no_execute {
            0x8000_0000_0000_0000u64
        } else {
            0u64
        })
    }
}

/// The flag set stored in the word `x`, at the positions a PML4 entry
/// defines; all other bits of `x` are ignored.
pub open spec fn spec_pml4_flags(x: u64) -> PML4Flags {
    PML4Flags {
        present: spec_bit(x, 0),
        writable: spec_bit(x, 1),
        user_accessible: spec_bit(x, 2),
        write_through: spec_bit(x, 3),
        cache_disabled: spec_bit(x, 4),
        accessed: spec_bit(x, 5),
        no_execute: spec_bit(x, 63),
    }
}

/// Bit facts about a word packed from an aligned address and a flag set
/// occupying bits 0..6 and bit 63 (the layout of PML4 and PDP entries).
proof fn lemma_encode_low6_nx(a: u64, p: u64, w: u64, u: u64, t: u64, c: u64, s: u64, n: u64)
    by (bit_vector)
    requires
        p <= 1,
        w <= 1,
        u <= 1,
        t <= 1,
        c <= 1,
        s <= 1,
        n <= 1,
    ensures
        ({
            let b = (p + w * 2 + u * 4 + t * 8 + c * 16 + s * 32 + n
                * 0x8000_0000_0000_0000) as u64;
            let e = (a & 0xFFFF_FFFF_FFFF_F000u64) | b;
            &&& (e >> 0 & 1 == 1) == (p == 1)
            &&& (e >> 1 & 1 == 1) == (w == 1)
            &&& (e >> 2 & 1 == 1) == (u == 1)
            &&& (e >> 3 & 1 == 1) == (t == 1)
            &&& (e >> 4 & 1 == 1) == (c == 1)
            &&& (e >> 5 & 1 == 1) == (s == 1)
            &&& a < 0x10_0000_0000_0000 ==> (e >> 63 & 1 == 1) == (n == 1)
            &&& a % 4096 == 0 && a < 0x10_0000_0000_0000 ==> spec_bit_range(e, 12, 52) << 12
                == a
        }),
{
}

/// An entry of the top-level (PML4) table: a pointer to an upper-middle
/// table, never a terminal mapping.
#[derive(Debug, Clone, Copy, PartialEq, Eq, Structural)]
pub struct PML4Entry(pub u64);

/// The top-level table of the translation hierarchy.
pub struct PML4Table {
    pub entries: [PML4Entry; 512],
}

impl PML4Entry {
    /// Packs `phys_addr`, masked down to its 4 KiB frame boundary, together
    /// with `flags` into one 64-bit word.
    pub fn new(phys_addr: PhysAddr, flags: PML4Flags) -> (r: Self)
        ensures
            r.0 == (phys_addr.0 & PAGE_MASK_4KB) | flags.spec_bits(),
            phys_addr.0 < 0x10_0000_0000_0000 ==> spec_pml4_flags(r.0) == flags,
            phys_addr.0 % 4096 == 0 && phys_addr.0 < 0x10_0000_0000_0000 ==> spec_frame_addr(r.0)
                == phys_addr.0,
    {
        proof {
            let p: u64 = if flags.present { 1u64 } else { 0u64 };
            let w: u64 = if flags.writable { 1u64 } else { 0u64 };
            let u: u64 = if flags.user_accessible { 1u64 } else { 0u64 };
            let t: u64 = if flags.write_through { 1u64 } else { 0u64 };
            let c: u64 = if flags.cache_disabled { 1u64 } else { 0u64 };
            let s: u64 = if flags.accessed { 1u64 } else { 0u64 };
            let n: u64 = if flags.no_execute { 1u64 } else { 0u64 };
            lemma_encode_low6_nx(phys_addr.0, p, w, u, t, c, s, n);
        }
        let bits: u64 = flags.bits();
        PML4Entry((phys_addr.0 & PAGE_MASK_4KB) | bits)
    }

    /// Extracts the flag bits valid for this level.  Unknown bits are
    /// ignored, so extraction always succeeds.
    pub fn get_flags(&self) -> (r: Option<PML4Flags>)
        ensures
            r == Some(spec_pml4_flags(self.0)),
    {
        Some(
            PML4Flags {
                present: self.0.bit(0),
                writable: self.0.bit(1),
                user_accessible: self.0.bit(2),
                write_through: self.0.bit(3),
                cache_disabled: self.0.bit(4),
                accessed: self.0.bit(5),
                no_execute: self.0.bit(63),
            },
        )
    }

    /// The physical address of the upper-middle table this entry references.
    pub fn get_phys_addr(&self) -> (r: PhysAddr)
        ensures
            r.0 == spec_frame_addr(self.0),
            r.0 % 4096 == 0,
    {
        proof {
            lemma_frame_addr_aligned(self.0);
        }
        PhysAddr(self.0.bit_range(12, 52) << 12)
    }

    /// True when the present bit is set.
    pub fn is_present(&self) -> (r: bool)
        ensures
            r == spec_pml4_flags(self.0).present,
    {
        self.get_flags().unwrap().present
    }
}

/// A decoded frame address is always 4 KiB-aligned.
pub proof fn lemma_frame_addr_aligned(x: u64)
    ensures
        (spec_bit_range(x, 12, 52) << 12) % 4096 == 0,
{
    assert((x << 12 >> 12 >> 12 << 12) % 4096 == 0) by (bit_vector);
}

/// Round trip of the top-level codec: packing a 4 KiB-aligned address that
/// fits the 40-bit frame field together with any flag set, then decoding,
/// returns exactly that address and flag set.
pub proof fn lemma_pml4_roundtrip(addr: u64, flags: PML4Flags)
    requires
        addr % 4096 == 0,
        addr < 0x10_0000_0000_0000,
    ensures
        spec_pml4_flags((addr & PAGE_MASK_4KB) | flags.spec_bits()) == flags,
        spec_frame_addr((addr & PAGE_MASK_4KB) | flags.spec_bits()) == addr,
{
    let p: u64 = if flags.present { 1u64 } else { 0u64 };
    let w: u64 = if flags.writable { 1u64 } else { 0u64 };
    let u: u64 = if flags.user_accessible { 1u64 } else { 0u64 };
    let t: u64 = if flags.write_through { 1u64 } else { 0u64 };
    let c: u64 = if flags.cache_disabled { 1u64 } else { 0u64 };
    let s: u64 = if flags.accessed { 1u64 } else { 0u64 };
    let n: u64 = if flags.no_execute { 1u64 } else { 0u64 };
    lemma_encode_low6_nx(addr, p, w, u, t, c, s, n);
}

} // verus!

verus! {

/// The flag bits an upper-middle (PDP) entry carries: bits 0..6 and bit 63.
///
/// Bit 7 (page size) is reserved at this level; the walker treats an entry
/// with that bit set as a fatal hardware-contract violation.
#[derive(Debug, Clone, Copy, PartialEq, Eq, Structural)]
pub struct PDPFlags {
    /// Bit 0: the referenced table is loaded in physical memory.
    pub present: bool,
    /// Bit 1: write access is allowed through this entry.
    pub writable: bool,
    /// Bit 2: user-mode (CPL 3) access is allowed.
    pub user_accessible: bool,
    /// Bit 3: write-through caching policy for the referenced table.
    pub write_through: bool,
    /// Bit 4: caching of the referenced table is disabled.
    pub cache_disabled: bool,
    /// Bit 5: the processor has accessed the referenced table.
    pub accessed: bool,
    /// Bit 63: instruction fetch through this entry is forbidden.
    pub no_execute: bool,
}

impl PDPFlags {
    /// The packed numeric value of this flag set.
    pub open spec fn spec_bits(self) -> u64 {
        ((if self.present {
            1u64
        } else {
            0u64
        }) + (if self.writable {
            2u64
        } else {
            0u64
        }) + (if self.user_accessible {
            4u64
        } else {
            0u64
        }) + (if self.write_through {
            8u64
        } else {
            0u64
        }) + (if self.cache_disabled {
            16u64
        } else {
            0u64
        }) + (if self.accessed {
            32u64
        } else {
            0u64
        }) + (if self.no_execute {
            0x8000_0000_0000_0000u64
        } else {
            0u64
        })) as u64
    }

    /// The packed numeric value of this flag set, as one word.
    pub fn bits(&self) -> (r: u64)
        ensures
            r == self.spec_bits(),
    {
        (if self.present {
            1u64
        } else {
            0u64
        }) + (if self.writable {
            2u64
        } else {
            0u64
        }) + (if self.user_accessible {
            4u64
        } else {
            0u64
        }) + (if self.write_through {
            8u64
        } else {
            0u64
        }) + (if self.cache_disabled {
            16u64
        } else {
            0u64
        }) + (if self.accessed {
            32u64
        } else {
            0u64
        }) + (if self.no_execute {
            0x8000_0000_0000_0000u64
        } else {
            0u64
        })
    }
}

/// The flag set stored in the word `x`, at the positions a PDP entry
/// defines; all other bits of `x` are ignored.
pub open spec fn spec_pdp_flags(x: u64) -> PDPFlags {
    PDPFlags {
        present: spec_bit(x, 0),
        writable: spec_bit(x, 1),
        user_accessible: spec_bit(x, 2),
        write_through: spec_bit(x, 3),
        cache_disabled: spec_bit(x, 4),
        accessed: spec_bit(x, 5),
        no_execute: spec_bit(x, 63),
    }
}

/// An entry of an upper-middle (PDP) table.
#[derive(Debug, Clone, Copy, PartialEq, Eq, Structural)]
pub struct PDPEntry(pub u64);

/// An upper-middle table of the translation hierarchy.
pub struct PDPETable {
    pub entries: [PDPEntry; 512],
}

impl PDPEntry {
    /// Packs `phys_addr`, masked down to its 4 KiB frame boundary, together
    /// with `flags` into one 64-bit word.
    pub fn new(phys_addr: PhysAddr, flags: PDPFlags) -> (r: Self)
        ensures
            r.0 == (phys_addr.0 & PAGE_MASK_4KB) | flags.spec_bits(),
            phys_addr.0 < 0x10_0000_0000_0000 ==> spec_pdp_flags(r.0) == flags,
            phys_addr.0 % 4096 == 0 && phys_addr.0 < 0x10_0000_0000_0000 ==> spec_frame_addr(r.0)
                == phys_addr.0,
    {
        proof {
            let p: u64 = if flags.present { 1u64 } else { 0u64 };
            let w: u64 = if flags.writable { 1u64 } else { 0u64 };
            let u: u64 = if flags.user_accessible { 1u64 } else { 0u64 };
            let t: u64 = if flags.write_through { 1u64 } else { 0u64 };
            let c: u64 = if flags.cache_disabled { 1u64 } else { 0u64 };
            let s: u64 = if flags.accessed { 1u64 } else { 0u64 };
            let n: u64 = if flags.no_execute { 1u64 } else { 0u64 };
            lemma_encode_low6_nx(phys_addr.0, p, w, u, t, c, s, n);
        }
        let bits: u64 = flags.bits();
        PDPEntry((phys_addr.0 & PAGE_MASK_4KB) | bits)
    }

    /// Extracts the flag bits valid for this level.  Unknown bits are
    /// ignored, so extraction always succeeds.
    pub fn get_flags(&self) -> (r: Option<PDPFlags>)
        ensures
            r == Some(spec_pdp_flags(self.0)),
    {
        Some(
            PDPFlags {
                present: self.0.bit(0),
                writable: self.0.bit(1),
                user_accessible: self.0.bit(2),
                write_through: self.0.bit(3),
                cache_disabled: self.0.bit(4),
                accessed: self.0.bit(5),
                no_execute: self.0.bit(63),
            },
        )
    }

    /// The physical address of the lower-middle table this entry references.
    pub fn get_phys_addr(&self) -> (r: PhysAddr)
        ensures
            r.0 == spec_frame_addr(self.0),
            r.0 % 4096 == 0,
    {
        proof {
            lemma_frame_addr_aligned(self.0);
        }
        PhysAddr(self.0.bit_range(12, 52) << 12)
    }

    /// True when the present bit is set.
    pub fn is_present(&self) -> (r: bool)
        ensures
            r == spec_pdp_flags(self.0).present,
    {
        self.get_flags().unwrap().present
    }
}

/// Round trip of the upper-middle codec, as for the top level.
pub proof fn lemma_pdp_roundtrip(addr: u64, flags: PDPFlags)
    requires
        addr % 4096 == 0,
        addr < 0x10_0000_0000_0000,
    ensures
        spec_pdp_flags((addr & PAGE_MASK_4KB) | flags.spec_bits()) == flags,
        spec_frame_addr((addr & PAGE_MASK_4KB) | flags.spec_bits()) == addr,
{
    let p: u64 = if flags.present { 1u64 } else { 0u64 };
    let w: u64 = if flags.writable { 1u64 } else { 0u64 };
    let u: u64 = if flags.user_accessible { 1u64 } else { 0u64 };
    let t: u64 = if flags.write_through { 1u64 } else { 0u64 };
    let c: u64 = if flags.cache_disabled { 1u64 } else { 0u64 };
    let s: u64 = if flags.accessed { 1u64 } else { 0u64 };
    let n: u64 = if flags.no_execute { 1u64 } else { 0u64 };
    lemma_encode_low6_nx(addr, p, w, u, t, c, s, n);
}

} // verus!

verus! {

/// The flag bits a lower-middle (PD) entry carries: bits 0..6, bit 7, and
/// bit 63.
#[derive(Debug, Clone, Copy, PartialEq, Eq, Structural)]
pub struct PDFlags {
    /// Bit 0: the referenced table or page is loaded in physical memory.
    pub present: bool,
    /// Bit 1: write access is allowed through this entry.
    pub writable: bool,
    /// Bit 2: user-mode (CPL 3) access is allowed.
    pub user_accessible: bool,
    /// Bit 3: write-through caching policy.
    pub write_through: bool,
    /// Bit 4: caching is disabled.
    pub cache_disabled: bool,
    /// Bit 5: the processor has accessed the referenced table or page.
    pub accessed: bool,
    /// Bit 7: this entry maps a 2 MiB page and is terminal, rather than
    /// referencing a leaf table.
    pub page_size: bool,
    /// Bit 63: instruction fetch through this entry is forbidden.
    pub no_execute: bool,
}

impl PDFlags {
    /// The packed numeric value of this flag set.
    pub open spec fn spec_bits(self) -> u64 {
        ((if self.present {
            1u64
        } else {
            0u64
        }) + (if self.writable {
            2u64
        } else {
            0u64
        }) + (if self.user_accessible {
            4u64
        } else {
            0u64
        }) + (if self.write_through {
            8u64
        } else {
            0u64
        }) + (if self.cache_disabled {
            16u64
        } else {
            0u64
        }) + (if self.accessed {
            32u64
        } else {
            0u64
        }) + (if self.page_size {
            128u64
        } else {
            0u64
        }) + (if self.no_execute {
            0x8000_0000_0000_0000u64
        } else {
            0u64
        })) as u64
    }

    /// The packed numeric value of this flag set, as one word.
    pub fn bits(&self) -> (r: u64)
        ensures
            r == self.spec_bits(),
    {
        (if self.present {
            1u64
        } else {
            0u64
        }) + (if self.writable {
            2u64
        } else {
            0u64
        }) + (if self.user_accessible {
            4u64
        } else {
            0u64
        }) + (if self.write_through {
            8u64
        } else {
            0u64
        }) + (if self.cache_disabled {
            16u64
        } else {
            0u64
        }) + (if self.accessed {
            32u64
        } else {
            0u64
        }) + (if self.page_size {
            128u64
        } else {
            0u64
        }) + (if self.no_execute {
            0x8000_0000_0000_0000u64
        } else {
            0u64
        })
    }
}

/// The flag set stored in the word `x`, at the positions a PD entry defines;
/// all other bits of `x` are ignored.
pub open spec fn spec_pd_flags(x: u64) -> PDFlags {
    PDFlags {
        present: spec_bit(x, 0),
        writable: spec_bit(x, 1),
        user_accessible: spec_bit(x, 2),
        write_through: spec_bit(x, 3),
        cache_disabled: spec_bit(x, 4),
        accessed: spec_bit(x, 5),
        page_size: spec_bit(x, 7),
        no_execute: spec_bit(x, 63),
    }
}

/// Bit facts about a word packed from an aligned address and PD flag bits.
proof fn lemma_encode_pd(a: u64, p: u64, w: u64, u: u64, t: u64, c: u64, s: u64, g: u64, n: u64)
    by (bit_vector)
    requires
        p <= 1,
        w <= 1,
        u <= 1,
        t <= 1,
        c <= 1,
        s <= 1,
        g <= 1,
        n <= 1,
    ensures
        ({
            let b = (p + w * 2 + u * 4 + t * 8 + c * 16 + s * 32 + g * 128 + n
                * 0x8000_0000_0000_0000) as u64;
            let e = (a & 0xFFFF_FFFF_FFFF_F000u64) | b;
            &&& (e >> 0 & 1 == 1) == (p == 1)
            &&& (e >> 1 & 1 == 1) == (w == 1)
            &&& (e >> 2 & 1 == 1) == (u == 1)
            &&& (e >> 3 & 1 == 1) == (t == 1)
            &&& (e >> 4 & 1 == 1) == (c == 1)
            &&& (e >> 5 & 1 == 1) == (s == 1)
            &&& (e >> 7 & 1 == 1) == (g == 1)
            &&& a < 0x10_0000_0000_0000 ==> (e >> 63 & 1 == 1) == (n == 1)
            &&& a % 4096 == 0 && a < 0x10_0000_0000_0000 ==> spec_bit_range(e, 12, 52) << 12
                == a
        }),
{
}

/// An entry of a lower-middle (PD) table: either a pointer to a leaf table
/// or, with the page-size bit set, a terminal 2 MiB mapping.
#[derive(Debug, Clone, Copy, PartialEq, Eq, Structural)]
pub struct PDEntry(pub u64);

/// A lower-middle table of the translation hierarchy.
pub struct PDETable {
    pub entries: [PDEntry; 512],
}

impl PDEntry {
    /// Packs `phys_addr`, masked down to its 4 KiB frame boundary, together
    /// with `flags` into one 64-bit word.
    pub fn new(phys_addr: PhysAddr, flags: PDFlags) -> (r: Self)
        ensures
            r.0 == (phys_addr.0 & PAGE_MASK_4KB) | flags.spec_bits(),
            phys_addr.0 < 0x10_0000_0000_0000 ==> spec_pd_flags(r.0) == flags,
            phys_addr.0 % 4096 == 0 && phys_addr.0 < 0x10_0000_0000_0000 ==> spec_frame_addr(r.0)
                == phys_addr.0,
    {
        proof {
            let p: u64 = if flags.present { 1u64 } else { 0u64 };
            let w: u64 = if flags.writable { 1u64 } else { 0u64 };
            let u: u64 = if flags.user_accessible { 1u64 } else { 0u64 };
            let t: u64 = if flags.write_through { 1u64 } else { 0u64 };
            let c: u64 = if flags.cache_disabled { 1u64 } else { 0u64 };
            let s: u64 = if flags.accessed { 1u64 } else { 0u64 };
            let g: u64 = if flags.page_size { 1u64 } else { 0u64 };
            let n: u64 = if flags.no_execute { 1u64 } else { 0u64 };
            lemma_encode_pd(phys_addr.0, p, w, u, t, c, s, g, n);
        }
        let bits: u64 = flags.bits();
        PDEntry((phys_addr.0 & PAGE_MASK_4KB) | bits)
    }

    /// Extracts the flag bits valid for this level.  Unknown bits are
    /// ignored, so extraction always succeeds.
    pub fn get_flags(&self) -> (r: Option<PDFlags>)
        ensures
            r == Some(spec_pd_flags(self.0)),
    {
        Some(
            PDFlags {
                present: self.0.bit(0),
                writable: self.0.bit(1),
                user_accessible: self.0.bit(2),
                write_through: self.0.bit(3),
                cache_disabled: self.0.bit(4),
                accessed: self.0.bit(5),
                page_size: self.0.bit(7),
                no_execute: self.0.bit(63),
            },
        )
    }

    /// The physical address of the leaf table, or of the 2 MiB page when the
    /// page-size bit is set.
    pub fn get_phys_addr(&self) -> (r: PhysAddr)
        ensures
            r.0 == spec_frame_addr(self.0),
            r.0 % 4096 == 0,
    {
        proof {
            lemma_frame_addr_aligned(self.0);
        }
        PhysAddr(self.0.bit_range(12, 52) << 12)
    }

    /// True when the present bit is set.
    pub fn is_present(&self) -> (r: bool)
        ensures
            r == spec_pd_flags(self.0).present,
    {
        self.get_flags().unwrap().present
    }

    /// True when this entry is a terminal 2 MiB mapping rather than a
    /// pointer to a leaf table; the walker must not descend through it.
    pub fn maps_large_page(&self) -> (r: bool)
        ensures
            r == spec_pd_flags(self.0).page_size,
    {
        self.get_flags().unwrap().page_size
    }
}

/// Round trip of the lower-middle codec, as for the top level.
pub proof fn lemma_pd_roundtrip(addr: u64, flags: PDFlags)
    requires
        addr % 4096 == 0,
        addr < 0x10_0000_0000_0000,
    ensures
        spec_pd_flags((addr & PAGE_MASK_4KB) | flags.spec_bits()) == flags,
        spec_frame_addr((addr & PAGE_MASK_4KB) | flags.spec_bits()) == addr,
{
    let p: u64 = if flags.present { 1u64 } else { 0u64 };
    let w: u64 = if flags.writable { 1u64 } else { 0u64 };
    let u: u64 = if flags.user_accessible { 1u64 } else { 0u64 };
    let t: u64 = if flags.write_through { 1u64 } else { 0u64 };
    let c: u64 = if flags.cache_disabled { 1u64 } else { 0u64 };
    let s: u64 = if flags.accessed { 1u64 } else { 0u64 };
    let g: u64 = if flags.page_size { 1u64 } else { 0u64 };
    let n: u64 = if flags.no_execute { 1u64 } else { 0u64 };
    lemma_encode_pd(addr, p, w, u, t, c, s, g, n);
}

} // verus!

verus! {

/// The flag bits a leaf (PT) entry carries: bits 0..9 and bit 63.
#[derive(Debug, Clone, Copy, PartialEq, Eq, Structural)]
pub struct PTFlags {
    /// Bit 0: the mapped page is loaded in physical memory.
    pub present: bool,
    /// Bit 1: write access is allowed through this entry.
    pub writable: bool,
    /// Bit 2: user-mode (CPL 3) access is allowed.
    pub user_accessible: bool,
    /// Bit 3: write-through caching policy for the mapped page.
    pub write_through: bool,
    /// Bit 4: caching of the mapped page is disabled.
    pub cache_disabled: bool,
    /// Bit 5: the processor has accessed the mapped page.
    pub accessed: bool,
    /// Bit 6: the processor has written to the mapped page.
    pub dirty: bool,
    /// Bit 7: page-attribute-table index bit for the mapped page.
    pub pat: bool,
    /// Bit 8: the mapping is global and survives address-space switches.
    pub global: bool,
    /// Bit 63: instruction fetch from the mapped page is forbidden.
    pub no_execute: bool,
}

impl PTFlags {
    /// The packed numeric value of this flag set.
    pub open spec fn spec_bits(self) -> u64 {
        ((if self.present {
            1u64
        } else {
            0u64
        }) + (if self.writable {
            2u64
        } else {
            0u64
        }) + (if self.user_accessible {
            4u64
        } else {
            0u64
        }) + (if self.write_through {
            8u64
        } else {
            0u64
        }) + (if self.cache_disabled {
            16u64
        } else {
            0u64
        }) + (if self.accessed {
            32u64
        } else {
            0u64
        }) + (if self.dirty {
            64u64
        } else {
            0u64
        }) + (if self.pat {
            128u64
        } else {
            0u64
        }) + (if self.global {
            256u64
        } else {
            0u64
        }) + (if self.no_execute {
            0x8000_0000_0000_0000u64
        } else {
            0u64
        })) as u64
    }

    /// The packed numeric value of this flag set, as one word.
    #[verifier::rlimit(100)]
    pub fn bits(&self) -> (r: u64)
        ensures
            r == self.spec_bits(),
    {
        (if self.present {
            1u64
        } else {
            0u64
        }) + (if self.writable {
            2u64
        } else {
            0u64
        }) + (if self.user_accessible {
            4u64
        } else {
            0u64
        }) + (if self.write_through {
            8u64
        } else {
            0u64
        }) + (if self.cache_disabled {
            16u64
        } else {
            0u64
        }) + (if self.accessed {
            32u64
        } else {
            0u64
        }) + (if self.dirty {
            64u64
        } else {
            0u64
        }) + (if self.pat {
            128u64
        } else {
            0u64
        }) + (if self.global {
            256u64
        } else {
            0u64
        }) + (if self.no_execute {
            0x8000_0000_0000_0000u64
        } else {
            0u64
        })
    }
}

/// The flag set stored in the word `x`, at the positions a PT entry defines;
/// all other bits of `x` are ignored.
pub open spec fn spec_pt_flags(x: u64) -> PTFlags {
    PTFlags {
        present: spec_bit(x, 0),
        writable: spec_bit(x, 1),
        user_accessible: spec_bit(x, 2),
        write_through: spec_bit(x, 3),
        cache_disabled: spec_bit(x, 4),
        accessed: spec_bit(x, 5),
        dirty: spec_bit(x, 6),
        pat: spec_bit(x, 7),
        global: spec_bit(x, 8),
        no_execute: spec_bit(x, 63),
    }
}

/// Bit facts about a word packed from an aligned address and PT flag bits.
#[verifier::rlimit(30)]
proof fn lemma_encode_pt(
    a: u64,
    p: u64,
    w: u64,
    u: u64,
    t: u64,
    c: u64,
    s: u64,
    d: u64,
    e2: u64,
    g: u64,
    n: u64,
)
    by (bit_vector)
    requires
        p <= 1,
        w <= 1,
        u <= 1,
        t <= 1,
        c <= 1,
        s <= 1,
        d <= 1,
        e2 <= 1,
        g <= 1,
        n <= 1,
    ensures
        ({
            let b = (p + w * 2 + u * 4 + t * 8 + c * 16 + s * 32 + d * 64 + e2 * 128 + g * 256 + n
                * 0x8000_0000_0000_0000) as u64;
            let e = (a & 0xFFFF_FFFF_FFFF_F000u64) | b;
            &&& (e >> 0 & 1 == 1) == (p == 1)
            &&& (e >> 1 & 1 == 1) == (w == 1)
            &&& (e >> 2 & 1 == 1) == (u == 1)
            &&& (e >> 3 & 1 == 1) == (t == 1)
            &&& (e >> 4 & 1 == 1) == (c == 1)
            &&& (e >> 5 & 1 == 1) == (s == 1)
            &&& (e >> 6 & 1 == 1) == (d == 1)
            &&& (e >> 7 & 1 == 1) == (e2 == 1)
            &&& (e >> 8 & 1 == 1) == (g == 1)
            &&& a < 0x10_0000_0000_0000 ==> (e >> 63 & 1 == 1) == (n == 1)
            &&& a % 4096 == 0 && a < 0x10_0000_0000_0000 ==> spec_bit_range(e, 12, 52) << 12
                == a
        }),
{
}

/// Decoding facts about a word packed from an address and PT flag bits.
proof fn lemma_pt_encode_facts(a: u64, flags: PTFlags)
    ensures
        a < 0x10_0000_0000_0000 ==> spec_pt_flags((a & PAGE_MASK_4KB) | flags.spec_bits())
            == flags,
        a % 4096 == 0 && a < 0x10_0000_0000_0000 ==> spec_frame_addr(
            (a & PAGE_MASK_4KB) | flags.spec_bits(),
        ) == a,
{
    let p: u64 = if flags.present { 1u64 } else { 0u64 };
    let w: u64 = if flags.writable { 1u64 } else { 0u64 };
    let u: u64 = if flags.user_accessible { 1u64 } else { 0u64 };
    let t: u64 = if flags.write_through { 1u64 } else { 0u64 };
    let c: u64 = if flags.cache_disabled { 1u64 } else { 0u64 };
    let s: u64 = if flags.accessed { 1u64 } else { 0u64 };
    let d: u64 = if flags.dirty { 1u64 } else { 0u64 };
    let e2: u64 = if flags.pat { 1u64 } else { 0u64 };
    let g: u64 = if flags.global { 1u64 } else { 0u64 };
    let n: u64 = if flags.no_execute { 1u64 } else { 0u64 };
    lemma_encode_pt(a, p, w, u, t, c, s, d, e2, g, n);
}

/// An entry of a leaf (PT) table: a terminal 4 KiB mapping.
#[derive(Debug, Clone, Copy, PartialEq, Eq, Structural)]
pub struct PTEntry(pub u64);

/// A leaf table of the translation hierarchy.
pub struct PTETable {
    pub entries: [PTEntry; 512],
}

impl PTEntry {
    /// Packs `phys_addr`, masked down to its 4 KiB frame boundary, together
    /// with `flags` into one 64-bit word.
    pub fn new(phys_addr: PhysAddr, flags: PTFlags) -> (r: Self)
        ensures
            r.0 == (phys_addr.0 & PAGE_MASK_4KB) | flags.spec_bits(),
            phys_addr.0 < 0x10_0000_0000_0000 ==> spec_pt_flags(r.0) == flags,
            phys_addr.0 % 4096 == 0 && phys_addr.0 < 0x10_0000_0000_0000 ==> spec_frame_addr(r.0)
                == phys_addr.0,
    {
        proof {
            lemma_pt_encode_facts(phys_addr.0, flags);
        }
        let bits: u64 = flags.bits();
        PTEntry((phys_addr.0 & PAGE_MASK_4KB) | bits)
    }

    /// Extracts the flag bits valid for this level.  Unknown bits are
    /// ignored, so extraction always succeeds.
    pub fn get_flags(&self) -> (r: Option<PTFlags>)
        ensures
            r == Some(spec_pt_flags(self.0)),
    {
        Some(
            PTFlags {
                present: self.0.bit(0),
                writable: self.0.bit(1),
                user_accessible: self.0.bit(2),
                write_through: self.0.bit(3),
                cache_disabled: self.0.bit(4),
                accessed: self.0.bit(5),
                dirty: self.0.bit(6),
                pat: self.0.bit(7),
                global: self.0.bit(8),
                no_execute: self.0.bit(63),
            },
        )
    }

    /// The physical address of the mapped 4 KiB page.
    pub fn get_phys_addr(&self) -> (r: PhysAddr)
        ensures
            r.0 == spec_frame_addr(self.0),
            r.0 % 4096 == 0,
    {
        proof {
            lemma_frame_addr_aligned(self.0);
        }
        PhysAddr(self.0.bit_range(12, 52) << 12)
    }

    /// True when the present bit is set.
    pub fn is_present(&self) -> (r: bool)
        ensures
            r == spec_pt_flags(self.0).present,
    {
        self.get_flags().unwrap().present
    }
}

/// Round trip of the leaf codec, as for the top level.
pub proof fn lemma_pt_roundtrip(addr: u64, flags: PTFlags)
    requires
        addr % 4096 == 0,
        addr < 0x10_0000_0000_0000,
    ensures
        spec_pt_flags((addr & PAGE_MASK_4KB) | flags.spec_bits()) == flags,
        spec_frame_addr((addr & PAGE_MASK_4KB) | flags.spec_bits()) == addr,
{
    lemma_pt_encode_facts(addr, flags);
}

} // verus!
