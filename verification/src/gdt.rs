//! Global descriptor table: segment descriptors and selectors for long
//! mode.
//!
//! In 64-bit long mode almost all of segmentation is disabled; only the
//! long-mode, present, privilege-level and conforming attributes of a code
//! segment are still read by the processor, and a data segment needs only
//! its present bit.

use vstd::prelude::*;

verus! {

/// A privilege ring.  A numerically higher ring is less privileged: the
/// kernel runs in `Ring0`, user space in `Ring3`.
#[derive(Debug, Clone, Copy, PartialEq, Eq, Structural)]
pub enum Ring {
    Ring0,
    Ring1,
    Ring2,
    Ring3,
}

impl Ring {
    /// The ring's two-bit number.
    pub open spec fn spec_value(self) -> u16 {
        match self {
            Ring::Ring0 => 0,
            Ring::Ring1 => 1,
            Ring::Ring2 => 2,
            Ring::Ring3 => 3,
        }
    }

    /// The ring's two-bit number.
    pub fn value(&self) -> (r: u16)
        ensures
            r == self.spec_value(),
    {
        match self {
            Ring::Ring0 => 0,
            Ring::Ring1 => 1,
            Ring::Ring2 => 2,
            Ring::Ring3 => 3,
        }
    }
}

/// One 8-byte descriptor of the global descriptor table, kept as its two
/// 32-bit halves.
#[derive(Debug, Clone, Copy, PartialEq, Eq, Structural)]
pub struct SegmentDescriptor {
    /// Lower 4 bytes; ignored by the processor in long mode.
    pub lower: u32,
    /// Upper 4 bytes, holding the attributes still read in long mode.
    pub upper: u32,
}

impl SegmentDescriptor {
    /// A long-mode code-segment descriptor: bit 21 (long mode) and bit 15
    /// (present) set, the privilege level in bits 13..15, and bit 10
    /// (conforming) set exactly when `c` asks for it.  Every other field is
    /// ignored in 64-bit mode and left zero.
    pub fn new_cs(dpl: Ring, c: bool) -> (r: SegmentDescriptor)
        ensures
            r.lower == 0,
            r.upper == (1u32 << 21) | (1u32 << 15) | ((dpl.spec_value() as u32) << 13) | (
            if c {
                1u32 << 10
            } else {
                0u32
            }),
    {
        let upper = (1u32 << 21) | (1u32 << 15) | ((dpl.value() as u32) << 13) | (
        if c {
            1u32 << 10
        } else {
            0u32
        });
        Self { lower: 0, upper }
    }

    /// A long-mode data-segment descriptor: only bit 15 (present) is set;
    /// all other fields are ignored in 64-bit mode.
    pub fn new_ds() -> (r: SegmentDescriptor)
        ensures
            r.lower == 0,
            r.upper == 1u32 << 15,
    {
        Self { lower: 0, upper: 1u32 << 15 }
    }
}

/// The global descriptor table: the null descriptor at index 0 and the few
/// segments long mode still wants.
#[derive(Clone, Copy, Debug)]
pub struct Gdt {
    pub entries: [SegmentDescriptor; 6],
}

/// The software-visible part of the GDT register: the table's limit and
/// base address.
#[derive(Debug, Clone, Copy, PartialEq, Eq, Structural)]
pub struct GdtPointer {
    /// Table limit; ignored in 64-bit mode.
    pub limit: u16,
    /// Physical byte address of the [`Gdt`].
    pub base_adr: u64,
}

impl GdtPointer {
    /// A pointer with a null base, for the hardware boundary to read the
    /// GDT register's content into.
    pub fn dummy() -> (r: GdtPointer)
        ensures
            r.limit == 0,
            r.base_adr == 0,
    {
        Self { limit: 0, base_adr: 0 }
    }
}

/// A 16-bit selector into the [`Gdt`]: the requested privilege level in
/// bits 0..2, the table-indicator bit 2 always zero (the local descriptor
/// table is never used), and the descriptor index from bit 3 up.
#[derive(Debug, Clone, Copy, PartialEq, Eq, Structural)]
pub struct SegmentSelector(pub u16);

impl SegmentSelector {
    pub fn new(index: u16, rpl: Ring) -> (r: SegmentSelector)
        ensures
            r.0 == (index << 3) | rpl.spec_value(),
    {
        SegmentSelector((index << 3) | rpl.value())
    }
}

} // verus!
