//! Raw contents of the x86-64 control registers.
//!
//! The registers themselves are read at the hardware boundary outside this
//! crate; each struct here holds one register's raw 64-bit word and decodes
//! the fields the memory subsystem cares about.

use vstd::prelude::*;

use crate::bit_utils::{spec_bit, BitRange};
use crate::paging::{lemma_frame_addr_aligned, spec_frame_addr};

verus! {

/// Raw contents of the CR0 register (machine-status bits).
#[derive(Debug, Clone, Copy, PartialEq, Eq, Structural)]
pub struct Cr0(pub u64);

/// Raw contents of the CR2 register (page-fault linear address).
#[derive(Debug, Clone, Copy, PartialEq, Eq, Structural)]
pub struct Cr2(pub u64);

/// Raw contents of the CR3 register: the translation root.  Bits 12..52
/// hold the frame address of the top-level table; the low bits hold caching
/// attributes, not address bits.
#[derive(Debug, Clone, Copy, PartialEq, Eq, Structural)]
pub struct Cr3(pub u64);

impl Cr3 {
    /// The physical byte address of the top-level table: the register's
    /// frame-address field, which omits the low 12 bits since the table is
    /// 4 KiB-aligned.
    pub fn get_base_addr(&self) -> (r: u64)
        ensures
            r == spec_frame_addr(self.0),
            r % 4096 == 0,
    {
        proof {
            lemma_frame_addr_aligned(self.0);
        }
        self.0.bit_range(12, 52) << 12
    }
}

/// Raw contents of the CR4 register (architecture extension toggles).
#[derive(Debug, Clone, Copy, PartialEq, Eq, Structural)]
pub struct Cr4(pub u64);

impl Cr4 {
    /// True when bit 17 is set: process-context identifiers are enabled.
    pub fn is_pcid(&self) -> (r: bool)
        ensures
            r == spec_bit(self.0, 17),
    {
        self.0.bit(17)
    }
}

} // verus!
