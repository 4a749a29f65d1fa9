//! CPU-identification query results.
//!
//! The `cpuid` instruction itself is an opaque hardware query made at the
//! boundary outside this crate; a [`CpuId`] carries its four output words,
//! and the functions here decode the fields the memory subsystem needs.

use vstd::prelude::*;

use crate::bit_utils::{spec_bit_range, BitRange};

verus! {

/// The four output registers of one CPU-identification query.
#[derive(Debug, Clone, Copy, PartialEq, Eq, Structural)]
pub struct CpuId {
    pub eax: u64,
    pub ebx: u64,
    pub ecx: u64,
    pub edx: u64,
}

/// Decodes the address-size query (leaf 0x80000008) as
/// `(physical_bits, virtual_bits)`: the physical address width is bits 0..8
/// of the first output word, the virtual (linear) address width bits 8..16.
pub fn get_addr_sizes(cpuid: &CpuId) -> (r: (u64, u64))
    ensures
        r.0 == spec_bit_range(cpuid.eax, 0, 8),
        r.1 == spec_bit_range(cpuid.eax, 8, 16),
{
    let phys_range = cpuid.eax.bit_range(0, 8);
    let virt_range = cpuid.eax.bit_range(8, 16);
    (phys_range, virt_range)
}

} // verus!
