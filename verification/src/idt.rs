//! Interrupt descriptor table entries for long mode.
//!
//! A long-mode gate descriptor holds its handler address in three fields
//! and a 16-bit attribute word beside them.

use vstd::prelude::*;

use crate::gdt::{Ring, SegmentSelector};

verus! {

/// The two gate kinds long mode supports (task gates do not exist there).
#[derive(Debug, Clone, Copy, PartialEq, Eq, Structural)]
pub enum GateDescriptorType {
    /// Interrupts are disabled while the handler runs.
    Interrupt,
    /// Interrupts stay enabled while the handler runs.
    Trap,
}

impl GateDescriptorType {
    /// The kind's four-bit type code.
    pub open spec fn spec_value(self) -> u16 {
        match self {
            GateDescriptorType::Interrupt => 0xE,
            GateDescriptorType::Trap => 0xF,
        }
    }

    /// The kind's four-bit type code.
    pub fn value(&self) -> (r: u16)
        ensures
            r == self.spec_value(),
    {
        match self {
            GateDescriptorType::Interrupt => 0xE,
            GateDescriptorType::Trap => 0xF,
        }
    }
}

/// The attribute word of a gate descriptor.
#[derive(Debug, Clone, Copy, PartialEq, Eq, Structural)]
pub struct GateAttributes(pub u16);

impl GateAttributes {
    pub fn new(ist: u16, gate_type: GateDescriptorType, dpl: Ring) -> (r: GateAttributes)
        requires
            ist < 8,
        ensures
            r.0 == ist | (gate_type.spec_value() << 8) | (dpl.spec_value() << 13) | (1u16 << 15),
    {
        GateAttributes(ist | (gate_type.value() << 8) | (dpl.value() << 13) | (1u16 << 15))
    }
}

/// One 16-byte gate descriptor of the interrupt descriptor table.
#[derive(Debug, Clone, Copy, PartialEq, Eq, Structural)]
pub struct GateDescriptor {
    /// Handler-address bits 0..16.
    pub offset_low: u16,
    /// Code-segment selector the handler runs under.
    pub selector: SegmentSelector,
    /// Interrupt-stack slot, gate type, privilege level and present bit.
    pub attributes: GateAttributes,
    /// Handler-address bits 16..32.
    pub offset_middle: u16,
    /// Handler-address bits 32..64.
    pub offset_high: u32,
    /// Defined as always zero.
    pub reserved: u32,
}

impl GateDescriptor {
    /// A present interrupt gate for the handler at `offset`, reachable only
    /// from ring 0, on the current stack.  The three offset fields together
    /// hold the handler address exactly.
    pub fn new(offset: u64, selector: SegmentSelector) -> (r: GateDescriptor)
        ensures
            r.offset_low == (offset & 0xFFFF) as u16,
            r.offset_middle == ((offset >> 16) & 0xFFFF) as u16,
            r.offset_high == ((offset >> 32) & 0xFFFF_FFFF) as u32,
            r.selector == selector,
            r.attributes.0 == 0x8E00,
            r.reserved == 0,
            (r.offset_low as u64) | ((r.offset_middle as u64) << 16) | ((r.offset_high as u64)
                << 32) == offset,
    {
        let offset_low: u16 = (offset & 0xFFFF) as u16;
        let offset_middle: u16 = ((offset >> 16) & 0xFFFF) as u16;
        let offset_high: u32 = ((offset >> 32) & 0xFFFFFFFF) as u32;
        let attributes = GateAttributes::new(0, GateDescriptorType::Interrupt, Ring::Ring0);
        proof {
            assert(0u16 | (0xEu16 << 8) | (0u16 << 13) | (1u16 << 15) == 0x8E00u16) by (bit_vector);
            assert(((offset & 0xFFFF) as u16 as u64) | ((((offset >> 16) & 0xFFFF) as u16 as u64)
                << 16) | ((((offset >> 32) & 0xFFFFFFFF) as u32 as u64) << 32) == offset)
                by (bit_vector);
        }
        Self { offset_low, selector, attributes, offset_middle, offset_high, reserved: 0 }
    }
}

} // verus!
