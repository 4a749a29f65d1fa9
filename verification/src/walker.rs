//! Read-only page-table walker: the per-entry decisions of the four-level
//! traversal.
//!
//! The traversal itself dereferences physical memory through the direct-map
//! offset, which only the hardware boundary outside this crate can do.  That
//! boundary runs the loop: for each entry it reads, the functions here
//! decide whether to skip it, descend to the table it references, record a
//! terminal mapping, or stop on a hardware-contract violation.  The walker
//! audits frames already committed by earlier boot stages; it never mutates
//! a mapping.

use vstd::prelude::*;

use crate::bit_utils::{spec_bit, BitRange};
use crate::page::{Page, PageSize};
use crate::paging::{
    spec_frame_addr, spec_pd_flags, spec_pdp_flags, spec_pml4_flags, spec_pt_flags, PDEntry,
    PDPEntry, PML4Entry, PTEntry, PhysAddr,
};

verus! {

/// A fatal, unrecoverable condition found during the walk.
#[derive(Debug, Clone, Copy, PartialEq, Eq, Structural)]
pub enum WalkError {
    /// A bit defined as always-zero was observed set: either the hardware
    /// broke its contract or the traversal is off the rails.  The walk must
    /// halt rather than continue on corrupted assumptions.
    ReservedBitSet,
}

/// What to do with one lower-middle (PD) entry.
#[derive(Debug, Clone, Copy, PartialEq, Eq, Structural)]
pub enum PdWalk {
    /// The entry is not present; skip it.
    NotPresent,
    /// The entry terminally maps this 2 MiB page; record it, do not
    /// descend.
    LargePage(Page),
    /// The entry references a leaf table at this address; descend.
    NextTable(PhysAddr),
}

/// The virtual address at which the direct map exposes `addr`: the boot
/// environment maps all physical memory at one fixed additive offset, so no
/// table lookup is needed to reach a physical byte.
pub fn resolve_hhdm_addr(addr: &PhysAddr, hhdm_offset: u64) -> (r: u64)
    requires
        addr.0 + hhdm_offset <= u64::MAX,
    ensures
        r == addr.0 + hhdm_offset,
{
    addr.0 + hhdm_offset
}

/// Decides one top-level entry: `None` to skip a non-present entry, or the
/// upper-middle table's address to descend to.
pub fn walk_pml4_entry(entry: &PML4Entry) -> (r: Option<PhysAddr>)
    ensures
        r == (if spec_pml4_flags(entry.0).present {
            Some(PhysAddr(spec_frame_addr(entry.0)))
        } else {
            None::<PhysAddr>
        }),
{
    if entry.is_present() {
        Some(entry.get_phys_addr())
    } else {
        None
    }
}

/// Decides one upper-middle entry: `Ok(None)` to skip a non-present entry,
/// the lower-middle table's address to descend to, or the fatal
/// reserved-bit error when bit 7, defined as always zero at this level, is
/// observed set in a present entry.
pub fn walk_pdp_entry(entry: &PDPEntry) -> (r: Result<Option<PhysAddr>, WalkError>)
    ensures
        r == (if !spec_pdp_flags(entry.0).present {
            Ok::<Option<PhysAddr>, WalkError>(None)
        } else if spec_bit(entry.0, 7) {
            Err::<Option<PhysAddr>, WalkError>(WalkError::ReservedBitSet)
        } else {
            Ok::<Option<PhysAddr>, WalkError>(Some(PhysAddr(spec_frame_addr(entry.0))))
        }),
{
    if !entry.is_present() {
        return Ok(None);
    }
    if entry.0.bit(7) {
        return Err(WalkError::ReservedBitSet);
    }
    Ok(Some(entry.get_phys_addr()))
}

/// Decides one lower-middle entry: skip it, record the 2 MiB page it
/// terminally maps, or descend to the leaf table it references.
pub fn walk_pd_entry(entry: &PDEntry) -> (r: PdWalk)
    requires
        spec_frame_addr(entry.0) <= usize::MAX,
    ensures
        r == (if !spec_pd_flags(entry.0).present {
            PdWalk::NotPresent
        } else if spec_pd_flags(entry.0).page_size {
            PdWalk::LargePage(
                Page { start: spec_frame_addr(entry.0) as usize, size: PageSize::MB2 },
            )
        } else {
            PdWalk::NextTable(PhysAddr(spec_frame_addr(entry.0)))
        }),
{
    if !entry.is_present() {
        return PdWalk::NotPresent;
    }
    let addr = entry.get_phys_addr();
    if entry.maps_large_page() {
        PdWalk::LargePage(Page::new(addr.0 as usize, PageSize::MB2))
    } else {
        PdWalk::NextTable(addr)
    }
}

/// Decides one leaf entry: `None` to skip a non-present entry, or the
/// 4 KiB page it maps.
pub fn walk_pt_entry(entry: &PTEntry) -> (r: Option<Page>)
    requires
        spec_frame_addr(entry.0) <= usize::MAX,
    ensures
        r == (if spec_pt_flags(entry.0).present {
            Some(Page { start: spec_frame_addr(entry.0) as usize, size: PageSize::KB4 })
        } else {
            None::<Page>
        }),
{
    if entry.is_present() {
        let addr = entry.get_phys_addr();
        Some(Page::new(addr.0 as usize, PageSize::KB4))
    } else {
        None
    }
}

} // verus!
