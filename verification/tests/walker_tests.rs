use pmm_core::page::PageSize;
use pmm_core::paging::{
    PDEntry, PDFlags, PDPEntry, PDPFlags, PML4Entry, PML4Flags, PTEntry, PTFlags, PhysAddr,
};
use pmm_core::walker::{
    resolve_hhdm_addr, walk_pd_entry, walk_pdp_entry, walk_pml4_entry, walk_pt_entry, PdWalk,
    WalkError,
};

fn present_pml4(addr: u64) -> PML4Entry {
    PML4Entry::new(
        PhysAddr::new(addr),
        PML4Flags {
            present: true,
            writable: true,
            user_accessible: false,
            write_through: false,
            cache_disabled: false,
            accessed: false,
            no_execute: false,
        },
    )
}

fn pd_flags(present: bool, page_size: bool) -> PDFlags {
    PDFlags {
        present,
        writable: true,
        user_accessible: false,
        write_through: false,
        cache_disabled: false,
        accessed: false,
        page_size,
        no_execute: false,
    }
}

#[test]
fn resolve_hhdm_addr_adds_the_direct_map_offset() {
    let addr = PhysAddr::new(0x1234_5000);
    assert_eq!(resolve_hhdm_addr(&addr, 0x4000_0000), 0x1234_5000 + 0x4000_0000);
}

#[test]
fn walker_descends_through_present_top_level_entries() {
    let entry = present_pml4(0xA000);
    assert_eq!(walk_pml4_entry(&entry).unwrap().0, 0xA000);
    assert!(walk_pml4_entry(&PML4Entry(0)).is_none());
}

#[test]
fn walker_skips_non_present_upper_middle_entries() {
    assert_eq!(walk_pdp_entry(&PDPEntry(0)), Ok(None));
}

#[test]
fn walker_descends_through_present_upper_middle_entries() {
    let entry = PDPEntry::new(
        PhysAddr::new(0xB000),
        PDPFlags {
            present: true,
            writable: true,
            user_accessible: false,
            write_through: false,
            cache_disabled: false,
            accessed: false,
            no_execute: false,
        },
    );
    assert_eq!(walk_pdp_entry(&entry), Ok(Some(PhysAddr::new(0xB000))));
}

#[test]
fn reserved_bit_in_upper_middle_entry_is_fatal() {
    // present entry with bit 7, always-zero at this level, observed set
    let entry = PDPEntry(0b1000_0001);
    assert_eq!(walk_pdp_entry(&entry), Err(WalkError::ReservedBitSet));
    // the same bit in a non-present entry is never inspected
    assert_eq!(walk_pdp_entry(&PDPEntry(0b1000_0000)), Ok(None));
}

#[test]
fn large_page_entry_terminates_descent() {
    let entry = PDEntry::new(PhysAddr::new(0x20_0000), pd_flags(true, true));
    match walk_pd_entry(&entry) {
        PdWalk::LargePage(page) => {
            assert_eq!(page.start, 0x20_0000);
            assert!(matches!(page.size, PageSize::MB2));
        }
        other => panic!("expected a large page, got {:?}", other),
    }
}

#[test]
fn table_entry_descends_to_leaf_table() {
    let entry = PDEntry::new(PhysAddr::new(0x40_0000), pd_flags(true, false));
    assert_eq!(walk_pd_entry(&entry), PdWalk::NextTable(PhysAddr::new(0x40_0000)));
    assert_eq!(walk_pd_entry(&PDEntry(0)), PdWalk::NotPresent);
}

#[test]
fn leaf_entries_map_4kb_pages() {
    let entry = PTEntry::new(
        PhysAddr::new(0x7000),
        PTFlags {
            present: true,
            writable: true,
            user_accessible: false,
            write_through: false,
            cache_disabled: false,
            accessed: false,
            dirty: false,
            pat: false,
            global: false,
            no_execute: false,
        },
    );
    let page = walk_pt_entry(&entry).unwrap();
    assert_eq!(page.start, 0x7000);
    assert!(matches!(page.size, PageSize::KB4));
    assert!(walk_pt_entry(&PTEntry(0)).is_none());
}
