use pmm_core::bitmap::Bitmap;
use pmm_core::control::{Cr3, Cr4};
use pmm_core::cpuid::{get_addr_sizes, CpuId};
use pmm_core::gdt::{GdtPointer, Ring, SegmentDescriptor, SegmentSelector};
use pmm_core::idt::{GateAttributes, GateDescriptor, GateDescriptorType};
use pmm_core::mem::{calc_mem_available, KernelAlloc};
use pmm_core::memory_map::{EntryType, MemoryMapEntry};
use pmm_core::page::{calc_4kb_page_count, Page, PageSize};

#[test]
fn cr3_base_addr_drops_attribute_bits() {
    // low 12 bits of CR3 are caching attributes, not address bits
    let cr3 = Cr3(0xABCD_E007);
    assert_eq!(cr3.get_base_addr(), 0xABCD_E000);
}

#[test]
fn cr4_pcid_is_bit_17() {
    assert!(Cr4(1 << 17).is_pcid());
    assert!(!Cr4(!(1u64 << 17)).is_pcid());
}

#[test]
fn addr_sizes_come_from_the_first_output_word() {
    let cpuid = CpuId { eax: 0x3028, ebx: 0, ecx: 0, edx: 0 };
    assert_eq!(get_addr_sizes(&cpuid), (0x28, 0x30));
}

#[test]
fn code_segment_descriptor_packs_long_mode_attributes() {
    let kernel_cs = SegmentDescriptor::new_cs(Ring::Ring0, false);
    assert_eq!(kernel_cs.lower, 0);
    assert_eq!(kernel_cs.upper, (1 << 21) | (1 << 15));

    let user_cs = SegmentDescriptor::new_cs(Ring::Ring3, true);
    assert_eq!(user_cs.upper, (1 << 21) | (1 << 15) | (3 << 13) | (1 << 10));
}

#[test]
fn data_segment_descriptor_only_carries_present() {
    let ds = SegmentDescriptor::new_ds();
    assert_eq!(ds.lower, 0);
    assert_eq!(ds.upper, 1 << 15);
}

#[test]
fn segment_selector_packs_index_and_privilege() {
    assert_eq!(SegmentSelector::new(5, Ring::Ring3).0, (5 << 3) | 3);
    assert_eq!(SegmentSelector::new(1, Ring::Ring0).0, 1 << 3);
}

#[test]
fn gdt_pointer_dummy_is_null() {
    let p = GdtPointer::dummy();
    assert_eq!(p.limit, 0);
    assert_eq!(p.base_adr, 0);
}

#[test]
fn gate_descriptor_splits_the_handler_address() {
    let selector = SegmentSelector::new(1, Ring::Ring0);
    let gate = GateDescriptor::new(0x1234_5678_9ABC_DEF0, selector);
    assert_eq!(gate.offset_low, 0xDEF0);
    assert_eq!(gate.offset_middle, 0x9ABC);
    assert_eq!(gate.offset_high, 0x1234_5678);
    assert_eq!(gate.selector, selector);
    assert_eq!(gate.attributes.0, 0x8E00);
    assert_eq!(gate.reserved, 0);
}

#[test]
fn gate_attributes_pack_type_privilege_and_present() {
    let attrs = GateAttributes::new(3, GateDescriptorType::Trap, Ring::Ring3);
    assert_eq!(attrs.0, 3 | (0xF << 8) | (3 << 13) | (1 << 15));
}

#[test]
fn kernel_alloc_owns_the_bitmap() {
    let alloc = KernelAlloc::new(0x1_0000_0000, Bitmap::new(vec![0xFF, 0]));
    assert_eq!(alloc.heap_adr, 0x1_0000_0000);
    assert_eq!(alloc.bitmap.0, vec![0xFF, 0]);
}

#[test]
fn mem_available_is_the_maximum_entry_end() {
    let map = vec![
        MemoryMapEntry::new(0, 0x1000, EntryType::Usable),
        MemoryMapEntry::new(0x8000, 0x2000, EntryType::Reserved),
        MemoryMapEntry::new(0x2000, 0x1000, EntryType::Usable),
    ];
    assert_eq!(calc_mem_available(&map), 0xA000);
    assert_eq!(calc_mem_available(&Vec::new()), 0);
}

#[test]
fn page_count_floors_to_whole_frames() {
    assert_eq!(calc_4kb_page_count(0x10000000), 0x10000);
    assert_eq!(calc_4kb_page_count(5 * 4096 + 123), 5);
    assert_eq!(calc_4kb_page_count(0), 0);
    assert_eq!(calc_4kb_page_count(4095), 0);
}

#[test]
fn page_sizes_in_bytes() {
    assert_eq!(PageSize::KB4.bytes(), 4096);
    assert_eq!(PageSize::MB2.bytes(), 0x20_0000);
    let page = Page::new(0x5000, PageSize::KB4);
    assert_eq!(page.start, 0x5000);
    assert!(matches!(page.size, PageSize::KB4));
}
