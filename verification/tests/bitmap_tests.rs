use pmm_core::bitmap::{
    create_bitmap, is_page_entirely_free, pagekb4_from_index, set_used_page_bits, Bitmap,
};
use pmm_core::bootstrap_allocator::BootstrapAllocator;
use pmm_core::mem::PageFrameAllocator;
use pmm_core::memory_map::{EntryType, MemoryMapEntry};
use pmm_core::page::{Page, PageSize};

fn entry(base: u64, length: u64, entry_type: EntryType) -> MemoryMapEntry {
    MemoryMapEntry::new(base, length, entry_type)
}

#[test]
fn pagekb4_from_index_scales_by_frame_size() {
    let page = pagekb4_from_index(3);
    assert_eq!(page.start, 0x3000);
    assert!(matches!(page.size, PageSize::KB4));
}

#[test]
fn find_free_4kb_page_skips_full_bytes() {
    // frames 0..8 used; in the second byte, bit 3 (frame 11) is clear
    let bitmap = Bitmap::new(vec![0xFF, 0b1111_0111]);
    let page = bitmap.find_free_4kb_page().unwrap();
    assert_eq!(page.start, 11 * 4096);
    assert!(matches!(page.size, PageSize::KB4));
}

#[test]
fn find_free_4kb_page_reports_oom() {
    let bitmap = Bitmap::new(vec![0xFF, 0xFF, 0xFF]);
    assert!(bitmap.find_free_4kb_page().is_none());
    let empty = Bitmap::new(Vec::new());
    assert!(empty.find_free_4kb_page().is_none());
}

#[test]
fn allocate_frame_hands_out_lowest_frames_in_order() {
    // an all-free bitmap yields frame 0, then frame 1
    let mut bitmap = Bitmap::new(vec![0u8, 0u8]);
    let first = bitmap.allocate_frame().unwrap();
    assert_eq!(first.start, 0);
    let second = bitmap.allocate_frame().unwrap();
    assert_eq!(second.start, 4096);
}

#[test]
fn allocate_frame_does_not_reuse_until_freed() {
    let mut bitmap = Bitmap::new(vec![0u8]);
    let first = bitmap.allocate_frame().unwrap();
    let second = bitmap.allocate_frame().unwrap();
    assert_ne!(first.start, second.start);
    bitmap.deallocate_frame(first);
    let third = bitmap.allocate_frame().unwrap();
    assert_eq!(third.start, first.start);
}

#[test]
fn allocate_then_deallocate_restores_prior_state() {
    let bytes = vec![0b0000_0111u8, 0b1010_0000u8];
    let mut bitmap = Bitmap::new(bytes.clone());
    let page = bitmap.allocate_frame().unwrap();
    assert_eq!(page.start, 3 * 4096);
    bitmap.deallocate_frame(page);
    assert_eq!(bitmap.0, bytes);
}

#[test]
fn allocate_frame_returns_none_when_exhausted() {
    let mut bitmap = Bitmap::new(vec![0xFE]);
    assert_eq!(bitmap.allocate_frame().unwrap().start, 0);
    assert!(bitmap.allocate_frame().is_none());
    assert_eq!(bitmap.0, vec![0xFF]);
}

#[test]
fn page_free_test_is_conservative_about_any_overlap() {
    let frame1 = Page::new(4096, PageSize::KB4);
    // entirely inside a reserved region
    let containing = vec![entry(0, 0x4000, EntryType::Reserved)];
    assert!(!is_page_entirely_free(&frame1, &containing));
    // a reserved region covering only the frame's head
    let head = vec![entry(0, 4200, EntryType::Reserved)];
    assert!(!is_page_entirely_free(&frame1, &head));
    // a reserved region covering only the frame's tail
    let tail = vec![entry(8000, 0x4000, EntryType::KernelAndModules)];
    assert!(!is_page_entirely_free(&frame1, &tail));
    // a reserved region strictly inside the frame
    let inside = vec![entry(5000, 16, EntryType::BadMemory)];
    assert!(!is_page_entirely_free(&frame1, &inside));
    // no overlap at all
    let elsewhere = vec![entry(0x3000, 0x1000, EntryType::Reserved)];
    assert!(is_page_entirely_free(&frame1, &elsewhere));
    // usable regions never mark a frame used
    let usable = vec![entry(0, 0x10000, EntryType::Usable)];
    assert!(is_page_entirely_free(&frame1, &usable));
}

#[test]
fn frame_straddling_end_of_reserved_region_is_used() {
    // the reserved region ends 100 bytes into frame 1
    let map = vec![
        entry(0, 4196, EntryType::Reserved),
        entry(4196, 0x4000 - 4196, EntryType::Usable),
    ];
    let frame1 = Page::new(4096, PageSize::KB4);
    assert!(!is_page_entirely_free(&frame1, &map));
    let frame2 = Page::new(2 * 4096, PageSize::KB4);
    assert!(is_page_entirely_free(&frame2, &map));
}

#[test]
fn set_used_page_bits_packs_eight_overlap_tests() {
    // frames 0..2 reserved, frames 2.. free
    let map = vec![
        entry(0, 2 * 4096, EntryType::Reserved),
        entry(2 * 4096, 14 * 4096, EntryType::Usable),
    ];
    assert_eq!(set_used_page_bits(0, &map), 0b0000_0011);
    assert_eq!(set_used_page_bits(1, &map), 0);
}

#[test]
fn create_bitmap_marks_reserved_low_megabyte() {
    // the first megabyte reserved, then 256 MiB usable
    let map = vec![
        entry(0, 0x100000, EntryType::Reserved),
        entry(0x100000, 0x10000000, EntryType::Usable),
    ];
    let mut arena = BootstrapAllocator::new(0x40_0000, 0x40_0000);
    let bytes = create_bitmap(&map, &mut arena);
    // span 0x10100000 -> 65792 frames -> 8224 bytes, all frames whole
    assert_eq!(bytes.len(), 8224);
    // frames 0..256 (the reserved megabyte) are used, frame 256 is free
    for byte in 0..32 {
        assert_eq!(bytes[byte], 0xFF);
    }
    assert_eq!(bytes[32], 0);
    let bitmap = Bitmap::new(bytes);
    let page = bitmap.find_free_4kb_page().unwrap();
    assert_eq!(page.start, 0x100000);
    assert_eq!(page.start / 4096, 256);
}

#[test]
fn create_bitmap_advances_the_arena_cursor() {
    let map = vec![entry(0, 0x100000, EntryType::Usable)];
    let mut arena = BootstrapAllocator::new(0x8000, 0x8000);
    let bytes = create_bitmap(&map, &mut arena);
    // 256 frames -> 32 bytes carved from the arena
    assert_eq!(bytes.len(), 32);
    assert_eq!(arena.cursor, 0x8000 + 32);
    assert_eq!(arena.start, 0x8000);
    assert_eq!(arena.size, 0x8000);
}

#[test]
fn create_bitmap_sets_bits_beyond_the_last_frame() {
    // 10 whole frames: 2 bytes, trailing 6 bits of the last byte set
    let map = vec![entry(0, 10 * 4096, EntryType::Usable)];
    let mut arena = BootstrapAllocator::new(0x1000, 0x1000);
    let bytes = create_bitmap(&map, &mut arena);
    assert_eq!(bytes.len(), 2);
    assert_eq!(bytes[0], 0);
    assert_eq!(bytes[1], 0b1111_1100);
}

#[test]
fn create_bitmap_floors_partial_top_frame() {
    // span ends 100 bytes into frame 3: only 3 whole frames are tracked
    let map = vec![entry(0, 3 * 4096 + 100, EntryType::Usable)];
    let mut arena = BootstrapAllocator::new(0x1000, 0x1000);
    let bytes = create_bitmap(&map, &mut arena);
    assert_eq!(bytes.len(), 1);
    assert_eq!(bytes[0], 0b1111_1000);
}
