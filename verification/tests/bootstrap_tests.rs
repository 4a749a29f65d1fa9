use pmm_core::bootstrap_allocator::{
    find_memblock, init_bootstrap_alloc, AllocError, BootstrapAllocator, BOOTSTRAP_HEAP_SIZE,
};
use pmm_core::memory_map::{EntryType, MemoryMapEntry};

fn region(base: u64, length: u64, entry_type: EntryType) -> MemoryMapEntry {
    MemoryMapEntry::new(base, length, entry_type)
}

#[test]
fn allocate_advances_the_bump_cursor() {
    let mut arena = BootstrapAllocator::new(0x1000, 0x1000);
    assert_eq!(arena.allocate(0x10, 1), Ok(0x1000));
    assert_eq!(arena.cursor, 0x1010);
    assert_eq!(arena.allocate(0x10, 1), Ok(0x1010));
    assert_eq!(arena.cursor, 0x1020);
}

#[test]
fn allocate_honours_alignment() {
    let mut arena = BootstrapAllocator::new(0x1004, 0x1000);
    assert_eq!(arena.allocate(8, 0x100), Ok(0x1100));
    assert_eq!(arena.cursor, 0x1108);
}

#[test]
fn allocate_rejects_invalid_alignment() {
    let mut arena = BootstrapAllocator::new(0x1000, 0x1000);
    assert_eq!(arena.allocate(8, 0), Err(AllocError::InvalidAlignment));
    assert_eq!(arena.allocate(8, 3), Err(AllocError::InvalidAlignment));
    assert_eq!(arena.cursor, 0x1000);
}

#[test]
fn small_arena_cannot_satisfy_large_alignment() {
    // a 1024-byte arena whose base is not 4096-aligned holds no
    // 4096-aligned address at all
    let mut arena = BootstrapAllocator::new(4096 + 16, 1024);
    assert_eq!(arena.allocate(16, 4096), Err(AllocError::AlignmentNotPossible));
    assert_eq!(arena.cursor, 4096 + 16);
}

#[test]
fn aligned_base_with_room_satisfies_large_alignment() {
    // the same 1024-byte arena succeeds when its base is already aligned
    // and the request still fits
    let mut arena = BootstrapAllocator::new(4096, 1024);
    assert_eq!(arena.allocate(512, 4096), Ok(4096));
    assert_eq!(arena.cursor, 4096 + 512);
}

#[test]
fn allocate_reports_out_of_space() {
    let mut arena = BootstrapAllocator::new(0, 100);
    assert_eq!(arena.allocate(200, 1), Err(AllocError::OutOfSpace));
    assert_eq!(arena.allocate(100, 1), Ok(0));
    assert_eq!(arena.allocate(1, 1), Err(AllocError::OutOfSpace));
}

#[test]
fn deallocate_is_a_no_op() {
    let mut arena = BootstrapAllocator::new(0x1000, 0x1000);
    arena.allocate(0x20, 1).unwrap();
    let before = arena;
    arena.deallocate(0x1000, 0x20);
    assert_eq!(arena, before);
}

#[test]
fn find_memblock_takes_first_usable_fit() {
    let map = vec![
        region(0, 0x10000, EntryType::Reserved),
        region(0x10000, 0x100, EntryType::Usable),
        region(0x20000, 0x10000, EntryType::Usable),
    ];
    // the 0x100-byte region is too small; the next usable one fits
    assert_eq!(find_memblock(0x1000, &map, 1), Some(0x20000));
    // a small request fits the first usable region
    assert_eq!(find_memblock(0x80, &map, 1), Some(0x10000));
}

#[test]
fn find_memblock_rounds_base_up_to_alignment() {
    let map = vec![region(0x1010, 0x2000, EntryType::Usable)];
    assert_eq!(find_memblock(0x800, &map, 0x1000), Some(0x2000));
    // after rounding, the space left is 0x1010 bytes; a larger request fails
    assert_eq!(find_memblock(0x1800, &map, 0x1000), None);
}

#[test]
fn find_memblock_ignores_non_usable_regions() {
    let map = vec![
        region(0, 0x100000, EntryType::Reserved),
        region(0x100000, 0x100000, EntryType::KernelAndModules),
    ];
    assert_eq!(find_memblock(0x1000, &map, 1), None);
}

#[test]
fn init_bootstrap_alloc_places_arena_behind_direct_map() {
    let map = vec![
        region(0, 0x100000, EntryType::Reserved),
        region(0x100000, 0x800_0000, EntryType::Usable),
    ];
    let hhdm_offset: u64 = 0x1000_0000;
    let arena = init_bootstrap_alloc(&map, hhdm_offset).unwrap();
    assert_eq!(arena.start, 0x100000 + 0x1000_0000);
    assert_eq!(arena.size, BOOTSTRAP_HEAP_SIZE);
    assert_eq!(arena.cursor, arena.start);
}

#[test]
fn init_bootstrap_alloc_fails_without_a_large_enough_region() {
    let map = vec![
        region(0, 0x100000, EntryType::Reserved),
        region(0x100000, 0x100000, EntryType::Usable),
    ];
    assert!(init_bootstrap_alloc(&map, 0).is_none());
}
