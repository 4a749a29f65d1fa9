use pmm_core::bit_utils::{find_next_aligned_byte, AlignmentError, BitRange};

#[test]
fn bit_reads_single_bits() {
    let x: u64 = 0b1010;
    assert!(!x.bit(0));
    assert!(x.bit(1));
    assert!(!x.bit(2));
    assert!(x.bit(3));
    assert!(!x.bit(63));
    assert!((1u64 << 63).bit(63));
}

#[test]
fn bit_range_extracts_exact_bits() {
    let x: u64 = 0xABCD;
    assert_eq!(x.bit_range(4, 12), 0xBC);
    assert_eq!(x.bit_range(0, 16), 0xABCD);
    assert_eq!(x.bit_range(0, 4), 0xD);
    assert_eq!(x.bit_range(12, 16), 0xA);
    assert_eq!(0xFFFF_FFFF_FFFF_FFFFu64.bit_range(0, 64), u64::MAX);
}

#[test]
fn bit_range_of_packed_value_round_trips() {
    // pack a 40-bit value into bits 12..52, then extract it again
    let v: u64 = 0xAB_CDEF_0123;
    assert_eq!((v << 12).bit_range(12, 52), v);
    // re-extracting the already-extracted value changes nothing
    let r = (v << 12).bit_range(12, 52);
    assert_eq!(r.bit_range(0, 40), r);
}

#[test]
fn find_next_aligned_byte_rejects_zero_alignment() {
    assert_eq!(
        find_next_aligned_byte(0x1000, 0),
        Err(AlignmentError::InvalidAlignment)
    );
}

#[test]
fn find_next_aligned_byte_rejects_non_power_of_two() {
    assert_eq!(
        find_next_aligned_byte(0x1000, 3),
        Err(AlignmentError::InvalidAlignment)
    );
    assert_eq!(
        find_next_aligned_byte(0x1000, 12),
        Err(AlignmentError::InvalidAlignment)
    );
}

#[test]
fn find_next_aligned_byte_keeps_aligned_address() {
    assert_eq!(find_next_aligned_byte(0x2000, 0x1000), Ok(0x2000));
    assert_eq!(find_next_aligned_byte(0, 1), Ok(0));
    assert_eq!(find_next_aligned_byte(7, 1), Ok(7));
}

#[test]
fn find_next_aligned_byte_rounds_up() {
    assert_eq!(find_next_aligned_byte(5, 4), Ok(8));
    assert_eq!(find_next_aligned_byte(0x1001, 0x1000), Ok(0x2000));
}

#[test]
fn find_next_aligned_byte_detects_address_space_end() {
    assert_eq!(
        find_next_aligned_byte(usize::MAX, 4096),
        Err(AlignmentError::AlignmentNotPossible)
    );
    // the very top address is itself aligned to 1
    assert_eq!(find_next_aligned_byte(usize::MAX, 1), Ok(usize::MAX));
}
