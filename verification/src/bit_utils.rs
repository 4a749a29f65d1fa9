//! Bit-level helpers: single-bit tests, bit-range extraction, and the
//! alignment arithmetic used by the bootstrap allocator.

use vstd::prelude::*;

verus! {

/// True when bit `i` of `x` is set.
pub open spec fn spec_bit(x: u64, i: u64) -> bool {
    x >> i & 1 == 1
}

/// The bits of `x` in the half-open range `[lo, hi)`, shifted down to
/// position 0: the value `(x >> lo) % 2^(hi - lo)`.
pub open spec fn spec_bit_range(x: u64, lo: u64, hi: u64) -> u64 {
    (x << (64 - hi) as u64) >> (64 - hi) as u64 >> lo
}

/// Bit queries on a machine word.
pub trait BitRange: Sized {
    /// What `bit` returns, at the specification level.
    spec fn bit_spec(&self, i: u64) -> bool;

    /// What `bit_range` returns, at the specification level.
    spec fn bit_range_spec(&self, lo: u64, hi: u64) -> Self;

    /// True when bit `i` is set.
    fn bit(&self, i: u64) -> (r: bool)
        requires
            i < 64,
        ensures
            r == self.bit_spec(i),
    ;

    /// The bits in the half-open range `[lo, hi)`, shifted down to position 0.
    fn bit_range(&self, lo: u64, hi: u64) -> (r: Self)
        requires
            lo < hi <= 64,
        ensures
            r == self.bit_range_spec(lo, hi),
    ;
}

impl BitRange for u64 {
    open spec fn bit_spec(&self, i: u64) -> bool {
        spec_bit(*self, i)
    }

    open spec fn bit_range_spec(&self, lo: u64, hi: u64) -> u64 {
        spec_bit_range(*self, lo, hi)
    }

    fn bit(&self, i: u64) -> (r: bool) {
        let x = *self;
        proof {
            assert((x & (1u64 << i) != 0) == (x >> i & 1 == 1)) by (bit_vector)
                requires
                    i < 64,
            ;
        }
        x & (1u64 << i) != 0
    }

    fn bit_range(&self, lo: u64, hi: u64) -> (r: u64) {
        let s: u64 = 64;
        let h = *self << (s - hi) >> (s - hi);
        h >> lo
    }
}

/// `spec_bit_range(x, lo, hi)` is exactly the bits of `[lo, hi)` moved to
/// position 0: bit `i` of the result is bit `lo + i` of `x` for `i < hi - lo`,
/// and every bit at or above `hi - lo` is clear.
pub proof fn lemma_bit_range_extracts(x: u64, lo: u64, hi: u64, i: u64)
    requires
        lo < hi <= 64,
        i < 64,
    ensures
        i < hi - lo ==> spec_bit(spec_bit_range(x, lo, hi), i) == spec_bit(x, (lo + i) as u64),
        i >= hi - lo ==> !spec_bit(spec_bit_range(x, lo, hi), i),
{
    assert(i < hi - lo ==> ((x << (64 - hi) as u64 >> (64 - hi) as u64 >> lo) >> i & 1 == 1)
        == (x >> (lo + i) as u64 & 1 == 1)) by (bit_vector)
        requires
            lo < hi <= 64,
            i < 64,
    ;
    assert(i >= hi - lo && lo < hi <= 64 && i < 64
        ==> !((x << (64 - hi) as u64 >> (64 - hi) as u64 >> lo) >> i & 1 == 1)) by (bit_vector);
}

/// Packing a value into the range `[lo, hi)` and extracting it again is the
/// identity: for any `v` that fits in `hi - lo` bits,
/// `spec_bit_range(v << lo, lo, hi) == v`.
#[verifier::rlimit(60)]
pub proof fn lemma_bit_range_pack_roundtrip(v: u64, lo: u64, hi: u64)
    requires
        lo < hi <= 64,
        hi - lo < 64 ==> v < (1u64 << (hi - lo) as u64),
    ensures
        spec_bit_range(v << lo, lo, hi) == v,
{
    assert(lo < hi <= 64 && (hi - lo < 64 ==> v < (1u64 << (hi - lo) as u64))
        ==> ((v << lo) << (64 - hi) as u64 >> (64 - hi) as u64 >> lo) == v) by (bit_vector);
}

/// Extracting a range is idempotent: re-extracting the already-extracted
/// value over `[0, hi - lo)` changes nothing.
pub proof fn lemma_bit_range_idempotent(x: u64, lo: u64, hi: u64)
    requires
        lo < hi <= 64,
    ensures
        spec_bit_range(spec_bit_range(x, lo, hi), 0, (hi - lo) as u64) == spec_bit_range(
            x,
            lo,
            hi,
        ),
{
    let r = spec_bit_range(x, lo, hi);
    assert(lo < hi <= 64 ==> (x << (64 - hi) as u64 >> (64 - hi) as u64 >> lo) << (64 - (hi
        - lo)) as u64 >> (64 - (hi - lo)) as u64 >> 0 == (x << (64 - hi) as u64 >> (64
        - hi) as u64 >> lo)) by (bit_vector);
}

/// Why an alignment request cannot be served.
#[derive(Debug, PartialEq, Eq, Structural, Clone, Copy)]
pub enum AlignmentError {
    /// The requested alignment is zero or not a power of two.
    InvalidAlignment,
    /// No address with the requested alignment exists in the range at hand.
    AlignmentNotPossible,
}

/// True when `align` is a power of two (and in particular nonzero).
pub open spec fn is_power_of_two(align: usize) -> bool {
    align > 0 && (align & (align - 1) as usize) == 0
}

/// The smallest multiple of `align` that is at least `addr`, as a
/// mathematical integer (it can exceed `usize::MAX`).
pub open spec fn spec_align_up(addr: usize, align: usize) -> int {
    if addr % align == 0 {
        addr as int
    } else {
        addr + align - addr % align
    }
}

proof fn lemma_align_up_aligned(addr: usize, align: usize)
    requires
        align > 0,
    ensures
        spec_align_up(addr, align) % align as int == 0,
        addr <= spec_align_up(addr, align) < addr + align,
{
    if addr % align != 0 {
        let q = addr as int / align as int;
        vstd::arithmetic::div_mod::lemma_fundamental_div_mod(addr as int, align as int);
        assert(spec_align_up(addr, align) == (q + 1) * align) by (nonlinear_arith)
            requires
                addr == align * q + addr % align,
                addr % align != 0,
        ;
        vstd::arithmetic::div_mod::lemma_mod_multiples_basic(q + 1, align as int);
    }
}

/// The smallest address at or above `addr` that is a multiple of `align`.
///
/// Fails with `InvalidAlignment` when `align` is zero or not a power of two,
/// and with `AlignmentNotPossible` when every such multiple lies beyond
/// `usize::MAX`.
pub fn find_next_aligned_byte(addr: usize, align: usize) -> (r: Result<usize, AlignmentError>)
    ensures
        r == (if !is_power_of_two(align) {
            Err::<usize, AlignmentError>(AlignmentError::InvalidAlignment)
        } else if spec_align_up(addr, align) > usize::MAX {
            Err::<usize, AlignmentError>(AlignmentError::AlignmentNotPossible)
        } else {
            Ok::<usize, AlignmentError>(spec_align_up(addr, align) as usize)
        }),
        r matches Ok(a) ==> a == spec_align_up(addr, align) && a % align == 0 && addr <= a < addr
            + align,
{
    if align == 0 || (align & (align - 1)) != 0 {
        return Err(AlignmentError::InvalidAlignment);
    }
    let rem = addr % align;
    if rem == 0 {
        proof {
            lemma_align_up_aligned(addr, align);
        }
        return Ok(addr);
    }
    let step = align - rem;
    if addr > usize::MAX - step {
        proof {
            lemma_align_up_aligned(addr, align);
        }
        return Err(AlignmentError::AlignmentNotPossible);
    }
    proof {
        lemma_align_up_aligned(addr, align);
    }
    Ok(addr + step)
}

} // verus!
