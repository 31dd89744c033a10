//! Helper functions related to address manipulation.

use vstd::arithmetic::power2::{lemma2_to64, lemma_pow2_pos, pow2};
use vstd::bits::{low_bits_mask, lemma_u64_low_bits_mask_is_mod, lemma_u64_pow2_no_overflow};
use vstd::prelude::*;

verus! {

/// `align` is a power of two that fits in 64 bits.
pub open spec fn is_power_of_two(align: u64) -> bool {
    exists|n: nat| n < 64 && align as nat == #[trigger] pow2(n)
}

/// The greatest multiple of `align` that is not above `addr`.
pub open spec fn spec_align_down(addr: int, align: int) -> int {
    addr - addr % align
}

/// The smallest multiple of `align` that is not below `addr`.
pub open spec fn spec_align_up(addr: int, align: int) -> int {
    if addr % align == 0 {
        addr
    } else {
        addr - addr % align + align
    }
}

/// Masking with `align - 1` takes the remainder by `align`.
proof fn lemma_mask_is_mod(addr: u64, align: u64)
    requires
        is_power_of_two(align),
    ensures
        align > 0,
        addr & ((align - 1) as u64) == addr % align,
{
    let n = choose|n: nat| n < 64 && align as nat == #[trigger] pow2(n);
    lemma_pow2_pos(n);
    lemma_u64_pow2_no_overflow(n);
    lemma_u64_low_bits_mask_is_mod(addr, n);
    assert(low_bits_mask(n) as u64 == (align - 1) as u64);
    assert(pow2(n) as u64 == align);
}

/// The multiples of `align` around `addr`: the results of the two alignment
/// functions are multiples of `align`, enclose `addr`, and lie less than
/// `align` away from it.
pub proof fn lemma_align_bounds(addr: int, align: int)
    requires
        0 <= addr,
        0 < align,
    ensures
        spec_align_down(addr, align) % align == 0,
        spec_align_up(addr, align) % align == 0,
        spec_align_down(addr, align) <= addr <= spec_align_up(addr, align),
        addr - spec_align_down(addr, align) < align,
        spec_align_up(addr, align) - addr < align,
{
    assert((addr - addr % align) % align == 0) by (nonlinear_arith)
        requires
            0 < align,
    ;
    assert((addr - addr % align + align) % align == 0) by (nonlinear_arith)
        requires
            0 < align,
    ;
    assert(0 <= addr % align < align) by (nonlinear_arith)
        requires
            0 < align,
    ;
}

/// The alignments that the firmware formats use are powers of two.
pub proof fn lemma_common_alignments()
    ensures
        is_power_of_two(4),
        is_power_of_two(8),
        is_power_of_two(0x1000),
{
    lemma2_to64();
    assert(4u64 as nat == pow2(2));
    assert(8u64 as nat == pow2(3));
    assert(0x1000u64 as nat == pow2(12));
}

/// Align address downwards.
///
/// Returns the greatest `x` with alignment `align` so that `x <= addr`.
/// `align` has to be a power of two.
pub fn align_down(addr: u64, align: u64) -> (aligned: u64)
    requires
        is_power_of_two(align),
    ensures
        aligned == spec_align_down(addr as int, align as int),
{
    proof {
        lemma_mask_is_mod(addr, align);
    }
    let mask: u64 = align - 1;
    assert(addr & !mask == addr - (addr & mask)) by (bit_vector);
    addr & !mask
}

/// Align address upwards.
///
/// Returns the smallest `x` with alignment `align` so that `x >= addr`.
/// `align` has to be a power of two, and the result has to fit in 64 bits.
pub fn align_up(addr: u64, align: u64) -> (aligned: u64)
    requires
        is_power_of_two(align),
        spec_align_up(addr as int, align as int) <= u64::MAX,
    ensures
        aligned == spec_align_up(addr as int, align as int),
{
    proof {
        lemma_mask_is_mod(addr, align);
    }
    let mask: u64 = align - 1;
    if addr & mask == 0 {
        addr
    } else {
        assert((addr | mask) == addr - (addr & mask) + mask) by (bit_vector);
        (addr | mask) + 1
    }
}

} // verus!
