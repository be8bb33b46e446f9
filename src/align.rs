//! Power-of-two alignments and rounding a size up to an alignment.
use vstd::prelude::*;

verus! {

/// `n` is one of 1, 2, 4, 8, ...
pub open spec fn is_pow2(n: nat) -> bool
    decreases n,
{
    if n == 1 {
        true
    } else if n < 2 || n % 2 != 0 {
        false
    } else {
        is_pow2(n / 2)
    }
}

/// Tests whether `n` is a power of two (zero is not).
pub fn is_power_of_two(n: usize) -> (r: bool)
    ensures
        r == is_pow2(n as nat),
{
    if n == 0 {
        return false;
    }
    let mut m: usize = n;
    while m % 2 == 0
        invariant
            m > 0,
            is_pow2(n as nat) == is_pow2(m as nat),
        decreases m,
    {
        m = m / 2;
    }
    m == 1
}

/// Whether `addr` is a multiple of `align`.
pub open spec fn aligned_to(addr: nat, align: nat) -> bool {
    addr % align == 0
}

/// The least multiple of `align` that is not below `size`.
pub open spec fn round_up(size: nat, align: nat) -> nat
    recommends
        align > 0,
{
    if size % align == 0 {
        size
    } else {
        (size - size % align + align) as nat
    }
}

/// Tests whether `addr` is a multiple of `align`.
pub fn is_aligned(addr: usize, align: usize) -> (r: bool)
    requires
        align > 0,
    ensures
        r == aligned_to(addr as nat, align as nat),
{
    addr % align == 0
}

/// Whether `size`, rounded up to a multiple of `align`, stays within `isize::MAX`.
pub fn rounded_size_fits(size: usize, align: usize) -> (r: bool)
    requires
        align > 0,
    ensures
        r == (round_up(size as nat, align as nat) <= isize::MAX),
{
    let rem: usize = size % align;
    assert(rem <= size) by (nonlinear_arith)
        requires
            rem == size % align,
            align > 0,
    ;
    let rounded: u128 = if rem == 0 {
        size as u128
    } else {
        size as u128 - rem as u128 + align as u128
    };
    rounded <= isize::MAX as u128
}

} // verus!
