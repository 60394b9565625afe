//! Address-alignment helpers for fixed-size memory regions.

use vstd::prelude::*;

verus! {

/// True when `n` is a power of two.
pub open spec fn is_power_of_two(n: usize) -> bool {
    exists|k: nat| n == vstd::arithmetic::power2::pow2(k)
}

/// The greatest multiple of `align` that is at most `addr`.
pub open spec fn align_down_spec(addr: int, align: int) -> int {
    (addr / align) * align
}

/// The least multiple of `align` that is at least `addr`.
pub open spec fn align_up_spec(addr: int, align: int) -> int {
    ((addr + align - 1) / align) * align
}

/// Align `addr` downwards to the nearest multiple of `align`.
///
/// The returned `usize` is always `<= addr`.
pub fn align_down(addr: usize, align: usize) -> (r: usize)
    requires
        is_power_of_two(align),
    ensures
        r == align_down_spec(addr as int, align as int),
        r <= addr,
        r % align == 0,
        addr - r < align,
{
    proof {
        let k = choose|k: nat| align == vstd::arithmetic::power2::pow2(k);
        vstd::arithmetic::power2::lemma_pow2_pos(k);
        let a = addr as int;
        let g = align as int;
        assert((a / g) * g <= a && ((a / g) * g) % g == 0 && a - (a / g) * g < g)
            by (nonlinear_arith)
            requires
                g > 0,
                a >= 0,
        ;
    }
    (addr / align) * align
}

/// Align `addr` upwards to the nearest multiple of `align`.
///
/// The returned `usize` is always `>= addr`.
pub fn align_up(addr: usize, align: usize) -> (r: usize)
    requires
        is_power_of_two(align),
        addr + align - 1 <= usize::MAX,
    ensures
        r == align_up_spec(addr as int, align as int),
        r >= addr,
        r % align == 0,
        r - addr < align,
{
    proof {
        let k = choose|k: nat| align == vstd::arithmetic::power2::pow2(k);
        vstd::arithmetic::power2::lemma_pow2_pos(k);
        let s = addr + align - 1;
        let g = align as int;
        assert((s / g) * g <= s && ((s / g) * g) % g == 0 && s - (s / g) * g < g)
            by (nonlinear_arith)
            requires
                g > 0,
                s >= 0,
        ;
    }
    let sum = addr + (align - 1);
    (sum / align) * align
}

} // verus!
