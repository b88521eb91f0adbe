//! Integer square roots and fractions of the unit interval.

use vstd::prelude::*;

verus! {

/// `r` is the integer square root of `n`: the largest integer whose square does
/// not exceed `n`.
pub open spec fn is_floor_sqrt(n: int, r: int) -> bool {
    0 <= r && r * r <= n && n < (r + 1) * (r + 1)
}

/// The integer square root of `n`, for `n >= 0`.
pub open spec fn floor_sqrt(n: int) -> int {
    choose|r: int| is_floor_sqrt(n, r)
}

/// A number has at most one integer square root.
pub proof fn lemma_floor_sqrt_is(n: int, r: int)
    requires
        is_floor_sqrt(n, r),
    ensures
        floor_sqrt(n) == r,
{
    let s = floor_sqrt(n);
    assert(is_floor_sqrt(n, s));
    assert(s == r) by (nonlinear_arith)
        requires
            0 <= r,
            r * r <= n,
            n < (r + 1) * (r + 1),
            0 <= s,
            s * s <= n,
            n < (s + 1) * (s + 1),
    {
        if s < r {
            assert((s + 1) * (s + 1) <= r * r);
        }
        if r < s {
            assert((r + 1) * (r + 1) <= s * s);
        }
    }
}

/// Every number from zero on has an integer square root.
pub proof fn lemma_floor_sqrt_exists(n: int)
    requires
        0 <= n,
    ensures
        is_floor_sqrt(n, floor_sqrt(n)),
    decreases n,
{
    if n == 0 {
        assert(is_floor_sqrt(0, 0));
    } else {
        lemma_floor_sqrt_exists(n - 1);
        let r = floor_sqrt(n - 1);
        if (r + 1) * (r + 1) <= n {
            assert(is_floor_sqrt(n, r + 1)) by (nonlinear_arith)
                requires
                    0 <= r,
                    r * r <= n - 1,
                    n - 1 < (r + 1) * (r + 1),
                    (r + 1) * (r + 1) <= n,
            ;
        } else {
            assert(is_floor_sqrt(n, r));
        }
    }
}

/// The integer square root of a number below `bound * bound` is below `bound`.
pub proof fn lemma_floor_sqrt_below(n: int, r: int, bound: int)
    by (nonlinear_arith)
    requires
        is_floor_sqrt(n, r),
        0 <= bound,
        n < bound * bound,
    ensures
        r < bound,
{
    if r >= bound {
        assert(r * r >= bound * bound);
    }
}

/// Integer square root of `n`.
pub fn isqrt(n: u64) -> (r: u64)
    ensures
        r == floor_sqrt(n as int),
        r < 0x1_0000_0000,
{
    let mut lo: u64 = 0;
    let mut hi: u64 = 0x1_0000_0000;
    assert(0x1_0000_0000int * 0x1_0000_0000int > n);
    while hi - lo > 1
        invariant
            lo < hi <= 0x1_0000_0000,
            lo * lo <= n,
            n < hi * hi,
        decreases hi - lo,
    {
        let mid: u64 = lo + (hi - lo) / 2;
        assert(mid * mid < 0x1_0000_0000_0000_0000) by (nonlinear_arith)
            requires
                mid < 0x1_0000_0000,
        ;
        if mid * mid <= n {
            lo = mid;
        } else {
            hi = mid;
        }
    }
    proof {
        assert(hi == lo + 1);
        lemma_floor_sqrt_is(n as int, lo as int);
    }
    lo
}

/// `floor(n * r)` for the fraction `r = roll / 2^32` of the unit interval.
pub open spec fn scaled(n: int, roll: u32) -> int {
    n * roll / 0x1_0000_0000
}

/// A fraction of the unit interval leaves a positive number smaller than it was,
/// and zero at zero.
pub proof fn lemma_scaled_bounds(n: int, roll: u32)
    by (nonlinear_arith)
    requires
        0 <= n,
    ensures
        0 <= scaled(n, roll),
        n > 0 ==> scaled(n, roll) < n,
        n == 0 ==> scaled(n, roll) == 0,
{
    assert(n * roll <= n * 0xffff_ffff);
    assert(n * roll >= 0);
}

/// `floor(n * r)` for the fraction `r = roll / 2^32`.
pub fn scale(n: u16, roll: u32) -> (r: u16)
    ensures
        r == scaled(n as int, roll),
        n > 0 ==> r < n,
        n == 0 ==> r == 0,
{
    proof {
        lemma_scaled_bounds(n as int, roll);
        assert(n * roll <= 0xffff * 0xffff_ffff) by (nonlinear_arith)
            requires
                0 <= n <= 0xffff,
                0 <= roll <= 0xffff_ffff,
        ;
    }
    let product: u64 = (n as u64) * (roll as u64);
    (product / 0x1_0000_0000) as u16
}

} // verus!
