//! Integer arithmetic helpers for the fixed-point geometry: square root,
//! the diagonal movement step, and clamping.

use vstd::prelude::*;

verus! {

/// `d` is the per-axis displacement of one diagonal frame step whose straight
/// counterpart is `n`: the squared magnitude of the diagonal displacement
/// `(d, d)` is the largest one not exceeding `n * n`.
pub open spec fn is_diag_step(n: int, d: int) -> bool {
    &&& 0 <= d
    &&& 2 * d * d <= n * n
    &&& n * n < 2 * (d + 1) * (d + 1)
}

/// The unique diagonal step for straight step `n`.
pub open spec fn spec_diag_of(n: int) -> int {
    choose|d: int| is_diag_step(n, d)
}

/// The diagonal step is unique: two values both satisfying `is_diag_step`
/// for the same `n` are equal.
pub proof fn lemma_diag_step_unique(n: int, d1: int, d2: int)
    requires
        is_diag_step(n, d1),
        is_diag_step(n, d2),
    ensures
        d1 == d2,
{
    if d1 < d2 {
        assert(false) by (nonlinear_arith)
            requires
                0 <= d1,
                0 <= d2,
                d1 + 1 <= d2,
                2 * d2 * d2 <= n * n,
                n * n < 2 * (d1 + 1) * (d1 + 1),
        ;
    }
    if d2 < d1 {
        assert(false) by (nonlinear_arith)
            requires
                0 <= d1,
                0 <= d2,
                d2 + 1 <= d1,
                2 * d1 * d1 <= n * n,
                n * n < 2 * (d2 + 1) * (d2 + 1),
        ;
    }
}

/// Whether `r` is the integer square root of `x`.
pub open spec fn is_isqrt(x: int, r: int) -> bool {
    &&& 0 <= r
    &&& r * r <= x
    &&& x < (r + 1) * (r + 1)
}

/// The unique integer square root of a non-negative `x`.
pub open spec fn spec_isqrt(x: int) -> int {
    choose|r: int| is_isqrt(x, r)
}

/// The integer square root is unique.
pub proof fn lemma_isqrt_unique(x: int, r1: int, r2: int)
    requires
        is_isqrt(x, r1),
        is_isqrt(x, r2),
    ensures
        r1 == r2,
{
    if r1 < r2 {
        assert(false) by (nonlinear_arith)
            requires
                0 <= r1,
                0 <= r2,
                r1 + 1 <= r2,
                r2 * r2 <= x,
                x < (r1 + 1) * (r1 + 1),
        ;
    }
    if r2 < r1 {
        assert(false) by (nonlinear_arith)
            requires
                0 <= r1,
                0 <= r2,
                r2 + 1 <= r1,
                r1 * r1 <= x,
                x < (r2 + 1) * (r2 + 1),
        ;
    }
}

/// Integer square root: the largest `r` with `r * r <= x`.
pub fn isqrt64(x: u64) -> (r: u64)
    ensures
        r * r <= x < (r + 1) * (r + 1),
        r == spec_isqrt(x as int),
{
    let mut lo: u64 = 0;
    let mut hi: u64 = 0x1_0000_0000;
    while lo + 1 < hi
        invariant
            lo < hi <= 0x1_0000_0000,
            lo * lo <= x,
            x < hi * hi,
        decreases hi - lo,
    {
        let mid = lo + (hi - lo) / 2;
        assert(lo < mid < hi);
        assert(mid * mid <= 0xffff_ffffu64 * 0xffff_ffffu64) by (nonlinear_arith)
            requires
                mid <= 0xffff_ffffu64,
        ;
        if mid * mid <= x {
            lo = mid;
        } else {
            hi = mid;
        }
    }
    proof {
        assert(exists|rr: int| is_isqrt(x as int, rr)) by {
            assert(is_isqrt(x as int, lo as int));
        }
        lemma_isqrt_unique(x as int, lo as int, spec_isqrt(x as int));
    }
    lo
}

/// Per-axis displacement for one diagonal frame step with straight step `n`,
/// chosen so a diagonal frame covers the same distance as a straight one
/// (up to fixed-point rounding) rather than sqrt(2) times as much.
pub fn diag_step(n: u64) -> (d: u64)
    requires
        n <= 100_000_000,
    ensures
        is_diag_step(n as int, d as int),
        d == spec_diag_of(n as int),
        d <= n,
{
    assert(n * n <= 100_000_000u64 * 100_000_000u64) by (nonlinear_arith)
        requires
            n <= 100_000_000u64,
    ;
    let half = (n * n) / 2;
    let d = isqrt64(half);
    proof {
        let ni = n as int;
        let di = d as int;
        assert(di * di <= half && half < (di + 1) * (di + 1));
        assert(2 * (ni * ni / 2) <= ni * ni && ni * ni <= 2 * (ni * ni / 2) + 1) by {
            vstd::arithmetic::div_mod::lemma_fundamental_div_mod(ni * ni, 2);
        }
        assert(2 * di * di <= ni * ni) by (nonlinear_arith)
            requires
                di * di <= ni * ni / 2,
                2 * (ni * ni / 2) <= ni * ni,
        ;
        assert(ni * ni < 2 * (di + 1) * (di + 1)) by (nonlinear_arith)
            requires
                ni * ni / 2 < (di + 1) * (di + 1),
                ni * ni <= 2 * (ni * ni / 2) + 1,
        ;
        assert(di <= ni) by (nonlinear_arith)
            requires
                0 <= di,
                0 <= ni,
                2 * di * di <= ni * ni,
        ;
        assert(exists|dd: int| is_diag_step(ni, dd)) by {
            assert(is_diag_step(ni, di));
        }
        assert(is_diag_step(ni, spec_diag_of(ni)));
        lemma_diag_step_unique(ni, di, spec_diag_of(ni));
    }
    d
}

/// Clamp `v` into `[lo, hi]`.
pub fn clamp_i64(v: i64, lo: i64, hi: i64) -> (r: i64)
    requires
        lo <= hi,
    ensures
        r == spec_clamp(v as int, lo as int, hi as int),
        lo <= r <= hi,
{
    if v < lo {
        lo
    } else if v > hi {
        hi
    } else {
        v
    }
}

pub open spec fn spec_clamp(v: int, lo: int, hi: int) -> int {
    if v < lo {
        lo
    } else if v > hi {
        hi
    } else {
        v
    }
}

} // verus!
