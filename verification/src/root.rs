use vstd::prelude::*;

verus! {

/// `r` is the integer part of the square root of `n`: `n` is at least the
/// square of `r` and less than the square of `r + 1`, written out.
pub open spec fn is_floor_sqrt(n: int, r: int) -> bool {
    0 <= r && r * r <= n && n < r * r + 2 * r + 1
}

/// The integer part of the square root of `n`; zero where `n` is negative.
pub open spec fn floor_sqrt(n: int) -> int {
    if n <= 0 {
        0
    } else {
        choose|r: int| is_floor_sqrt(n, r)
    }
}

/// The square of `r + 1`, written out.
pub proof fn lemma_next_square(r: int)
    ensures
        (r + 1) * (r + 1) == r * r + 2 * r + 1,
{
    assert((r + 1) * (r + 1) == r * r + 2 * r + 1) by (nonlinear_arith);
}

/// A square is not negative, and no nearer to zero than what was squared.
pub proof fn lemma_square_bounds(d: int)
    ensures
        0 <= d * d,
        d <= d * d,
        -d <= d * d,
{
    assert(0 <= d * d && d <= d * d && -d <= d * d) by (nonlinear_arith);
}

/// Squaring keeps the order of non-negative integers.
pub proof fn lemma_square_monotonic(a: int, b: int)
    requires
        0 <= a <= b,
    ensures
        a * a <= b * b,
{
    assert(a * a <= b * b) by (nonlinear_arith)
        requires
            0 <= a <= b,
    ;
}

/// At most one integer is the integer part of the square root of `n`.
pub proof fn lemma_floor_sqrt_unique(n: int, r: int, s: int)
    requires
        is_floor_sqrt(n, r),
        is_floor_sqrt(n, s),
    ensures
        r == s,
{
    lemma_next_square(r);
    lemma_next_square(s);
    if r < s {
        lemma_square_monotonic(r + 1, s);
    } else if s < r {
        lemma_square_monotonic(s + 1, r);
    }
}

/// Every non-negative integer has an integer square root.
pub proof fn lemma_floor_sqrt_exists(n: int) -> (r: int)
    requires
        0 <= n,
    ensures
        is_floor_sqrt(n, r),
    decreases n,
{
    if n == 0 {
        assert(is_floor_sqrt(n, 0));
        0
    } else {
        let p = lemma_floor_sqrt_exists(n - 1);
        let q = p + 1;
        lemma_next_square(p);
        assert(q * q == (p + 1) * (p + 1)) by (nonlinear_arith)
            requires
                q == p + 1,
        ;
        if q * q <= n {
            assert(is_floor_sqrt(n, q));
            q
        } else {
            assert(is_floor_sqrt(n, p));
            p
        }
    }
}

/// `floor_sqrt` is the one integer that `is_floor_sqrt` accepts.
pub proof fn lemma_floor_sqrt_is(n: int, r: int)
    requires
        is_floor_sqrt(n, r),
    ensures
        floor_sqrt(n) == r,
{
    if n <= 0 {
        assert(r * r >= 0) by (nonlinear_arith);
        assert(n == 0);
        if r > 0 {
            assert(r * r > 0) by (nonlinear_arith)
                requires
                    r > 0,
            ;
        }
    } else {
        let s = choose|s: int| is_floor_sqrt(n, s);
        lemma_floor_sqrt_unique(n, r, s);
    }
}

/// `floor_sqrt` of a non-negative integer meets its defining bounds.
pub proof fn lemma_floor_sqrt_bounds(n: int)
    requires
        0 <= n,
    ensures
        is_floor_sqrt(n, floor_sqrt(n)),
{
    let r = lemma_floor_sqrt_exists(n);
    lemma_floor_sqrt_is(n, r);
}

/// Among the non-negative integers only zero has the root zero.
pub proof fn lemma_floor_sqrt_zero(n: int)
    requires
        0 <= n,
    ensures
        floor_sqrt(n) == 0 <==> n == 0,
{
    lemma_floor_sqrt_bounds(n);
}

/// The integer part of the square root of `n`.
pub fn isqrt(n: u128) -> (r: u64)
    ensures
        r == floor_sqrt(n as int),
        is_floor_sqrt(n as int, r as int),
{
    let mut lo: u128 = 0;
    let mut hi: u128 = 0x1_0000_0000_0000_0000;
    while hi - lo > 1
        invariant
            lo < hi <= 0x1_0000_0000_0000_0000,
            lo * lo <= n,
            n < hi * hi,
        decreases hi - lo,
    {
        let mid: u128 = lo + (hi - lo) / 2;
        proof {
            lemma_square_monotonic(mid as int, 0xffff_ffff_ffff_ffffint);
        }
        if mid * mid <= n {
            lo = mid;
        } else {
            hi = mid;
        }
    }
    proof {
        lemma_next_square(lo as int);
        lemma_floor_sqrt_is(n as int, lo as int);
    }
    lo as u64
}

} // verus!
