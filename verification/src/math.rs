//! Exact integer arithmetic helpers for the fixed-point physics: division
//! that truncates toward zero (the rounding every force and damping
//! computation uses) and a floor integer square root for distances.

use vstd::prelude::*;

verus! {

/// Division truncated toward zero: the quotient's magnitude is
/// `|a| / b` and its sign is the sign of `a` (for `b > 0`).
pub open spec fn div_trunc_spec(a: int, b: int) -> int
    recommends
        b > 0,
{
    if a >= 0 {
        a / b
    } else {
        -((-a) / b)
    }
}

/// Floor of the real square root of `n`: the unique `r >= 0` with
/// `r * r <= n < (r + 1) * (r + 1)`.
pub open spec fn sqrt_floor(n: int) -> int
    recommends
        n >= 0,
{
    choose|r: int| 0 <= r && #[trigger] (r * r) <= n && n < (r + 1) * (r + 1)
}

/// Any two nonnegative integers whose squares bracket `n` the same way are
/// equal: the floor square root is unique.
pub proof fn lemma_sqrt_floor_unique(n: int, r1: int, r2: int)
    by (nonlinear_arith)
    requires
        0 <= r1,
        r1 * r1 <= n,
        n < (r1 + 1) * (r1 + 1),
        0 <= r2,
        r2 * r2 <= n,
        n < (r2 + 1) * (r2 + 1),
    ensures
        r1 == r2,
{
}

/// Whenever some `r` brackets `n`, `sqrt_floor(n)` equals that `r`.
pub proof fn lemma_sqrt_floor_is(n: int, r: int)
    requires
        0 <= r,
        r * r <= n,
        n < (r + 1) * (r + 1),
    ensures
        sqrt_floor(n) == r,
{
    assert(0 <= r && r * r <= n && n < (r + 1) * (r + 1));
    let w = choose|w: int| 0 <= w && #[trigger] (w * w) <= n && n < (w + 1) * (w + 1);
    lemma_sqrt_floor_unique(n, w, r);
}

/// Every nonnegative integer has a floor square root, and `sqrt_floor`
/// denotes it.
pub proof fn lemma_sqrt_floor_props(n: int)
    requires
        n >= 0,
    ensures
        0 <= sqrt_floor(n),
        sqrt_floor(n) * sqrt_floor(n) <= n,
        n < (sqrt_floor(n) + 1) * (sqrt_floor(n) + 1),
    decreases n,
{
    if n == 0 {
        lemma_sqrt_floor_is(0, 0);
    } else {
        lemma_sqrt_floor_props(n - 1);
        let r = sqrt_floor(n - 1);
        if (r + 1) * (r + 1) <= n {
            assert(n == (r + 1) * (r + 1));
            assert(n < (r + 2) * (r + 2)) by (nonlinear_arith)
                requires
                    n == (r + 1) * (r + 1),
                    r >= 0,
            ;
            lemma_sqrt_floor_is(n, r + 1);
        } else {
            lemma_sqrt_floor_is(n, r);
        }
    }
}

/// Quotients shrink: for `b >= 1` the truncated quotient never exceeds the
/// dividend in magnitude.
pub proof fn lemma_div_trunc_magnitude(a: int, b: int)
    by (nonlinear_arith)
    requires
        b >= 1,
    ensures
        a >= 0 ==> 0 <= div_trunc_spec(a, b) <= a,
        a < 0 ==> a <= div_trunc_spec(a, b) <= 0,
{
}

/// Scaling bound: if `0 <= a <= c * b` then `a / b <= c`.
pub proof fn lemma_div_trunc_bound(a: int, b: int, c: int)
    by (nonlinear_arith)
    requires
        b >= 1,
        c >= 0,
        -(c * b) <= a <= c * b,
    ensures
        -c <= div_trunc_spec(a, b) <= c,
{
}

/// Truncation toward zero is odd: negating the dividend negates the
/// quotient.
pub proof fn lemma_div_trunc_neg(a: int, b: int)
    requires
        b >= 1,
    ensures
        div_trunc_spec(-a, b) == -div_trunc_spec(a, b),
{
    if a == 0 {
        assert(div_trunc_spec(0, b) == 0) by (nonlinear_arith)
            requires
                b >= 1,
        ;
    }
}

/// A dividend at least as large as the (positive) divisor gives a
/// quotient of at least one.
pub proof fn lemma_div_trunc_nonzero(a: int, b: int)
    requires
        1 <= b <= a,
    ensures
        div_trunc_spec(a, b) >= 1,
{
    vstd::arithmetic::div_mod::lemma_div_non_zero(a, b);
}

/// Truncating division with the divisor known positive. Signed `/` is kept
/// out of executable code: the magnitude is divided as `u128` and the sign
/// of the dividend is restored.
pub fn div_trunc(a: i128, b: i128) -> (r: i128)
    requires
        a > i128::MIN,
        b >= 1,
    ensures
        r == div_trunc_spec(a as int, b as int),
{
    proof {
        lemma_div_trunc_magnitude(a as int, b as int);
    }
    if a >= 0 {
        ((a as u128) / (b as u128)) as i128
    } else {
        let m: u128 = (-a) as u128;
        -((m / (b as u128)) as i128)
    }
}

/// Floor integer square root by bisection on the bracket
/// `lo * lo <= n < hi * hi`.
pub fn isqrt(n: u128) -> (r: u128)
    ensures
        r * r <= n,
        n < (r + 1) * (r + 1),
        r == sqrt_floor(n as int),
{
    let mut lo: u128 = 0;
    let mut hi: u128 = 1u128 << 64;
    proof {
        assert((1u128 << 64) == 0x10000000000000000) by (bit_vector);
    }
    while lo + 1 < hi
        invariant
            lo < hi,
            hi <= 0x10000000000000000,
            lo * lo <= n,
            (n as int) < (hi as int) * (hi as int),
        decreases hi - lo,
    {
        let mid: u128 = lo + (hi - lo) / 2;
        assert(lo < mid < hi);
        assert(mid * mid <= u128::MAX) by (nonlinear_arith)
            requires
                mid < 0x10000000000000000u128,
        ;
        if mid * mid <= n {
            lo = mid;
        } else {
            hi = mid;
        }
    }
    proof {
        assert((n as int) < ((lo + 1) as int) * ((lo + 1) as int));
        lemma_sqrt_floor_is(n as int, lo as int);
    }
    lo
}

} // verus!
