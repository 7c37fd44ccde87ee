//! Integer arithmetic for the fixed-point quantities of the simulation.
//!
//! Lengths are whole numbers of thousandths of a pixel, in `i64`. Intermediate
//! products are formed in `i128`, and a result that leaves `i64` is pinned to the
//! nearest end of its range.

use vstd::prelude::*;
use vstd::arithmetic::div_mod::lemma_fundamental_div_mod_converse;

verus! {

/// The `i64` nearest to `v`.
pub open spec fn saturated(v: int) -> i64 {
    if v < i64::MIN {
        i64::MIN
    } else if v > i64::MAX {
        i64::MAX
    } else {
        v as i64
    }
}

/// `r` is the integer part of the square root of `n`.
pub open spec fn is_floor_sqrt(r: int, n: int) -> bool {
    0 <= r && r * r <= n < (r + 1) * (r + 1)
}

/// The integer part of the square root of `n`.
pub open spec fn floor_sqrt(n: int) -> int {
    choose|r: int| is_floor_sqrt(r, n)
}

/// The least whole number whose square reaches `n`.
pub open spec fn ceil_sqrt(n: int) -> int {
    if floor_sqrt(n) * floor_sqrt(n) == n {
        floor_sqrt(n)
    } else {
        floor_sqrt(n) + 1
    }
}

/// The least whole number of steps of size `d` that reach `a`.
pub open spec fn ceil_div(a: int, d: int) -> int {
    (a + d - 1) / d
}

/// Squares grow with their argument.
pub proof fn lemma_square_monotone(a: int, b: int)
    requires
        0 <= a <= b,
    ensures
        a * a <= b * b,
{
    assert(a * a <= b * b) by (nonlinear_arith)
        requires
            0 <= a <= b,
    ;
}

/// A number has at most one integer square root.
pub proof fn lemma_floor_sqrt_unique(r: int, s: int, n: int)
    requires
        is_floor_sqrt(r, n),
        is_floor_sqrt(s, n),
    ensures
        r == s,
{
    if r < s {
        lemma_square_monotone(r + 1, s);
    } else if s < r {
        lemma_square_monotone(s + 1, r);
    }
}

/// Every natural number has an integer square root.
pub proof fn lemma_floor_sqrt_exists(n: int)
    requires
        0 <= n,
    ensures
        is_floor_sqrt(floor_sqrt(n), n),
    decreases n,
{
    if n == 0 {
        assert(is_floor_sqrt(0, 0));
    } else {
        lemma_floor_sqrt_exists(n - 1);
        let r = floor_sqrt(n - 1);
        if (r + 1) * (r + 1) <= n {
            assert((r + 2) * (r + 2) > (r + 1) * (r + 1)) by (nonlinear_arith)
                requires
                    0 <= r,
            ;
            assert(is_floor_sqrt(r + 1, n));
        } else {
            assert(is_floor_sqrt(r, n));
        }
    }
}

/// `floor_sqrt(n)` is the one number that `is_floor_sqrt` accepts for `n`.
pub proof fn lemma_floor_sqrt_is(r: int, n: int)
    requires
        is_floor_sqrt(r, n),
    ensures
        floor_sqrt(n) == r,
{
    lemma_floor_sqrt_unique(r, floor_sqrt(n), n);
}

/// `ceil_sqrt(n)` is the least number whose square is at least `n`.
pub proof fn lemma_ceil_sqrt_least(n: int, k: int)
    requires
        0 <= n,
        0 <= k,
    ensures
        0 <= ceil_sqrt(n),
        ceil_sqrt(n) * ceil_sqrt(n) >= n,
        k * k >= n <==> k >= ceil_sqrt(n),
{
    lemma_floor_sqrt_exists(n);
    let r = floor_sqrt(n);
    if k >= ceil_sqrt(n) {
        lemma_square_monotone(ceil_sqrt(n), k);
    } else if r * r == n {
        lemma_square_monotone(k + 1, r);
        assert((k + 1) * (k + 1) > k * k) by (nonlinear_arith)
            requires
                0 <= k,
        ;
    } else {
        lemma_square_monotone(k, r);
    }
}

/// `ceil_div(a, d)` is the least number of steps of size `d` that reach `a`.
pub proof fn lemma_ceil_div_least(a: int, d: int, k: int)
    requires
        0 <= a,
        0 < d,
    ensures
        0 <= ceil_div(a, d),
        k * d >= a <==> k >= ceil_div(a, d),
{
    let q = ceil_div(a, d);
    assert(q * d >= a && (q - 1) * d < a && q >= 0) by (nonlinear_arith)
        requires
            q == (a + d - 1) / d,
            0 <= a,
            0 < d,
    ;
    if k >= q {
        assert(k * d >= q * d) by (nonlinear_arith)
            requires
                k >= q,
                d > 0,
        ;
    } else {
        assert(k * d <= (q - 1) * d) by (nonlinear_arith)
            requires
                k <= q - 1,
                d > 0,
        ;
    }
}

/// Pins `v` into `i64`.
pub fn saturate(v: i128) -> (r: i64)
    ensures
        r == saturated(v as int),
{
    if v < i64::MIN as i128 {
        i64::MIN
    } else if v > i64::MAX as i128 {
        i64::MAX
    } else {
        v as i64
    }
}

/// The size of `c`.
pub fn magnitude(c: i64) -> (r: u128)
    ensures
        r == (if c < 0 { -c } else { c as int }),
        r <= 0x8000_0000_0000_0000,
{
    if c < 0 {
        (-(c as i128)) as u128
    } else {
        c as u128
    }
}

/// Division that rounds towards minus infinity.
pub fn floor_div(a: i128, b: i128) -> (q: i128)
    requires
        b > 0,
        a > i128::MIN,
    ensures
        q == a as int / b as int,
{
    if a >= 0 {
        a / b
    } else {
        let na: i128 = -a;
        let d: i128 = na / b;
        let r: i128 = na % b;
        proof {
            assert(na == d * b + r && 0 <= r < b && 0 <= d <= na) by (nonlinear_arith)
                requires
                    d == na as int / b as int,
                    r == na as int % b as int,
                    b > 0,
                    na >= 0,
            ;
        }
        if r == 0 {
            proof {
                assert(a == (-d) * b + 0) by (nonlinear_arith)
                    requires
                        na == d * b + r,
                        r == 0,
                        a == -na,
                ;
                lemma_fundamental_div_mod_converse(a as int, b as int, -d as int, 0);
            }
            -d
        } else {
            proof {
                assert(a == (-d - 1) * b + (b - r)) by (nonlinear_arith)
                    requires
                        na == d * b + r,
                        a == -na,
                ;
                lemma_fundamental_div_mod_converse(a as int, b as int, -d - 1, b - r);
            }
            -d - 1
        }
    }
}

/// The product, which always fits.
pub fn wide_mul(a: i64, b: i64) -> (r: i128)
    ensures
        r == a * b,
        -0x4000_0000_0000_0000_0000_0000_0000_0000 <= r <= 0x4000_0000_0000_0000_0000_0000_0000_0000,
{
    proof {
        assert(-0x4000_0000_0000_0000_0000_0000_0000_0000 <= a * b
            <= 0x4000_0000_0000_0000_0000_0000_0000_0000) by (nonlinear_arith)
            requires
                -0x8000_0000_0000_0000 <= a <= 0x7fff_ffff_ffff_ffff,
                -0x8000_0000_0000_0000 <= b <= 0x7fff_ffff_ffff_ffff,
        ;
    }
    a as i128 * b as i128
}

/// The least number of steps of size `d` that reach `a`.
pub fn ceil_div_i64(a: i64, d: i64) -> (r: i64)
    requires
        0 <= a,
        0 < d,
    ensures
        r == ceil_div(a as int, d as int),
        0 <= r <= a,
{
    let r: i128 = (a as i128 + d as i128 - 1) / (d as i128);
    proof {
        assert(0 <= (a + d - 1) / (d as int) <= a) by (nonlinear_arith)
            requires
                0 <= a,
                0 < d,
        ;
    }
    r as i64
}

/// `a * b / d`, rounded towards minus infinity and pinned into `i64`.
pub fn mul_div(a: i64, b: i64, d: i64) -> (r: i64)
    requires
        d > 0,
    ensures
        r == saturated(a * b / d as int),
{
    let product: i128 = wide_mul(a, b);
    saturate(floor_div(product, d as i128))
}

/// The integer part of the square root of `n`, found by bisection.
pub fn isqrt(n: u128) -> (r: u64)
    ensures
        r == floor_sqrt(n as int),
        is_floor_sqrt(r as int, n as int),
{
    let mut lo: u128 = 0;
    let mut hi: u128 = 0x1_0000_0000_0000_0000;
    proof {
        assert(0x1_0000_0000_0000_0000int * 0x1_0000_0000_0000_0000int > n) by (nonlinear_arith)
            requires
                n <= 0xffff_ffff_ffff_ffff_ffff_ffff_ffff_ffff,
        ;
    }
    while hi - lo > 1
        invariant
            lo < hi <= 0x1_0000_0000_0000_0000,
            lo * lo <= n < hi * hi,
        decreases hi - lo,
    {
        let mid: u128 = lo + (hi - lo) / 2;
        proof {
            assert(mid * mid <= 0xffff_ffff_ffff_ffff * 0xffff_ffff_ffff_ffff) by (nonlinear_arith)
                requires
                    0 <= mid <= 0xffff_ffff_ffff_ffff,
            ;
        }
        if mid * mid <= n {
            lo = mid;
        } else {
            hi = mid;
        }
    }
    proof {
        lemma_floor_sqrt_is(lo as int, n as int);
    }
    lo as u64
}

/// The least whole number whose square reaches `n`.
pub fn isqrt_ceil(n: u128) -> (r: u64)
    requires
        n <= 0x8000_0000_0000_0000_0000_0000_0000_0000,
    ensures
        r == ceil_sqrt(n as int),
{
    let r: u64 = isqrt(n);
    proof {
        if r >= 0xc000_0000_0000_0000 {
            lemma_square_monotone(0xc000_0000_0000_0000, r as int);
            assert(0xc000_0000_0000_0000int * 0xc000_0000_0000_0000int
                > 0x8000_0000_0000_0000_0000_0000_0000_0000int) by (nonlinear_arith);
        }
    }
    if r as u128 * r as u128 == n {
        r
    } else {
        r + 1
    }
}

} // verus!
