//! Decimal fixed-point arithmetic: a value `v` stands for `v / SCALE`.
//!
//! Products and quotients truncate toward zero, so that horizontal motion is
//! symmetric under negation; `div_floor` rounds down where a recurrence must
//! keep moving in one direction.
use vstd::prelude::*;

verus! {

/// Number of fixed-point units in one whole unit (one block, one tick's speed).
pub const SCALE: i128 = 1_000_000_000_000_000;

/// Division rounding toward zero, for a positive divisor.
#[verifier::opaque]
pub open spec fn trunc_div(a: int, d: int) -> int {
    if a >= 0 {
        a / d
    } else {
        -((-a) / d)
    }
}

/// Fixed-point product of `a` and `b`, truncated toward zero.
pub open spec fn fx_mul(a: int, b: int) -> int {
    trunc_div(a * b, SCALE as int)
}

/// Fixed-point quotient `a / b` for a positive `b`, truncated toward zero.
pub open spec fn fx_div(a: int, b: int) -> int {
    trunc_div(a * SCALE, b)
}

/// Absolute value.
pub open spec fn abs(a: int) -> int {
    if a >= 0 { a } else { -a }
}

/// `r` is the square root of `n` rounded up.
pub open spec fn is_ceil_sqrt(r: int, n: int) -> bool {
    0 <= r && n <= r * r && (r == 0 || (r - 1) * (r - 1) < n)
}

/// The square root of a non-negative `n`, rounded up.
pub open spec fn ceil_sqrt(n: int) -> int {
    choose|r: int| is_ceil_sqrt(r, n)
}

/// A number has only one rounded-up square root.
pub proof fn lemma_ceil_sqrt_unique(r1: int, r2: int, n: int)
    requires
        is_ceil_sqrt(r1, n),
        is_ceil_sqrt(r2, n),
    ensures
        r1 == r2,
{
    if r1 < r2 {
        assert(r1 * r1 <= (r2 - 1) * (r2 - 1)) by (nonlinear_arith)
            requires r1 <= r2 - 1, r1 >= 0;
    } else if r2 < r1 {
        assert(r2 * r2 <= (r1 - 1) * (r1 - 1)) by (nonlinear_arith)
            requires r2 <= r1 - 1, r2 >= 0;
    }
}

/// The rounded-up square root of `a*a + b*b` is at least `|a|`.
pub proof fn lemma_ceil_sqrt_bounds_component(a: int, b: int, r: int)
    requires
        is_ceil_sqrt(r, a * a + b * b),
    ensures
        abs(a) <= r,
{
    assert(b * b >= 0) by (nonlinear_arith);
    if r < abs(a) {
        assert(r * r < a * a) by (nonlinear_arith)
            requires r < abs(a), r >= 0;
    }
}

/// The largest whole-block boundary not above `v`, counted in blocks.
pub open spec fn floor_block(v: int) -> int {
    v / (SCALE as int)
}

/// `v` rounded to the nearest whole-block boundary, halves away from zero.
pub open spec fn round_block(v: int) -> int {
    if v >= 0 {
        ((v + SCALE / 2) / (SCALE as int)) * SCALE
    } else {
        -((((-v) + SCALE / 2) / (SCALE as int)) * SCALE)
    }
}

/// The quotient `|a| / d` truncated is at most `|a| / d` in the reals.
pub proof fn lemma_trunc_div_bound(a: int, d: int)
    requires
        d > 0,
    ensures
        abs(trunc_div(a, d)) * d <= abs(a),
        abs(trunc_div(a, d)) <= abs(a),
        a >= 0 ==> trunc_div(a, d) >= 0,
        a <= 0 ==> trunc_div(a, d) <= 0,
{
    reveal(trunc_div);
    let m = abs(a);
    vstd::arithmetic::div_mod::lemma_fundamental_div_mod(m, d);
    assert(m / d * d <= m) by (nonlinear_arith)
        requires d > 0, m >= 0, m == d * (m / d) + m % d, m % d >= 0;
    assert(m / d <= m) by (nonlinear_arith)
        requires d > 0, m >= 0, m / d * d <= m;
    assert(m / d >= 0) by (nonlinear_arith) requires d > 0, m >= 0;
}

/// A fixed-point product is no larger than the exact product.
pub proof fn lemma_fx_mul_bound(a: int, b: int, ba: int, bb: int)
    requires
        abs(a) <= ba,
        abs(b) <= bb,
    ensures
        abs(a) * abs(b) <= ba * bb,
        abs(fx_mul(a, b)) * SCALE <= ba * bb,
        abs(fx_mul(a, b)) <= ba * bb / (SCALE as int),
{
    lemma_trunc_div_bound(a * b, SCALE as int);
    assert(abs(a * b) == abs(a) * abs(b)) by (nonlinear_arith);
    assert(abs(a) * abs(b) <= ba * bb) by (nonlinear_arith)
        requires abs(a) <= ba, abs(b) <= bb, abs(a) >= 0, abs(b) >= 0;
    let q = abs(fx_mul(a, b));
    assert(q <= ba * bb / (SCALE as int)) by (nonlinear_arith)
        requires q * SCALE <= ba * bb, q >= 0;
}

/// Truncating division of a signed value by a positive divisor.
pub fn div_trunc(a: i128, d: i128) -> (r: i128)
    requires
        d > 0,
        a > i128::MIN,
    ensures
        r == trunc_div(a as int, d as int),
{
    reveal(trunc_div);
    if a >= 0 {
        a / d
    } else {
        let m: i128 = -a;
        proof {
            lemma_trunc_div_bound(a as int, d as int);
        }
        -(m / d)
    }
}

/// Division rounding down, for a positive divisor.
pub fn div_floor(a: i128, d: i128) -> (r: i128)
    requires
        d > 0,
    ensures
        r == (a as int) / (d as int),
        r * d <= a < r * d + d,
{
    if a >= 0 {
        let q: i128 = a / d;
        assert(q * d <= a < q * d + d) by (nonlinear_arith)
            requires q as int == (a as int) / (d as int), a >= 0, d > 0;
        q
    } else {
        let m: i128 = -(a + 1);
        let q: i128 = m / d;
        proof {
            assert(q * d <= m < q * d + d) by (nonlinear_arith)
                requires q as int == (m as int) / (d as int), m >= 0, d > 0;
            assert(q >= 0) by (nonlinear_arith)
                requires q as int == (m as int) / (d as int), m >= 0, d > 0;
            let r = -(q as int) - 1;
            assert(r * d <= a < r * d + d) by (nonlinear_arith)
                requires q * d <= m < q * d + d, m == -(a + 1), r == -(q as int) - 1;
            vstd::arithmetic::div_mod::lemma_fundamental_div_mod(a as int, d as int);
            let e = (a as int) / (d as int);
            assert(e == r) by (nonlinear_arith)
                requires r * d <= a < r * d + d, a == d * e + a % d, 0 <= a % d < d, d > 0;
        }
        -q - 1
    }
}

/// Fixed-point product, truncated toward zero.
pub fn mul_fx(a: i128, b: i128) -> (r: i128)
    requires
        abs(a as int) * abs(b as int) <= i128::MAX,
    ensures
        r == fx_mul(a as int, b as int),
{
    assert(abs((a as int) * (b as int)) == abs(a as int) * abs(b as int)) by (nonlinear_arith);
    let p: i128 = a * b;
    proof {
        lemma_fx_mul_bound(a as int, b as int, abs(a as int), abs(b as int));
    }
    div_trunc(p, SCALE)
}

/// Fixed-point quotient `a / b` for a positive `b`, truncated toward zero.
pub fn div_fx(a: i128, b: i128) -> (r: i128)
    requires
        b > 0,
        abs(a as int) * SCALE <= i128::MAX,
    ensures
        r == fx_div(a as int, b as int),
{
    assert(abs((a as int) * SCALE) == abs(a as int) * SCALE) by (nonlinear_arith);
    let p: i128 = a * SCALE;
    div_trunc(p, b)
}

/// The square root rounded up (the smallest `r` with `r * r >= n`).
pub fn sqrt_ceil(n: u128) -> (r: u128)
    ensures
        is_ceil_sqrt(r as int, n as int),
        r == ceil_sqrt(n as int),
{
    if n == 0 {
        proof {
            let w = choose|r: int| is_ceil_sqrt(r, 0);
            assert(is_ceil_sqrt(0, 0));
            lemma_ceil_sqrt_unique(w, 0, 0);
        }
        return 0;
    }
    // invariant: lo * lo < n <= hi * hi
    let mut lo: u128 = 0;
    let mut hi: u128 = 0x1_0000_0000_0000_0000;
    assert(hi * hi > n) by (nonlinear_arith)
        requires hi == 0x1_0000_0000_0000_0000u128, n <= u128::MAX;
    while hi - lo > 1
        invariant
            lo < hi <= 0x1_0000_0000_0000_0000,
            lo * lo < n,
            n <= hi * hi,
        decreases hi - lo,
    {
        let mid: u128 = lo + (hi - lo) / 2;
        assert(mid * mid < 0x1_0000_0000_0000_0000_0000_0000_0000_0000) by (nonlinear_arith)
            requires mid < 0x1_0000_0000_0000_0000u128;
        if mid * mid >= n {
            hi = mid;
        } else {
            lo = mid;
        }
    }
    assert(hi == lo + 1);
    proof {
        let w = choose|r: int| is_ceil_sqrt(r, n as int);
        assert(is_ceil_sqrt(hi as int, n as int));
        lemma_ceil_sqrt_unique(w, hi as int, n as int);
    }
    hi
}

/// Rounds to the nearest whole-block boundary, halves away from zero.
pub fn round_to_block(v: i128) -> (r: i128)
    requires
        abs(v as int) <= i128::MAX - SCALE,
    ensures
        r == round_block(v as int),
        abs(r - v) <= SCALE / 2,
{
    if v >= 0 {
        let q: i128 = (v + SCALE / 2) / SCALE;
        assert(q * SCALE <= v + SCALE / 2 < q * SCALE + SCALE) by (nonlinear_arith)
            requires q as int == (v as int + SCALE / 2) / (SCALE as int), v >= 0, SCALE > 0;
        q * SCALE
    } else {
        let m: i128 = -v;
        let q: i128 = (m + SCALE / 2) / SCALE;
        assert(q * SCALE <= m + SCALE / 2 < q * SCALE + SCALE) by (nonlinear_arith)
            requires q as int == (m as int + SCALE / 2) / (SCALE as int), m >= 0, SCALE > 0;
        -(q * SCALE)
    }
}

/// The block index holding the coordinate `v` (floor of `v / SCALE`).
pub fn block_index(v: i128) -> (r: i128)
    ensures
        r == floor_block(v as int),
        r * SCALE <= v < r * SCALE + SCALE,
{
    div_floor(v, SCALE)
}

} // verus!
