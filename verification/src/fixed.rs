//! Signed Q47.16 fixed-point scalars: an `i64` `v` stands for the real number
//! `v / 65536`. All operations saturate at the `i64` range and are pinned to
//! exact integer specifications (`clip64` of a truncating scaled product,
//! quotient or floor square root).

use vstd::prelude::*;

verus! {

/// One unit (the real number 1.0) in the fixed-point format.
pub const SCALE: i64 = 65536;

/// Clamp a mathematical integer into the `i64` range.
pub open spec fn clip64(x: int) -> i64 {
    if x > i64::MAX as int {
        i64::MAX
    } else if x < i64::MIN as int {
        i64::MIN
    } else {
        x as i64
    }
}

/// Division by a positive `d`, truncating toward zero.
pub open spec fn div_trunc(p: int, d: int) -> int {
    if p >= 0 {
        p / d
    } else {
        -((-p) / d)
    }
}

/// The unclipped fixed-point product of `a` and `b`.
pub open spec fn mul_raw(a: i64, b: i64) -> int {
    div_trunc(a as int * b as int, SCALE as int)
}

/// The fixed-point product: `(a * b) / SCALE`, truncated toward zero, saturated.
pub open spec fn fmul_s(a: i64, b: i64) -> i64 {
    clip64(mul_raw(a, b))
}

/// The unclipped fixed-point quotient of `a` by `b`.
pub open spec fn div_raw(a: i64, b: i64) -> int {
    div_trunc(a as int * SCALE as int, b as int)
}

/// The fixed-point quotient: `(a * SCALE) / b`, truncated toward zero, saturated.
pub open spec fn fdiv_s(a: i64, b: i64) -> i64 {
    clip64(div_raw(a, b))
}

/// The saturating sum.
pub open spec fn sadd_s(a: i64, b: i64) -> i64 {
    clip64(a as int + b as int)
}

/// The saturating difference.
pub open spec fn ssub_s(a: i64, b: i64) -> i64 {
    clip64(a as int - b as int)
}

/// The saturating negation.
pub open spec fn sneg_s(a: i64) -> i64 {
    clip64(-(a as int))
}

/// `r` is the floor of the square root of `n`.
pub open spec fn is_sqrt(n: int, r: int) -> bool {
    r >= 0 && r * r <= n && n < (r + 1) * (r + 1)
}

/// The floor of the square root of `n`, as a recursive definition.
pub open spec fn isqrt_spec(n: nat) -> nat
    decreases n,
{
    if n == 0 {
        0
    } else {
        let p: nat = isqrt_spec((n - 1) as nat);
        if (p + 1) * (p + 1) <= n {
            (p + 1) as nat
        } else {
            p
        }
    }
}

/// The fixed-point square root of a nonnegative `a`:
/// the floor of the square root of `a * SCALE`.
pub open spec fn fsqrt_s(a: i64) -> i64 {
    clip64(isqrt_spec((a as int * SCALE as int) as nat) as int)
}

/// A whole number taken into the fixed-point format.
pub open spec fn to_fixed_s(i: i64) -> i64 {
    clip64(i as int * SCALE as int)
}

proof fn lemma_prod_range(a: int, b: int)
    by (nonlinear_arith)
    requires
        -0x8000000000000000 <= a <= 0x7fffffffffffffff,
        -0x8000000000000000 <= b <= 0x7fffffffffffffff,
    ensures
        -0x40000000000000000000000000000000 <= a * b
            <= 0x40000000000000000000000000000000,
{
}

/// `isqrt_spec` meets its floor-square-root characterisation.
pub proof fn lemma_isqrt(n: nat)
    ensures
        is_sqrt(n as int, isqrt_spec(n) as int),
    decreases n,
{
    if n == 0 {
    } else {
        lemma_isqrt((n - 1) as nat);
        let p: nat = isqrt_spec((n - 1) as nat);
        if (p + 1) * (p + 1) <= n {
            assert((p + 1) * (p + 1) < (p + 2) * (p + 2)) by (nonlinear_arith);
        }
    }
}

/// The floor square root is unique.
pub proof fn lemma_isqrt_unique(n: int, r1: int, r2: int)
    by (nonlinear_arith)
    requires
        r1 >= 0,
        r1 * r1 <= n,
        n < (r1 + 1) * (r1 + 1),
        r2 >= 0,
        r2 * r2 <= n,
        n < (r2 + 1) * (r2 + 1),
    ensures
        r1 == r2,
{
}

/// The floor square root of a perfect square `k * k` is `k`.
pub proof fn lemma_isqrt_perfect(k: int)
    requires
        0 <= k,
    ensures
        isqrt_spec((k * k) as nat) == k,
{
    lemma_isqrt((k * k) as nat);
    assert(k * k >= 0) by (nonlinear_arith);
    assert(k * k < (k + 1) * (k + 1)) by (nonlinear_arith)
        requires
            k >= 0,
    ;
    lemma_isqrt_unique((k * k) as int, k, isqrt_spec((k * k) as nat) as int);
}

/// Scaling a value up by `SCALE` and dividing it back down is exact.
pub proof fn lemma_div_trunc_scale_exact(x: int)
    ensures
        div_trunc(x * 65536, 65536) == x,
{
    if x >= 0 {
        vstd::arithmetic::div_mod::lemma_div_multiples_vanish(x, 65536);
    } else {
        vstd::arithmetic::div_mod::lemma_div_multiples_vanish(-x, 65536);
        assert(-(x * 65536) == (-x) * 65536) by (nonlinear_arith);
    }
}

/// Truncating division by a positive divisor is monotone in the dividend.
pub proof fn lemma_div_trunc_monotone(p1: int, p2: int, d: int)
    requires
        0 < d,
        p1 <= p2,
    ensures
        div_trunc(p1, d) <= div_trunc(p2, d),
{
    if p1 >= 0 {
        vstd::arithmetic::div_mod::lemma_div_is_ordered(p1, p2, d);
    } else if p2 >= 0 {
        vstd::arithmetic::div_mod::lemma_div_is_ordered(0, -p1, d);
        vstd::arithmetic::div_mod::lemma_div_is_ordered(0, p2, d);
    } else {
        vstd::arithmetic::div_mod::lemma_div_is_ordered(-p2, -p1, d);
    }
}

/// Clamping into the `i64` range is monotone.
pub proof fn lemma_clip64_monotone(x1: int, x2: int)
    requires
        x1 <= x2,
    ensures
        clip64(x1) <= clip64(x2),
{
}

/// The fixed-point quotient is monotone in the numerator.
pub proof fn lemma_fdiv_monotone(a1: i64, a2: i64, b: i64)
    requires
        b > 0,
        a1 <= a2,
    ensures
        fdiv_s(a1, b) <= fdiv_s(a2, b),
{
    lemma_div_trunc_monotone(a1 as int * 65536, a2 as int * 65536, b as int);
    lemma_clip64_monotone(div_raw(a1, b), div_raw(a2, b));
}

/// The fixed-point square root is never negative.
pub proof fn lemma_fsqrt_s_nonneg(a: i64)
    ensures
        fsqrt_s(a) >= 0,
{
}

/// Multiplying by the fixed-point unit changes nothing.
pub proof fn lemma_fmul_one(u: i64)
    ensures
        fmul_s(u, 65536) == u,
{
    lemma_div_trunc_scale_exact(u as int);
}

/// Dividing by the fixed-point unit changes nothing.
pub proof fn lemma_fdiv_one(u: i64)
    ensures
        fdiv_s(u, 65536) == u,
{
    lemma_div_trunc_scale_exact(u as int);
}

/// Fixed-point multiplication.
pub fn fmul(a: i64, b: i64) -> (r: i64)
    ensures
        r == fmul_s(a, b),
{
    proof {
        lemma_prod_range(a as int, b as int);
    }
    let p: i128 = (a as i128) * (b as i128);
    if p >= 0 {
        let q: u128 = (p as u128) / 65536;
        if q > 0x7fffffffffffffff {
            i64::MAX
        } else {
            q as i64
        }
    } else {
        let m: u128 = (-p) as u128;
        let q: u128 = m / 65536;
        if q >= 0x8000000000000000 {
            i64::MIN
        } else {
            -(q as i64)
        }
    }
}

/// Fixed-point division by a strictly positive divisor.
pub fn fdiv(a: i64, b: i64) -> (r: i64)
    requires
        b > 0,
    ensures
        r == fdiv_s(a, b),
{
    let p: i128 = (a as i128) * 65536;
    let d: u128 = b as u128;
    if p >= 0 {
        let q: u128 = (p as u128) / d;
        if q > 0x7fffffffffffffff {
            i64::MAX
        } else {
            q as i64
        }
    } else {
        let m: u128 = (-p) as u128;
        let q: u128 = m / d;
        if q >= 0x8000000000000000 {
            i64::MIN
        } else {
            -(q as i64)
        }
    }
}

/// Saturating addition.
pub fn sadd(a: i64, b: i64) -> (r: i64)
    ensures
        r == sadd_s(a, b),
{
    let s: i128 = a as i128 + b as i128;
    if s > 0x7fffffffffffffff {
        i64::MAX
    } else if s < -0x8000000000000000 {
        i64::MIN
    } else {
        s as i64
    }
}

/// Saturating subtraction.
pub fn ssub(a: i64, b: i64) -> (r: i64)
    ensures
        r == ssub_s(a, b),
{
    let s: i128 = a as i128 - b as i128;
    if s > 0x7fffffffffffffff {
        i64::MAX
    } else if s < -0x8000000000000000 {
        i64::MIN
    } else {
        s as i64
    }
}

/// Saturating negation.
pub fn sneg(a: i64) -> (r: i64)
    ensures
        r == sneg_s(a),
{
    if a == i64::MIN {
        i64::MAX
    } else {
        -a
    }
}

/// Fixed-point square root of a nonnegative value.
pub fn fsqrt(a: i64) -> (r: i64)
    requires
        a >= 0,
    ensures
        r == fsqrt_s(a),
        0 <= r < 0x10000000000,
        is_sqrt(a as int * SCALE as int, r as int),
{
    let n: u128 = (a as u128) * 65536;
    let mut lo: u128 = 0;
    let mut hi: u128 = 0x10000000000;
    assert((0x10000000000 as int) * (0x10000000000 as int) == 0x100000000000000000000)
        by (nonlinear_arith);
    while hi - lo > 1
        invariant
            lo < hi,
            hi <= 0x10000000000,
            lo * lo <= n,
            n < hi * hi,
        decreases hi - lo,
    {
        let mid: u128 = lo + (hi - lo) / 2;
        proof {
            assert(mid * mid <= 0x100000000000000000000) by (nonlinear_arith)
                requires
                    mid <= 0x10000000000,
            ;
        }
        let sq: u128 = mid * mid;
        if sq <= n {
            lo = mid;
        } else {
            hi = mid;
        }
    }
    proof {
        assert(is_sqrt(n as int, lo as int));
        lemma_isqrt(n as nat);
        lemma_isqrt_unique(n as int, lo as int, isqrt_spec(n as nat) as int);
        assert(lo < 0x10000000000) by (nonlinear_arith)
            requires
                lo * lo <= n,
                n < 0x100000000000000000000,
                lo >= 0,
        ;
    }
    lo as i64
}

/// A whole number taken into the fixed-point format.
pub fn to_fixed(i: i64) -> (r: i64)
    ensures
        r == to_fixed_s(i),
{
    let p: i128 = (i as i128) * 65536;
    if p > 0x7fffffffffffffff {
        i64::MAX
    } else if p < -0x8000000000000000 {
        i64::MIN
    } else {
        p as i64
    }
}

} // verus!
