//! Fixed-point scalars.
//!
//! Every geometric quantity in this crate is a signed 64-bit integer that
//! stores millionths of a unit: the scalar `1_500_000` stands for `1.5`.
//! This keeps all camera arithmetic exact and verifiable, and the
//! controller's constants (speeds, dead zones, zoom steps) are short
//! decimals that millionths represent without error.

use vstd::arithmetic::div_mod::{
    lemma_div_is_ordered, lemma_div_multiples_vanish, lemma_div_pos_is_pos,
};
use vstd::prelude::*;

verus! {

/// Fixed-point units per whole unit: scalars store millionths.
pub const SCALE: i64 = 1_000_000;

/// Largest magnitude accepted for the wide factor of a fixed-point product
/// (coordinates, distances).
pub const FP_BIG: i64 = 100_000_000_000_000;

/// Largest magnitude accepted for the narrow factor of a fixed-point product
/// (unit-vector components, trigonometric values, small speeds).
pub const FP_SMALL: i64 = 8_000_000;

/// Division that rounds toward zero, which is what executable signed
/// division does.
pub open spec fn tdiv(p: int, q: int) -> int {
    if p >= 0 {
        p / q
    } else {
        -((-p) / q)
    }
}

/// Fixed-point product: the mathematical product of two scalars, scaled
/// back down, rounding toward zero.
pub open spec fn fmul(a: int, b: int) -> int {
    tdiv(a * b, SCALE as int)
}

/// Truncating division never moves away from zero, so a bound on the
/// dividend bounds the quotient.
pub proof fn lemma_tdiv_abs_bound(p: int, q: int, m: int)
    requires
        q > 0,
        0 <= m,
        -m <= p <= m,
    ensures
        -(m / q) <= tdiv(p, q) <= m / q,
{
    if p >= 0 {
        lemma_div_is_ordered(p, m, q);
        lemma_div_pos_is_pos(p, q);
    } else {
        lemma_div_is_ordered(-p, m, q);
        lemma_div_pos_is_pos(-p, q);
    }
}

/// Truncating division keeps the dividend's sign.
pub proof fn lemma_tdiv_nonneg(p: int, q: int)
    requires
        q > 0,
        0 <= p,
    ensures
        0 <= tdiv(p, q),
{
    lemma_div_pos_is_pos(p, q);
}

/// Truncating division is monotone in the dividend.
pub proof fn lemma_tdiv_ordered(p1: int, p2: int, q: int)
    requires
        q > 0,
        p1 <= p2,
    ensures
        tdiv(p1, q) <= tdiv(p2, q),
{
    if p1 >= 0 {
        lemma_div_is_ordered(p1, p2, q);
    } else if p2 >= 0 {
        lemma_div_pos_is_pos(-p1, q);
        lemma_div_pos_is_pos(p2, q);
    } else {
        lemma_div_is_ordered(-p2, -p1, q);
    }
}

/// Dividing an exact multiple recovers the factor.
pub proof fn lemma_tdiv_exact(x: int, q: int)
    requires
        q > 0,
    ensures
        tdiv(q * x, q) == x,
{
    if x >= 0 {
        lemma_div_multiples_vanish(x, q);
    } else {
        lemma_div_multiples_vanish(-x, q);
        assert(-(q * x) == q * (-x)) by (nonlinear_arith);
    }
}

/// A product of bounded factors is bounded.
pub proof fn lemma_mul_abs_bound(a: int, b: int, ma: int, mb: int)
    by (nonlinear_arith)
    requires
        -ma <= a <= ma,
        -mb <= b <= mb,
    ensures
        -(ma * mb) <= a * b <= ma * mb,
{
}

/// A fixed-point product of bounded factors is bounded.
pub proof fn lemma_fmul_abs_bound(a: int, b: int, ma: int, mb: int)
    requires
        0 <= ma,
        0 <= mb,
        -ma <= a <= ma,
        -mb <= b <= mb,
    ensures
        -(ma * mb / (SCALE as int)) <= fmul(a, b) <= ma * mb / (SCALE as int),
{
    lemma_mul_abs_bound(a, b, ma, mb);
    assert(0 <= ma * mb) by (nonlinear_arith)
        requires
            0 <= ma,
            0 <= mb,
    ;
    lemma_tdiv_abs_bound(a * b, SCALE as int, ma * mb);
}

/// Multiplying by zero gives zero.
pub proof fn lemma_fmul_zero(a: int)
    ensures
        fmul(a, 0) == 0,
        fmul(0, a) == 0,
{
    assert(a * 0 == 0) by (nonlinear_arith);
    assert(0 * a == 0) by (nonlinear_arith);
    assert(tdiv(0, SCALE as int) == 0);
}

/// Multiplying by one whole unit changes nothing.
pub proof fn lemma_fmul_scale(a: int)
    ensures
        fmul(a, SCALE as int) == a,
        fmul(SCALE as int, a) == a,
{
    assert(a * (SCALE as int) == (SCALE as int) * a) by (nonlinear_arith);
    lemma_tdiv_exact(a, SCALE as int);
}

/// Executable fixed-point multiplication: one wide factor, one narrow factor.
pub fn mul_fp(a: i64, b: i64) -> (r: i64)
    requires
        -FP_BIG <= a <= FP_BIG,
        -FP_SMALL <= b <= FP_SMALL,
    ensures
        r == fmul(a as int, b as int),
        -800_000_000_000_000 <= r <= 800_000_000_000_000,
{
    proof {
        lemma_mul_abs_bound(a as int, b as int, FP_BIG as int, FP_SMALL as int);
        lemma_tdiv_abs_bound(a as int * b as int, SCALE as int, 800_000_000_000_000_000_000);
    }
    let p: i128 = (a as i128) * (b as i128);
    let r: i128 = p / (SCALE as i128);
    r as i64
}

/// Floor of the square root of a nonnegative integer.
pub open spec fn is_sqrt(n: int, r: int) -> bool {
    0 <= r && r * r <= n && n < (r + 1) * (r + 1)
}

/// The square-root floor, as a value: the unique `r` with
/// `r * r <= n < (r + 1) * (r + 1)`.
pub open spec fn sqrt_floor(n: int) -> int {
    choose|r: int| is_sqrt(n, r)
}

/// Any witness of `is_sqrt` is the square-root floor.
pub proof fn lemma_sqrt_floor_eq(n: int, r: int)
    requires
        is_sqrt(n, r),
    ensures
        sqrt_floor(n) == r,
{
    assert(exists|w: int| is_sqrt(n, w));
    let r2 = sqrt_floor(n);
    assert(is_sqrt(n, r2));
    assert(r == r2) by (nonlinear_arith)
        requires
            is_sqrt(n, r),
            is_sqrt(n, r2),
    ;
}

/// Every nonnegative integer has a square-root floor, so `sqrt_floor`
/// always denotes a genuine witness.
pub proof fn lemma_sqrt_exists(n: int)
    requires
        0 <= n,
    ensures
        is_sqrt(n, sqrt_floor(n)),
    decreases n,
{
    if n == 0 {
        assert(is_sqrt(0, 0)) by (nonlinear_arith);
        assert(exists|w: int| is_sqrt(0, w));
    } else {
        lemma_sqrt_exists(n - 1);
        let r = sqrt_floor(n - 1);
        if (r + 1) * (r + 1) <= n {
            assert(is_sqrt(n, r + 1)) by (nonlinear_arith)
                requires
                    is_sqrt(n - 1, r),
                    (r + 1) * (r + 1) <= n,
            ;
            assert(exists|w: int| is_sqrt(n, w));
        } else {
            assert(is_sqrt(n, r)) by (nonlinear_arith)
                requires
                    is_sqrt(n - 1, r),
                    (r + 1) * (r + 1) > n,
            ;
            assert(exists|w: int| is_sqrt(n, w));
        }
    }
}

/// The square-root floor of a bounded number is bounded.
pub proof fn lemma_sqrt_le(n: int, r: int, m: int)
    by (nonlinear_arith)
    requires
        is_sqrt(n, r),
        0 <= m,
        n <= m * m,
    ensures
        r <= m,
{
}

/// A square never exceeds the number it contributes to, so each component
/// is bounded by the square root of the component sum.
pub proof fn lemma_component_le_sqrt(x: int, n: int, r: int)
    by (nonlinear_arith)
    requires
        is_sqrt(n, r),
        x * x <= n,
    ensures
        -r <= x <= r,
{
}

/// Executable square-root floor by bisection.
pub fn isqrt(n: u128) -> (r: u64)
    ensures
        is_sqrt(n as int, r as int),
        r as int == sqrt_floor(n as int),
{
    let mut lo: u128 = 0;
    let mut hi: u128 = 0x1_0000_0000_0000_0000;
    proof {
        assert((0x1_0000_0000_0000_0000 as int) * (0x1_0000_0000_0000_0000 as int) > u128::MAX)
            by (nonlinear_arith);
    }
    while lo + 1 < hi
        invariant
            lo < hi,
            hi <= 0x1_0000_0000_0000_0000,
            (lo as int) * (lo as int) <= n as int,
            (n as int) < (hi as int) * (hi as int),
        decreases hi - lo,
    {
        let mid: u128 = lo + (hi - lo) / 2;
        proof {
            assert((mid as int) * (mid as int) <= u128::MAX) by (nonlinear_arith)
                requires
                    mid < 0x1_0000_0000_0000_0000,
            ;
        }
        let sq: u128 = mid * mid;
        if sq <= n {
            lo = mid;
        } else {
            hi = mid;
        }
    }
    proof {
        lemma_sqrt_floor_eq(n as int, lo as int);
    }
    lo as u64
}

} // verus!
