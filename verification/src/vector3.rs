//! Three-component vectors over fixed-point scalars.

#![allow(non_snake_case)]

use crate::fixed::{
    fmul, is_sqrt, isqrt, lemma_component_le_sqrt, lemma_fmul_abs_bound, lemma_mul_abs_bound,
    lemma_sqrt_exists, lemma_sqrt_le, lemma_tdiv_abs_bound, lemma_tdiv_exact, lemma_tdiv_ordered,
    mul_fp, sqrt_floor, tdiv, FP_BIG, FP_SMALL, SCALE,
};
use crate::matrix::{m_bounded, Matrix, MAT_MAX};
use vstd::prelude::*;

verus! {

/// Largest coordinate magnitude a camera is allowed to reach
/// (a million whole units).
pub const COORD_MAX: i64 = 1_000_000_000_000;

/// Largest component magnitude accepted by `Vector3Normalize` and
/// `Vector3Distance`: wide enough for any difference of two in-range
/// coordinates.
pub const NORM_MAX: i64 = 3_000_000_000_000;

/// Largest component magnitude accepted by `Vector3Transform`.
pub const TRANSFORM_MAX: i64 = 2_100_000_000_000;

/// Bound on every component of the result of `Vector3Transform`.
pub const TRANSFORMED_MAX: i64 = 13_000_000_000_000;

#[derive(Clone, Copy, Debug, PartialEq, Eq, Structural)]
pub struct Vector3 {
    pub x: i64,
    pub y: i64,
    pub z: i64,
}

/// Every component of `v` has magnitude at most `m`.
pub open spec fn v3_bounded(v: Vector3, m: int) -> bool {
    &&& -m <= v.x <= m
    &&& -m <= v.y <= m
    &&& -m <= v.z <= m
}

/// Componentwise sum, truncated to the machine type; exact whenever the
/// mathematical sums are in range.
pub open spec fn vadd_spec(a: Vector3, b: Vector3) -> Vector3 {
    Vector3 { x: (a.x + b.x) as i64, y: (a.y + b.y) as i64, z: (a.z + b.z) as i64 }
}

/// Componentwise difference, truncated to the machine type; exact whenever
/// the mathematical differences are in range.
pub open spec fn vsub_spec(a: Vector3, b: Vector3) -> Vector3 {
    Vector3 { x: (a.x - b.x) as i64, y: (a.y - b.y) as i64, z: (a.z - b.z) as i64 }
}

/// Sum of the squared components: the squared length, at squared scale.
pub open spec fn norm2(v: Vector3) -> int {
    v.x * v.x + v.y * v.y + v.z * v.z
}

/// Each component scaled by `k` (fixed-point product, `k` the wide factor).
pub open spec fn vscale_spec(v: Vector3, k: int) -> Vector3 {
    Vector3 {
        x: fmul(k, v.x as int) as i64,
        y: fmul(k, v.y as int) as i64,
        z: fmul(k, v.z as int) as i64,
    }
}

/// The unit vector along `v` (components at scale), rounded toward zero;
/// the zero vector is left unchanged.
pub open spec fn normalize_spec(v: Vector3) -> Vector3 {
    if norm2(v) == 0 {
        Vector3 { x: 0, y: 0, z: 0 }
    } else {
        let l = sqrt_floor(norm2(v));
        Vector3 {
            x: tdiv(v.x * SCALE, l) as i64,
            y: tdiv(v.y * SCALE, l) as i64,
            z: tdiv(v.z * SCALE, l) as i64,
        }
    }
}

/// Fixed-point cross product of two narrow (unit-scale) vectors.
pub open spec fn cross_spec(a: Vector3, b: Vector3) -> Vector3 {
    Vector3 {
        x: (fmul(a.y as int, b.z as int) - fmul(a.z as int, b.y as int)) as i64,
        y: (fmul(a.z as int, b.x as int) - fmul(a.x as int, b.z as int)) as i64,
        z: (fmul(a.x as int, b.y as int) - fmul(a.y as int, b.x as int)) as i64,
    }
}

/// Fixed-point dot product of a wide vector with a narrow vector.
pub open spec fn dot_spec(a: Vector3, b: Vector3) -> int {
    fmul(a.x as int, b.x as int) + fmul(a.y as int, b.y as int) + fmul(a.z as int, b.z as int)
}

/// Applying `m` as an affine transform with implicit fourth coordinate 1:
/// the rotation part is a fixed-point product, the translation column is
/// added afterwards.
pub open spec fn transform_spec(v: Vector3, m: Matrix) -> Vector3 {
    Vector3 {
        x: (tdiv(m.m0 * v.x + m.m4 * v.y + m.m8 * v.z, SCALE as int) + m.m12) as i64,
        y: (tdiv(m.m1 * v.x + m.m5 * v.y + m.m9 * v.z, SCALE as int) + m.m13) as i64,
        z: (tdiv(m.m2 * v.x + m.m6 * v.y + m.m10 * v.z, SCALE as int) + m.m14) as i64,
    }
}

impl Vector3 {
    pub fn new(x: i64, y: i64, z: i64) -> (v: Vector3)
        ensures
            v == (Vector3 { x, y, z }),
    {
        Vector3 { x, y, z }
    }
}

/// Componentwise vector addition.
pub fn Vector3Add(v1: Vector3, v2: Vector3) -> (r: Vector3)
    requires
        i64::MIN <= v1.x + v2.x <= i64::MAX,
        i64::MIN <= v1.y + v2.y <= i64::MAX,
        i64::MIN <= v1.z + v2.z <= i64::MAX,
    ensures
        r == vadd_spec(v1, v2),
        r.x == v1.x + v2.x,
        r.y == v1.y + v2.y,
        r.z == v1.z + v2.z,
{
    Vector3 { x: v1.x + v2.x, y: v1.y + v2.y, z: v1.z + v2.z }
}

/// Componentwise vector subtraction.
pub fn Vector3Subtract(v1: Vector3, v2: Vector3) -> (r: Vector3)
    requires
        i64::MIN <= v1.x - v2.x <= i64::MAX,
        i64::MIN <= v1.y - v2.y <= i64::MAX,
        i64::MIN <= v1.z - v2.z <= i64::MAX,
    ensures
        r == vsub_spec(v1, v2),
        r.x == v1.x - v2.x,
        r.y == v1.y - v2.y,
        r.z == v1.z - v2.z,
{
    Vector3 { x: v1.x - v2.x, y: v1.y - v2.y, z: v1.z - v2.z }
}

/// Adding a vector and then subtracting it again recovers the first
/// operand exactly: fixed-point addition has no rounding.
pub proof fn lemma_add_subtract_round_trip(a: Vector3, b: Vector3)
    requires
        i64::MIN <= a.x + b.x <= i64::MAX,
        i64::MIN <= a.y + b.y <= i64::MAX,
        i64::MIN <= a.z + b.z <= i64::MAX,
    ensures
        vsub_spec(vadd_spec(a, b), b) == a,
{
}

/// Scales each component of a narrow (unit-scale) vector by `k`.
pub fn Vector3Scale(v: Vector3, k: i64) -> (r: Vector3)
    requires
        v3_bounded(v, FP_SMALL as int),
        -FP_BIG <= k <= FP_BIG,
    ensures
        r == vscale_spec(v, k as int),
        v3_bounded(r, 800_000_000_000_000int),
{
    Vector3 { x: mul_fp(k, v.x), y: mul_fp(k, v.y), z: mul_fp(k, v.z) }
}

/// Cross product of two narrow (unit-scale) vectors.
pub fn Vector3CrossProduct(a: Vector3, b: Vector3) -> (r: Vector3)
    requires
        v3_bounded(a, FP_SMALL as int),
        v3_bounded(b, FP_SMALL as int),
    ensures
        r == cross_spec(a, b),
        v3_bounded(r, 128_000_000int),
        v3_bounded(a, SCALE as int) && v3_bounded(b, SCALE as int) ==> v3_bounded(
            r,
            2_000_000int,
        ),
{
    proof {
        if v3_bounded(a, SCALE as int) && v3_bounded(b, SCALE as int) {
            lemma_fmul_abs_bound(a.y as int, b.z as int, SCALE as int, SCALE as int);
            lemma_fmul_abs_bound(a.z as int, b.y as int, SCALE as int, SCALE as int);
            lemma_fmul_abs_bound(a.z as int, b.x as int, SCALE as int, SCALE as int);
            lemma_fmul_abs_bound(a.x as int, b.z as int, SCALE as int, SCALE as int);
            lemma_fmul_abs_bound(a.x as int, b.y as int, SCALE as int, SCALE as int);
            lemma_fmul_abs_bound(a.y as int, b.x as int, SCALE as int, SCALE as int);
        }
        lemma_fmul_abs_bound(a.y as int, b.z as int, FP_SMALL as int, FP_SMALL as int);
        lemma_fmul_abs_bound(a.z as int, b.y as int, FP_SMALL as int, FP_SMALL as int);
        lemma_fmul_abs_bound(a.z as int, b.x as int, FP_SMALL as int, FP_SMALL as int);
        lemma_fmul_abs_bound(a.x as int, b.z as int, FP_SMALL as int, FP_SMALL as int);
        lemma_fmul_abs_bound(a.x as int, b.y as int, FP_SMALL as int, FP_SMALL as int);
        lemma_fmul_abs_bound(a.y as int, b.x as int, FP_SMALL as int, FP_SMALL as int);
    }
    Vector3 {
        x: mul_fp(a.y, b.z) - mul_fp(a.z, b.y),
        y: mul_fp(a.z, b.x) - mul_fp(a.x, b.z),
        z: mul_fp(a.x, b.y) - mul_fp(a.y, b.x),
    }
}

/// Dot product of a wide vector with a narrow vector.
pub fn Vector3DotProduct(a: Vector3, b: Vector3) -> (r: i64)
    requires
        v3_bounded(a, FP_BIG as int),
        v3_bounded(b, FP_SMALL as int),
    ensures
        r == dot_spec(a, b),
        -2_400_000_000_000_000 <= r <= 2_400_000_000_000_000,
{
    mul_fp(a.x, b.x) + mul_fp(a.y, b.y) + mul_fp(a.z, b.z)
}

/// Rescales `v` to (at most) unit length; the zero vector stays zero.
pub fn Vector3Normalize(v: Vector3) -> (r: Vector3)
    requires
        v3_bounded(v, NORM_MAX as int),
    ensures
        r == normalize_spec(v),
        v3_bounded(r, SCALE as int),
{
    proof {
        lemma_mul_abs_bound(v.x as int, v.x as int, NORM_MAX as int, NORM_MAX as int);
        lemma_mul_abs_bound(v.y as int, v.y as int, NORM_MAX as int, NORM_MAX as int);
        lemma_mul_abs_bound(v.z as int, v.z as int, NORM_MAX as int, NORM_MAX as int);
        assert(v.x * v.x >= 0 && v.y * v.y >= 0 && v.z * v.z >= 0) by (nonlinear_arith);
    }
    let q: i128 = (v.x as i128) * (v.x as i128) + (v.y as i128) * (v.y as i128) + (v.z as i128)
        * (v.z as i128);
    if q == 0 {
        return Vector3 { x: 0, y: 0, z: 0 };
    }
    let l: u64 = isqrt(q as u128);
    proof {
        assert(l >= 1) by {
            assert(norm2(v) >= 1);
        }
        lemma_normalize_component_bound(v.x as int, norm2(v), l as int);
        lemma_normalize_component_bound(v.y as int, norm2(v), l as int);
        lemma_normalize_component_bound(v.z as int, norm2(v), l as int);
    }
    let rx: i128 = (v.x as i128) * (SCALE as i128) / (l as i128);
    let ry: i128 = (v.y as i128) * (SCALE as i128) / (l as i128);
    let rz: i128 = (v.z as i128) * (SCALE as i128) / (l as i128);
    Vector3 { x: rx as i64, y: ry as i64, z: rz as i64 }
}

/// A component divided by the vector's length never exceeds one unit.
proof fn lemma_normalize_component_bound(x: int, n: int, l: int)
    requires
        x * x <= n,
        is_sqrt(n, l),
        l >= 1,
    ensures
        -(SCALE as int) <= tdiv(x * SCALE, l) <= SCALE as int,
{
    lemma_component_le_sqrt(x, n, l);
    assert(x * SCALE <= l * SCALE && -(l * SCALE) <= x * SCALE) by (nonlinear_arith)
        requires
            -l <= x <= l,
            SCALE == 1_000_000,
    ;
    lemma_tdiv_ordered(x * SCALE, l * SCALE, l);
    lemma_tdiv_ordered(-(l * SCALE), x * SCALE, l);
    lemma_tdiv_exact(SCALE as int, l);
    assert(l * (SCALE as int) == (SCALE as int) * l) by (nonlinear_arith);
    assert(tdiv(-(l * SCALE), l) == -tdiv(l * SCALE, l));
}

/// A normalized vector never has a component beyond one whole unit.
pub proof fn lemma_normalize_spec_bounded(v: Vector3)
    ensures
        v3_bounded(normalize_spec(v), SCALE as int),
{
    assert(v.x * v.x >= 0 && v.y * v.y >= 0 && v.z * v.z >= 0) by (nonlinear_arith);
    if norm2(v) != 0 {
        lemma_sqrt_exists(norm2(v));
        let l = sqrt_floor(norm2(v));
        assert(l >= 1) by (nonlinear_arith)
            requires
                is_sqrt(norm2(v), l),
                norm2(v) >= 1,
        ;
        lemma_normalize_component_bound(v.x as int, norm2(v), l);
        lemma_normalize_component_bound(v.y as int, norm2(v), l);
        lemma_normalize_component_bound(v.z as int, norm2(v), l);
    }
}

/// Distance between two in-range points, at scale, rounded down.
pub fn Vector3Distance(a: Vector3, b: Vector3) -> (r: i64)
    requires
        v3_bounded(a, COORD_MAX as int),
        v3_bounded(b, COORD_MAX as int),
    ensures
        r as int == sqrt_floor(norm2(vsub_spec(a, b))),
        0 <= r <= 3_500_000_000_000,
{
    let dx: i64 = a.x - b.x;
    let dy: i64 = a.y - b.y;
    let dz: i64 = a.z - b.z;
    proof {
        lemma_mul_abs_bound(dx as int, dx as int, 2 * COORD_MAX as int, 2 * COORD_MAX as int);
        lemma_mul_abs_bound(dy as int, dy as int, 2 * COORD_MAX as int, 2 * COORD_MAX as int);
        lemma_mul_abs_bound(dz as int, dz as int, 2 * COORD_MAX as int, 2 * COORD_MAX as int);
        assert(dx * dx >= 0 && dy * dy >= 0 && dz * dz >= 0) by (nonlinear_arith);
    }
    let q: i128 = (dx as i128) * (dx as i128) + (dy as i128) * (dy as i128) + (dz as i128)
        * (dz as i128);
    let l: u64 = isqrt(q as u128);
    proof {
        assert((3_500_000_000_000int) * (3_500_000_000_000int) >= q) by (nonlinear_arith)
            requires
                q <= 3 * (2_000_000_000_000int * 2_000_000_000_000int),
        ;
        lemma_sqrt_le(q as int, l as int, 3_500_000_000_000int);
    }
    l as i64
}

/// Applies a bounded matrix to an in-range vector.
pub fn Vector3Transform(v: Vector3, mat: Matrix) -> (r: Vector3)
    requires
        v3_bounded(v, TRANSFORM_MAX as int),
        m_bounded(mat, MAT_MAX as int),
    ensures
        r == transform_spec(v, mat),
        v3_bounded(r, TRANSFORMED_MAX as int),
{
    let rx: i64 = transform_row(mat.m0, mat.m4, mat.m8, mat.m12, v);
    let ry: i64 = transform_row(mat.m1, mat.m5, mat.m9, mat.m13, v);
    let rz: i64 = transform_row(mat.m2, mat.m6, mat.m10, mat.m14, v);
    Vector3 { x: rx, y: ry, z: rz }
}

/// One output component of an affine transform.
fn transform_row(c0: i64, c1: i64, c2: i64, t: i64, v: Vector3) -> (r: i64)
    requires
        v3_bounded(v, TRANSFORM_MAX as int),
        -MAT_MAX <= c0 <= MAT_MAX,
        -MAT_MAX <= c1 <= MAT_MAX,
        -MAT_MAX <= c2 <= MAT_MAX,
        -MAT_MAX <= t <= MAT_MAX,
    ensures
        r == tdiv(c0 * v.x + c1 * v.y + c2 * v.z, SCALE as int) + t,
        -TRANSFORMED_MAX <= r <= TRANSFORMED_MAX,
{
    proof {
        lemma_mul_abs_bound(c0 as int, v.x as int, MAT_MAX as int, TRANSFORM_MAX as int);
        lemma_mul_abs_bound(c1 as int, v.y as int, MAT_MAX as int, TRANSFORM_MAX as int);
        lemma_mul_abs_bound(c2 as int, v.z as int, MAT_MAX as int, TRANSFORM_MAX as int);
        lemma_tdiv_abs_bound(
            c0 * v.x + c1 * v.y + c2 * v.z,
            SCALE as int,
            3 * (MAT_MAX as int) * (TRANSFORM_MAX as int),
        );
    }
    let p: i128 = (c0 as i128) * (v.x as i128) + (c1 as i128) * (v.y as i128) + (c2 as i128)
        * (v.z as i128);
    let d: i128 = p / (SCALE as i128);
    (d as i64) + t
}

} // verus!
