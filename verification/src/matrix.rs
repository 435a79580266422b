//! 4x4 affine matrices over fixed-point scalars, column-major:
//! the columns are `[m0..m3]`, `[m4..m7]`, `[m8..m11]`, `[m12..m15]`.

#![allow(non_snake_case)]

use crate::fixed::{
    lemma_mul_abs_bound, lemma_tdiv_abs_bound, lemma_tdiv_exact, lemma_tdiv_nonneg, tdiv, SCALE,
};
use vstd::arithmetic::mul::{
    lemma_mul_basics, lemma_mul_is_commutative, lemma_mul_is_distributive_add,
    lemma_mul_is_distributive_sub,
};
use crate::vector3::{norm2, normalize_spec, transform_spec, v3_bounded, Vector3, Vector3Normalize};
use vstd::prelude::*;

verus! {

/// Bound on every entry of a rotation matrix built by `MatrixRotate`.
pub const MAT_MAX: i64 = 2_000_000;

/// Largest axis-component magnitude `MatrixRotate` accepts (a thousand
/// whole units; rotation axes are direction vectors, not positions).
pub const AXIS_MAX: i64 = 1_000_000_000;

#[derive(Clone, Copy, Debug, PartialEq, Eq, Structural)]
pub struct Matrix {
    pub m0: i64,
    pub m1: i64,
    pub m2: i64,
    pub m3: i64,
    pub m4: i64,
    pub m5: i64,
    pub m6: i64,
    pub m7: i64,
    pub m8: i64,
    pub m9: i64,
    pub m10: i64,
    pub m11: i64,
    pub m12: i64,
    pub m13: i64,
    pub m14: i64,
    pub m15: i64,
}

/// Every entry of `m` has magnitude at most `b`.
pub open spec fn m_bounded(m: Matrix, b: int) -> bool {
    &&& -b <= m.m0 <= b
    &&& -b <= m.m1 <= b
    &&& -b <= m.m2 <= b
    &&& -b <= m.m3 <= b
    &&& -b <= m.m4 <= b
    &&& -b <= m.m5 <= b
    &&& -b <= m.m6 <= b
    &&& -b <= m.m7 <= b
    &&& -b <= m.m8 <= b
    &&& -b <= m.m9 <= b
    &&& -b <= m.m10 <= b
    &&& -b <= m.m11 <= b
    &&& -b <= m.m12 <= b
    &&& -b <= m.m13 <= b
    &&& -b <= m.m14 <= b
    &&& -b <= m.m15 <= b
}

/// The all-zero matrix.
pub open spec fn zero_spec() -> Matrix {
    Matrix {
        m0: 0, m1: 0, m2: 0, m3: 0,
        m4: 0, m5: 0, m6: 0, m7: 0,
        m8: 0, m9: 0, m10: 0, m11: 0,
        m12: 0, m13: 0, m14: 0, m15: 0,
    }
}

/// The identity transform: one whole unit on the diagonal.
pub open spec fn identity_spec() -> Matrix {
    Matrix {
        m0: SCALE, m1: 0, m2: 0, m3: 0,
        m4: 0, m5: SCALE, m6: 0, m7: 0,
        m8: 0, m9: 0, m10: SCALE, m11: 0,
        m12: 0, m13: 0, m14: 0, m15: SCALE,
    }
}

/// Builds the all-zero matrix.
pub fn MatrixZero() -> (m: Matrix)
    ensures
        m == zero_spec(),
{
    Matrix {
        m0: 0, m1: 0, m2: 0, m3: 0,
        m4: 0, m5: 0, m6: 0, m7: 0,
        m8: 0, m9: 0, m10: 0, m11: 0,
        m12: 0, m13: 0, m14: 0, m15: 0,
    }
}

/// Cubic small-angle approximation of sine, at scale.
pub open spec fn sin_poly(a: int) -> int {
    a - tdiv(a * a * a, 6 * (SCALE as int) * (SCALE as int))
}

/// Quartic small-angle approximation of cosine, at scale.
pub open spec fn cos_poly(a: int) -> int {
    let q = a * a;
    (SCALE as int) - tdiv(q, 2 * (SCALE as int)) + tdiv(
        q * q,
        24 * (SCALE as int) * (SCALE as int) * (SCALE as int),
    )
}

/// Sine of an angle of at most one radian magnitude, at scale.
pub fn sin_fp(angle: i64) -> (r: i64)
    requires
        -SCALE <= angle <= SCALE,
    ensures
        r == sin_poly(angle as int),
        -1_200_000 <= r <= 1_200_000,
{
    let a: i128 = angle as i128;
    proof {
        assert(0 <= (a as int) * (a as int) <= 1_000_000_000_000) by (nonlinear_arith)
            requires
                -1_000_000 <= a <= 1_000_000,
        ;
    }
    let a2: i128 = a * a;
    proof {
        assert(-1_000_000_000_000_000_000 <= (a2 as int) * (a as int)
            <= 1_000_000_000_000_000_000) by (nonlinear_arith)
            requires
                0 <= a2 <= 1_000_000_000_000,
                -1_000_000 <= a <= 1_000_000,
        ;
        lemma_tdiv_abs_bound(
            (a2 as int) * (a as int),
            6 * (SCALE as int) * (SCALE as int),
            1_000_000_000_000_000_000,
        );
    }
    let cube: i128 = a2 * a;
    let d: i128 = cube / (6 * (SCALE as i128) * (SCALE as i128));
    proof {
        assert(cube as int == (a2 as int) * (a as int));
        assert(d == tdiv((a2 as int) * (a as int), 6 * (SCALE as int) * (SCALE as int)));
        assert(SCALE == 1_000_000);
        assert(6 * 1_000_000int * 1_000_000int == 6_000_000_000_000int);
        assert(1_000_000_000_000_000_000int / 6_000_000_000_000int == 166_666);
        assert(1_000_000_000_000_000_000int / (6 * (SCALE as int) * (SCALE as int)) == 166_666);
        assert(-166_666 <= d <= 166_666);
        assert(d == tdiv((angle as int) * (angle as int) * (angle as int), 6 * (SCALE as int) * (SCALE as int)));
    }
    angle - (d as i64)
}

/// Cosine of an angle of at most one radian magnitude, at scale.
pub fn cos_fp(angle: i64) -> (r: i64)
    requires
        -SCALE <= angle <= SCALE,
    ensures
        r == cos_poly(angle as int),
        400_000 <= r <= 1_100_000,
{
    let a: i128 = angle as i128;
    proof {
        assert(0 <= (a as int) * (a as int) <= 1_000_000_000_000) by (nonlinear_arith)
            requires
                -1_000_000 <= a <= 1_000_000,
        ;
    }
    let a2: i128 = a * a;
    proof {
        assert(0 <= (a2 as int) * (a2 as int) <= 1_000_000_000_000_000_000_000_000)
            by (nonlinear_arith)
            requires
                0 <= a2 <= 1_000_000_000_000,
        ;
        lemma_tdiv_abs_bound(a2 as int, 2 * (SCALE as int), 1_000_000_000_000);
        lemma_tdiv_nonneg(a2 as int, 2 * (SCALE as int));
        lemma_tdiv_abs_bound(
            (a2 as int) * (a2 as int),
            24 * (SCALE as int) * (SCALE as int) * (SCALE as int),
            1_000_000_000_000_000_000_000_000,
        );
        lemma_tdiv_nonneg(
            (a2 as int) * (a2 as int),
            24 * (SCALE as int) * (SCALE as int) * (SCALE as int),
        );
    }
    let a4: i128 = a2 * a2;
    let term2: i128 = a2 / (2 * (SCALE as i128));
    let term4: i128 = a4 / (24 * (SCALE as i128) * (SCALE as i128) * (SCALE as i128));
    proof {
        assert(24 * 1_000_000int * 1_000_000int * 1_000_000int
            == 24_000_000_000_000_000_000int);
        assert(1_000_000_000_000int / (2 * 1_000_000int) == 500_000int);
        assert(1_000_000_000_000_000_000_000_000int / 24_000_000_000_000_000_000int
            == 41_666int);
        assert(0 <= term2 <= 500_000);
        assert(0 <= term4 <= 41_666);
    }
    let r: i128 = (SCALE as i128) - term2 + term4;
    r as i64
}

/// Unrounded diagonal entry of the Rodrigues rotation matrix, at cubed
/// scale: `a*a*t + c` over the reals.
pub open spec fn rot_raw_diag(a: int, t: int, c: int) -> int {
    a * a * t + c * (SCALE as int) * (SCALE as int)
}

/// Unrounded off-diagonal entry of the Rodrigues rotation matrix, at cubed
/// scale: `a*b*t + u*s` over the reals.
pub open spec fn rot_raw_off(a: int, b: int, t: int, u: int, s: int) -> int {
    a * b * t + u * s * (SCALE as int)
}

/// Diagonal rotation entry, rounded back to scale.
pub open spec fn rot_diag_spec(a: int, t: int, c: int) -> int {
    tdiv(rot_raw_diag(a, t, c), (SCALE as int) * (SCALE as int))
}

/// Off-diagonal rotation entry, rounded back to scale.
pub open spec fn rot_off_spec(a: int, b: int, t: int, u: int, s: int) -> int {
    tdiv(rot_raw_off(a, b, t, u, s), (SCALE as int) * (SCALE as int))
}

/// One diagonal rotation entry.
fn rot_diag(a: i64, t: i64, c: i64) -> (r: i64)
    requires
        -SCALE <= a <= SCALE,
        -100_000 <= t <= 600_000,
        400_000 <= c <= 1_100_000,
    ensures
        r == rot_diag_spec(a as int, t as int, c as int),
        -MAT_MAX <= r <= MAT_MAX,
{
    proof {
        assert(0 <= (a as int) * (a as int) <= 1_000_000_000_000) by (nonlinear_arith)
            requires
                -1_000_000 <= a <= 1_000_000,
        ;
    }
    let aa: i128 = (a as i128) * (a as i128);
    proof {
        assert(-600_000_000_000_000_000 <= (aa as int) * (t as int) <= 600_000_000_000_000_000)
            by (nonlinear_arith)
            requires
                0 <= aa <= 1_000_000_000_000,
                -100_000 <= t <= 600_000,
        ;
        lemma_tdiv_abs_bound(
            rot_raw_diag(a as int, t as int, c as int),
            (SCALE as int) * (SCALE as int),
            1_700_000_000_000_000_000,
        );
    }
    let aat: i128 = aa * (t as i128);
    let css: i128 = (c as i128) * (SCALE as i128) * (SCALE as i128);
    let p: i128 = aat + css;
    let r: i128 = p / ((SCALE as i128) * (SCALE as i128));
    r as i64
}

/// One off-diagonal rotation entry.
fn rot_off(a: i64, b: i64, t: i64, u: i64, s: i64) -> (r: i64)
    requires
        -SCALE <= a <= SCALE,
        -SCALE <= b <= SCALE,
        -100_000 <= t <= 600_000,
        -SCALE <= u <= SCALE,
        -1_200_000 <= s <= 1_200_000,
    ensures
        r == rot_off_spec(a as int, b as int, t as int, u as int, s as int),
        -MAT_MAX <= r <= MAT_MAX,
{
    proof {
        assert(-1_000_000_000_000 <= (a as int) * (b as int) <= 1_000_000_000_000)
            by (nonlinear_arith)
            requires
                -1_000_000 <= a <= 1_000_000,
                -1_000_000 <= b <= 1_000_000,
        ;
        assert(-1_200_000_000_000 <= (u as int) * (s as int) <= 1_200_000_000_000)
            by (nonlinear_arith)
            requires
                -1_000_000 <= u <= 1_000_000,
                -1_200_000 <= s <= 1_200_000,
        ;
    }
    let ab: i128 = (a as i128) * (b as i128);
    let us: i128 = (u as i128) * (s as i128);
    proof {
        assert(-600_000_000_000_000_000 <= (ab as int) * (t as int) <= 600_000_000_000_000_000)
            by (nonlinear_arith)
            requires
                -1_000_000_000_000 <= ab <= 1_000_000_000_000,
                -100_000 <= t <= 600_000,
        ;
        lemma_tdiv_abs_bound(
            rot_raw_off(a as int, b as int, t as int, u as int, s as int),
            (SCALE as int) * (SCALE as int),
            1_800_000_000_000_000_000,
        );
    }
    let abt: i128 = ab * (t as i128);
    let uss: i128 = us * (SCALE as i128);
    let p: i128 = abt + uss;
    let r: i128 = p / ((SCALE as i128) * (SCALE as i128));
    r as i64
}

/// The axis `MatrixRotate` actually rotates about: renormalized only when
/// its squared length is neither zero nor exactly one.
pub open spec fn rot_axis_spec(axis: Vector3) -> Vector3 {
    let q = norm2(axis);
    if q == (SCALE as int) * (SCALE as int) || q == 0 {
        axis
    } else {
        normalize_spec(axis)
    }
}

/// The rotation matrix about `axis` by `angle` radians, built from the
/// Rodrigues formula over fixed-point scalars.
pub open spec fn rotate_spec(axis: Vector3, angle: int) -> Matrix {
    let u = rot_axis_spec(axis);
    let s = sin_poly(angle);
    let c = cos_poly(angle);
    let t = (SCALE as int) - c;
    Matrix {
        m0: rot_diag_spec(u.x as int, t, c) as i64,
        m1: rot_off_spec(u.y as int, u.x as int, t, u.z as int, s) as i64,
        m2: rot_off_spec(u.z as int, u.x as int, t, -(u.y as int), s) as i64,
        m3: 0,
        m4: rot_off_spec(u.x as int, u.y as int, t, -(u.z as int), s) as i64,
        m5: rot_diag_spec(u.y as int, t, c) as i64,
        m6: rot_off_spec(u.z as int, u.y as int, t, u.x as int, s) as i64,
        m7: 0,
        m8: rot_off_spec(u.x as int, u.z as int, t, u.y as int, s) as i64,
        m9: rot_off_spec(u.y as int, u.z as int, t, -(u.x as int), s) as i64,
        m10: rot_diag_spec(u.z as int, t, c) as i64,
        m11: 0,
        m12: 0,
        m13: 0,
        m14: 0,
        m15: SCALE,
    }
}

/// Builds the rotation matrix about `axis` by `angle` radians.
pub fn MatrixRotate(axis: Vector3, angle: i64) -> (m: Matrix)
    requires
        v3_bounded(axis, AXIS_MAX as int),
        -SCALE <= angle <= SCALE,
    ensures
        m == rotate_spec(axis, angle as int),
        m_bounded(m, MAT_MAX as int),
{
    proof {
        lemma_mul_abs_bound(axis.x as int, axis.x as int, AXIS_MAX as int, AXIS_MAX as int);
        lemma_mul_abs_bound(axis.y as int, axis.y as int, AXIS_MAX as int, AXIS_MAX as int);
        lemma_mul_abs_bound(axis.z as int, axis.z as int, AXIS_MAX as int, AXIS_MAX as int);
        assert(axis.x * axis.x >= 0 && axis.y * axis.y >= 0 && axis.z * axis.z >= 0)
            by (nonlinear_arith);
    }
    let q: i128 = (axis.x as i128) * (axis.x as i128) + (axis.y as i128) * (axis.y as i128)
        + (axis.z as i128) * (axis.z as i128);
    let u: Vector3 = if q != (SCALE as i128) * (SCALE as i128) && q != 0 {
        Vector3Normalize(axis)
    } else {
        proof {
            assert(v3_bounded(axis, SCALE as int)) by (nonlinear_arith)
                requires
                    norm2(axis) == (SCALE as int) * (SCALE as int) || norm2(axis) == 0,
                    axis.x * axis.x <= norm2(axis),
                    axis.y * axis.y <= norm2(axis),
                    axis.z * axis.z <= norm2(axis),
                    SCALE == 1_000_000,
            ;
        }
        axis
    };
    let s: i64 = sin_fp(angle);
    let c: i64 = cos_fp(angle);
    let t: i64 = SCALE - c;
    Matrix {
        m0: rot_diag(u.x, t, c),
        m1: rot_off(u.y, u.x, t, u.z, s),
        m2: rot_off(u.z, u.x, t, -u.y, s),
        m3: 0,
        m4: rot_off(u.x, u.y, t, -u.z, s),
        m5: rot_diag(u.y, t, c),
        m6: rot_off(u.z, u.y, t, u.x, s),
        m7: 0,
        m8: rot_off(u.x, u.z, t, u.y, s),
        m9: rot_off(u.y, u.z, t, -u.x, s),
        m10: rot_diag(u.z, t, c),
        m11: 0,
        m12: 0,
        m13: 0,
        m14: 0,
        m15: SCALE,
    }
}

/// Rotating by a zero angle builds exactly the identity matrix, whatever
/// the axis: the degenerate zero-axis case included.
pub proof fn lemma_rotate_zero_is_identity(axis: Vector3)
    ensures
        rotate_spec(axis, 0) == identity_spec(),
{
    let u = rot_axis_spec(axis);
    assert(sin_poly(0) == 0) by {
        assert(0int * 0 * 0 == 0) by (nonlinear_arith);
        assert(tdiv(0, 6 * (SCALE as int) * (SCALE as int)) == 0);
    }
    assert(cos_poly(0) == SCALE as int) by {
        assert(0int * 0 == 0 && 0int * 0 * 0 * 0 == 0) by (nonlinear_arith);
        assert(tdiv(0, 2 * (SCALE as int)) == 0);
        assert(tdiv(0, 24 * (SCALE as int) * (SCALE as int) * (SCALE as int)) == 0);
    }
    lemma_rot_entries_at_zero(u.x as int, u.y as int, u.z as int);
    lemma_rot_entries_at_zero(u.y as int, u.z as int, u.x as int);
    lemma_rot_entries_at_zero(u.z as int, u.x as int, u.y as int);
}

/// With `t == 0` and `s == 0` each diagonal entry collapses to the cosine
/// and each off-diagonal entry to zero.
proof fn lemma_rot_entries_at_zero(a: int, b: int, u: int)
    ensures
        rot_diag_spec(a, 0, SCALE as int) == SCALE as int,
        rot_off_spec(a, b, 0, u, 0) == 0,
        rot_off_spec(a, b, 0, -u, 0) == 0,
{
    assert(a * a * 0 == 0 && a * b * 0 == 0) by (nonlinear_arith);
    assert(u * 0 * (SCALE as int) == 0 && (-u) * 0 * (SCALE as int) == 0) by (nonlinear_arith);
    assert(rot_raw_diag(a, 0, SCALE as int) == (SCALE as int) * (SCALE as int) * (SCALE as int))
        by (nonlinear_arith);
    lemma_tdiv_exact(SCALE as int, (SCALE as int) * (SCALE as int));
    assert((SCALE as int) * (SCALE as int) * (SCALE as int) == ((SCALE as int) * (SCALE as int))
        * (SCALE as int)) by (nonlinear_arith);
    assert(tdiv(0, (SCALE as int) * (SCALE as int)) == 0);
}

/// The square of the scale cubed: the squared length every unrounded
/// rotation column must have.
pub open spec fn scale_sixth() -> int {
    (SCALE as int) * (SCALE as int) * (SCALE as int) * (SCALE as int) * (SCALE as int) * (
    SCALE as int)
}

/// First column of the unrounded rotation matrix.
pub open spec fn rot_raw_col0(x: int, y: int, z: int, s: int, c: int) -> (int, int, int) {
    let t = (SCALE as int) - c;
    (rot_raw_diag(x, t, c), rot_raw_off(y, x, t, z, s), rot_raw_off(z, x, t, -y, s))
}

/// Second column of the unrounded rotation matrix.
pub open spec fn rot_raw_col1(x: int, y: int, z: int, s: int, c: int) -> (int, int, int) {
    let t = (SCALE as int) - c;
    (rot_raw_off(x, y, t, -z, s), rot_raw_diag(y, t, c), rot_raw_off(z, y, t, x, s))
}

/// Third column of the unrounded rotation matrix.
pub open spec fn rot_raw_col2(x: int, y: int, z: int, s: int, c: int) -> (int, int, int) {
    let t = (SCALE as int) - c;
    (rot_raw_off(x, z, t, y, s), rot_raw_off(y, z, t, -x, s), rot_raw_diag(z, t, c))
}

/// Dot product of two integer triples.
pub open spec fn dot3(u: (int, int, int), v: (int, int, int)) -> int {
    u.0 * v.0 + u.1 * v.1 + u.2 * v.2
}

/// The unrounded rotation matrix is orthogonal: for a unit axis and an
/// exact sine/cosine pair (both at scale), every column has squared length
/// `scale_sixth()` and distinct columns are perpendicular, so the
/// transpose is the inverse up to scaling. These columns are exactly what
/// `rotate_spec` rounds back to scale, entry by entry, through
/// `rot_diag_spec` and `rot_off_spec`.
pub proof fn lemma_rotation_orthogonal(x: int, y: int, z: int, s: int, c: int)
    requires
        x * x + y * y + z * z == (SCALE as int) * (SCALE as int),
        s * s + c * c == (SCALE as int) * (SCALE as int),
    ensures
        dot3(rot_raw_col0(x, y, z, s, c), rot_raw_col0(x, y, z, s, c)) == scale_sixth(),
        dot3(rot_raw_col1(x, y, z, s, c), rot_raw_col1(x, y, z, s, c)) == scale_sixth(),
        dot3(rot_raw_col2(x, y, z, s, c), rot_raw_col2(x, y, z, s, c)) == scale_sixth(),
        dot3(rot_raw_col0(x, y, z, s, c), rot_raw_col1(x, y, z, s, c)) == 0,
        dot3(rot_raw_col0(x, y, z, s, c), rot_raw_col2(x, y, z, s, c)) == 0,
        dot3(rot_raw_col1(x, y, z, s, c), rot_raw_col2(x, y, z, s, c)) == 0,
{
    let sig = SCALE as int;
    let t = sig - c;
    assert((-x) * s * sig == -(x * s * sig)) by (nonlinear_arith);
    assert((-y) * s * sig == -(y * s * sig)) by (nonlinear_arith);
    assert((-z) * s * sig == -(z * s * sig)) by (nonlinear_arith);
    assert((-z) * (-z) == z * z) by (nonlinear_arith);
    assert((-z) * y * t == -(z * y * t)) by (nonlinear_arith);
    // column norms: the first column directly, the second and third through
    // relabelled instances of the generic shape
    lemma_raw_col_norm(x, y, z, s, c);
    lemma_raw_col_norm(y, x, -z, s, c);
    lemma_square_of_negation(z * y * t + x * s * sig);
    lemma_raw_col_norm(z, x, y, s, c);
    // perpendicularity of the three column pairs
    lemma_raw_col_pair(x, y, z, s, c);
    lemma_raw_col_pair(y, z, x, s, c);
    lemma_raw_col_pair(z, x, y, s, c);
    // the third pair is read with the factors swapped
    lemma_mul_is_commutative(x * x * t + c * sig * sig, x * z * t + y * s * sig);
    lemma_mul_is_commutative(y * x * t + z * s * sig, y * z * t - x * s * sig);
    lemma_mul_is_commutative(z * x * t - y * s * sig, z * z * t + c * sig * sig);
}

/// Negating a scalar leaves its square unchanged.
proof fn lemma_square_of_negation(e: int)
    by (nonlinear_arith)
    ensures
        (-e) * (-e) == e * e,
{
}

/// A column of the unrounded rotation matrix, in the generic shape
/// `(a*a*t + c, b*a*t + d*s, d*a*t - b*s)` at scale, has squared length
/// `scale_sixth()` whenever `(a, b, d)` is a unit axis and `(s, c)` a unit
/// trigonometric pair.
#[verifier::rlimit(100)]
proof fn lemma_raw_col_norm(a: int, b: int, d: int, s: int, c: int)
    requires
        a * a + b * b + d * d == (SCALE as int) * (SCALE as int),
        s * s + c * c == (SCALE as int) * (SCALE as int),
    ensures
        ({
            let sig = SCALE as int;
            let t = sig - c;
            (a * a * t + c * sig * sig) * (a * a * t + c * sig * sig) + (b * a * t + d * s * sig)
                * (b * a * t + d * s * sig) + (d * a * t - b * s * sig) * (d * a * t - b * s * sig)
        }) == scale_sixth(),
{
    let sig = SCALE as int;
    let t = sig - c;
    // expand the three squares
    assert((a * a * t + c * sig * sig) * (a * a * t + c * sig * sig) == (a * a * t) * (a * a * t)
        + 2 * ((a * a * t) * (c * sig * sig)) + (c * sig * sig) * (c * sig * sig))
        by (nonlinear_arith);
    assert((b * a * t + d * s * sig) * (b * a * t + d * s * sig) == (b * a * t) * (b * a * t) + 2
        * ((b * a * t) * (d * s * sig)) + (d * s * sig) * (d * s * sig)) by (nonlinear_arith);
    assert((d * a * t - b * s * sig) * (d * a * t - b * s * sig) == (d * a * t) * (d * a * t) - 2
        * ((d * a * t) * (b * s * sig)) + (b * s * sig) * (b * s * sig)) by (nonlinear_arith);
    // the two mixed terms cancel
    assert((b * a * t) * (d * s * sig) == (d * a * t) * (b * s * sig)) by (nonlinear_arith);
    // regroup each remaining monomial
    assert((a * a * t) * (a * a * t) == (a * a) * (t * t) * (a * a)) by (nonlinear_arith);
    assert((b * a * t) * (b * a * t) == (a * a) * (t * t) * (b * b)) by (nonlinear_arith);
    assert((d * a * t) * (d * a * t) == (a * a) * (t * t) * (d * d)) by (nonlinear_arith);
    lemma_mul_is_distributive_add((a * a) * (t * t), a * a + b * b, d * d);
    lemma_mul_is_distributive_add((a * a) * (t * t), a * a, b * b);
    assert((a * a) * (t * t) * (a * a + b * b + d * d) == (a * a) * (t * t) * (sig * sig));
    assert((a * a) * (t * t) * (sig * sig) == (a * a) * (sig * sig) * (t * t))
        by (nonlinear_arith);
    assert(2 * ((a * a * t) * (c * sig * sig)) == (a * a) * (sig * sig) * (2 * (t * c)))
        by (nonlinear_arith);
    assert((c * sig * sig) * (c * sig * sig) == (sig * sig) * (sig * sig) * (c * c))
        by (nonlinear_arith);
    assert((d * s * sig) * (d * s * sig) == (s * s) * (sig * sig) * (d * d)) by (nonlinear_arith);
    assert((b * s * sig) * (b * s * sig) == (s * s) * (sig * sig) * (b * b)) by (nonlinear_arith);
    lemma_mul_is_distributive_add((s * s) * (sig * sig), d * d, b * b);
    assert(d * d + b * b == sig * sig - (a * a));
    lemma_mul_is_distributive_sub((s * s) * (sig * sig), sig * sig, a * a);
    assert((s * s) * (sig * sig) * (sig * sig) == (sig * sig) * (sig * sig) * (s * s))
        by (nonlinear_arith);
    assert((s * s) * (sig * sig) * (a * a) == (a * a) * (sig * sig) * (s * s))
        by (nonlinear_arith);
    // the axis-dependent group vanishes
    lemma_mul_is_distributive_add((a * a) * (sig * sig), t * t, 2 * (t * c));
    lemma_mul_is_distributive_sub((a * a) * (sig * sig), t * t + 2 * (t * c), s * s);
    assert(t * t + 2 * (t * c) - s * s == 0) by (nonlinear_arith)
        requires
            t == sig - c,
            s * s + c * c == sig * sig,
    ;
    assert((a * a) * (sig * sig) * (t * t + 2 * (t * c) - s * s) == (a * a) * (sig * sig) * 0);
    lemma_mul_basics((a * a) * (sig * sig));
    // the axis-independent group is the sixth power of the scale
    lemma_mul_is_distributive_add((sig * sig) * (sig * sig), c * c, s * s);
    assert((sig * sig) * (sig * sig) * (c * c + s * s) == (sig * sig) * (sig * sig) * (sig * sig));
    assert((sig * sig) * (sig * sig) * (sig * sig) == scale_sixth()) by (nonlinear_arith)
        requires
            sig == SCALE as int,
    ;
}

/// Two distinct columns of the unrounded rotation matrix, in the generic
/// shapes `(a*a*t + c, b*a*t + d*s, d*a*t - b*s)` and
/// `(a*b*t - d*s, b*b*t + c, d*b*t + a*s)` at scale, are perpendicular
/// whenever `(a, b, d)` is a unit axis and `(s, c)` a unit trigonometric
/// pair.
#[verifier::rlimit(100)]
proof fn lemma_raw_col_pair(a: int, b: int, d: int, s: int, c: int)
    requires
        a * a + b * b + d * d == (SCALE as int) * (SCALE as int),
        s * s + c * c == (SCALE as int) * (SCALE as int),
    ensures
        ({
            let sig = SCALE as int;
            let t = sig - c;
            (a * a * t + c * sig * sig) * (a * b * t - d * s * sig) + (b * a * t + d * s * sig) * (
            b * b * t + c * sig * sig) + (d * a * t - b * s * sig) * (d * b * t + a * s * sig)
        }) == 0,
{
    let sig = SCALE as int;
    let t = sig - c;
    // expand the three entry products
    assert((a * a * t + c * sig * sig) * (a * b * t - d * s * sig) == (a * a * t) * (a * b * t) - (
    a * a * t) * (d * s * sig) + (c * sig * sig) * (a * b * t) - (c * sig * sig) * (d * s * sig))
        by (nonlinear_arith);
    assert((b * a * t + d * s * sig) * (b * b * t + c * sig * sig) == (b * a * t) * (b * b * t) + (
    b * a * t) * (c * sig * sig) + (d * s * sig) * (b * b * t) + (d * s * sig) * (c * sig * sig))
        by (nonlinear_arith);
    assert((d * a * t - b * s * sig) * (d * b * t + a * s * sig) == (d * a * t) * (d * b * t) + (d
        * a * t) * (a * s * sig) - (b * s * sig) * (d * b * t) - (b * s * sig) * (a * s * sig))
        by (nonlinear_arith);
    // three pairs of mixed terms cancel
    assert((a * a * t) * (d * s * sig) == (d * a * t) * (a * s * sig)) by (nonlinear_arith);
    assert((c * sig * sig) * (d * s * sig) == (d * s * sig) * (c * sig * sig))
        by (nonlinear_arith);
    assert((d * s * sig) * (b * b * t) == (b * s * sig) * (d * b * t)) by (nonlinear_arith);
    // regroup the remaining monomials
    assert((a * a * t) * (a * b * t) == (a * b) * (t * t) * (a * a)) by (nonlinear_arith);
    assert((b * a * t) * (b * b * t) == (a * b) * (t * t) * (b * b)) by (nonlinear_arith);
    assert((d * a * t) * (d * b * t) == (a * b) * (t * t) * (d * d)) by (nonlinear_arith);
    lemma_mul_is_distributive_add((a * b) * (t * t), a * a + b * b, d * d);
    lemma_mul_is_distributive_add((a * b) * (t * t), a * a, b * b);
    assert((a * b) * (t * t) * (a * a + b * b + d * d) == (a * b) * (t * t) * (sig * sig));
    assert((a * b) * (t * t) * (sig * sig) == (a * b) * (sig * sig) * (t * t))
        by (nonlinear_arith);
    assert((c * sig * sig) * (a * b * t) + (b * a * t) * (c * sig * sig) == (a * b) * (sig * sig)
        * (2 * (t * c))) by (nonlinear_arith);
    assert((b * s * sig) * (a * s * sig) == (a * b) * (sig * sig) * (s * s)) by (nonlinear_arith);
    // the whole sum is the vanishing factor times the squared axis length
    lemma_mul_is_distributive_add((a * b) * (sig * sig), t * t, 2 * (t * c));
    lemma_mul_is_distributive_sub((a * b) * (sig * sig), t * t + 2 * (t * c), s * s);
    assert(t * t + 2 * (t * c) - s * s == 0) by (nonlinear_arith)
        requires
            t == sig - c,
            s * s + c * c == sig * sig,
    ;
    assert((a * b) * (sig * sig) * (t * t + 2 * (t * c) - s * s) == (a * b) * (sig * sig) * 0);
    lemma_mul_basics((a * b) * (sig * sig));
}

/// Transforming any vector by the identity matrix returns it unchanged.
pub proof fn lemma_transform_identity(v: Vector3)
    ensures
        transform_spec(v, identity_spec()) == v,
{
    let m = identity_spec();
    assert((SCALE as int) * v.x + 0 * v.y + 0 * v.z == (SCALE as int) * v.x) by (nonlinear_arith);
    assert(0 * v.x + (SCALE as int) * v.y + 0 * v.z == (SCALE as int) * v.y) by (nonlinear_arith);
    assert(0 * v.x + 0 * v.y + (SCALE as int) * v.z == (SCALE as int) * v.z) by (nonlinear_arith);
    lemma_tdiv_exact(v.x as int, SCALE as int);
    lemma_tdiv_exact(v.y as int, SCALE as int);
    lemma_tdiv_exact(v.z as int, SCALE as int);
}

} // verus!
