use donkey::fixed::{isqrt, mul_fp};
use donkey::matrix::{cos_fp, sin_fp, MatrixRotate, MatrixZero};
use donkey::vector3::{
    Vector3, Vector3Add, Vector3CrossProduct, Vector3Distance, Vector3DotProduct,
    Vector3Normalize, Vector3Subtract, Vector3Transform,
};

#[test]
fn add_then_subtract_recovers_the_first_operand() {
    let a = Vector3::new(1_500_000, -2_750_000, 333);
    let b = Vector3::new(-40_000_000, 123_456, 7_000_000);
    let sum = Vector3Add(a, b);
    let back = Vector3Subtract(sum, b);
    assert_eq!(back, a);
}

#[test]
fn add_is_componentwise() {
    let a = Vector3::new(1_000_000, 2_000_000, -3_000_000);
    let b = Vector3::new(10, -20, 30);
    assert_eq!(Vector3Add(a, b), Vector3::new(1_000_010, 1_999_980, -2_999_970));
}

#[test]
fn matrix_zero_is_all_zero() {
    let m = MatrixZero();
    assert_eq!(m.m0, 0);
    assert_eq!(m.m5, 0);
    assert_eq!(m.m10, 0);
    assert_eq!(m.m15, 0);
    assert_eq!(m.m12, 0);
}

#[test]
fn rotate_by_zero_angle_is_identity() {
    let axis = Vector3::new(0, 1_000_000, 0);
    let m = MatrixRotate(axis, 0);
    assert_eq!(m.m0, 1_000_000);
    assert_eq!(m.m5, 1_000_000);
    assert_eq!(m.m10, 1_000_000);
    assert_eq!(m.m15, 1_000_000);
    assert_eq!(m.m1, 0);
    assert_eq!(m.m2, 0);
    assert_eq!(m.m4, 0);
    assert_eq!(m.m6, 0);
    assert_eq!(m.m8, 0);
    assert_eq!(m.m9, 0);
    assert_eq!(m.m12, 0);
    assert_eq!(m.m13, 0);
    assert_eq!(m.m14, 0);

    // the degenerate zero axis also yields the identity at angle zero
    let mz = MatrixRotate(Vector3::new(0, 0, 0), 0);
    assert_eq!(mz.m0, 1_000_000);
    assert_eq!(mz.m5, 1_000_000);
    assert_eq!(mz.m10, 1_000_000);
    assert_eq!(mz.m1, 0);
}

#[test]
fn transform_by_identity_returns_the_vector() {
    let m = MatrixRotate(Vector3::new(0, 0, 1_000_000), 0);
    let v = Vector3::new(123_456_789, -987_654_321, 5);
    assert_eq!(Vector3Transform(v, m), v);
}

#[test]
fn rotation_approximately_preserves_length() {
    // a tenth of a radian about the y axis applied to a unit x vector
    let m = MatrixRotate(Vector3::new(0, 1_000_000, 0), 100_000);
    let v = Vector3::new(1_000_000, 0, 0);
    let r = Vector3Transform(v, m);
    let len = Vector3Distance(r, Vector3::new(0, 0, 0));
    assert!((len - 1_000_000).abs() < 10, "length drifted: {len}");
}

#[test]
fn normalize_three_four_five() {
    let v = Vector3Normalize(Vector3::new(3_000_000, 4_000_000, 0));
    assert_eq!(v, Vector3::new(600_000, 800_000, 0));
}

#[test]
fn distance_three_four_five() {
    let a = Vector3::new(0, 0, 0);
    let b = Vector3::new(3_000_000, 4_000_000, 0);
    assert_eq!(Vector3Distance(a, b), 5_000_000);
}

#[test]
fn cross_product_of_axes() {
    let x = Vector3::new(1_000_000, 0, 0);
    let y = Vector3::new(0, 1_000_000, 0);
    assert_eq!(Vector3CrossProduct(x, y), Vector3::new(0, 0, 1_000_000));
}

#[test]
fn dot_product_picks_the_aligned_component() {
    let a = Vector3::new(1_000_000, 2_000_000, 3_000_000);
    let x = Vector3::new(1_000_000, 0, 0);
    assert_eq!(Vector3DotProduct(a, x), 1_000_000);
}

#[test]
fn fixed_point_products_truncate_toward_zero() {
    assert_eq!(mul_fp(1_500_000, 1_500_000), 2_250_000);
    assert_eq!(mul_fp(-1_500_000, 1_500_000), -2_250_000);
    assert_eq!(mul_fp(1, 1), 0);
    assert_eq!(mul_fp(-1, 1), 0);
}

#[test]
fn integer_square_roots() {
    assert_eq!(isqrt(0), 0);
    assert_eq!(isqrt(3), 1);
    assert_eq!(isqrt(4), 2);
    assert_eq!(isqrt(100_000_000_000_000), 10_000_000);
    assert_eq!(isqrt(99_999_999_999_999), 9_999_999);
}

#[test]
fn small_angle_sine_and_cosine() {
    assert_eq!(sin_fp(0), 0);
    assert_eq!(cos_fp(0), 1_000_000);
    assert_eq!(sin_fp(100_000), 99_834);
    assert_eq!(cos_fp(100_000), 995_004);
    assert_eq!(sin_fp(-100_000), -99_834);
}
