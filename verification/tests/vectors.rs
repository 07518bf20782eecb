//! Vector kernel checks: exact values and the normalization property.

use raytracer::fixed::ONE;
use raytracer::vec3::Vec3;

#[test]
fn componentwise_ops() {
    let a = Vec3::new(ONE, 2 * ONE, 3 * ONE);
    let b = Vec3::new(3 * ONE, 2 * ONE, ONE);
    assert_eq!(a.add_v(&b), Vec3::new(4 * ONE, 4 * ONE, 4 * ONE));
    assert_eq!(a.sub_v(&b), Vec3::new(-2 * ONE, 0, 2 * ONE));
    assert_eq!(a.neg_v(), Vec3::new(-ONE, -2 * ONE, -3 * ONE));
    assert_eq!(a.scale(2 * ONE), Vec3::new(2 * ONE, 4 * ONE, 6 * ONE));
    assert_eq!(a.mul_v(&b), Vec3::new(3 * ONE, 4 * ONE, 3 * ONE));
    assert_eq!(a.div_scalar(2 * ONE), Vec3::new(32768, ONE, 98304));
}

#[test]
fn dot_and_cross_exact() {
    let a = Vec3::new(ONE, 2 * ONE, 3 * ONE);
    let b = Vec3::new(3 * ONE, 2 * ONE, ONE);
    // 1*3 + 2*2 + 3*1 = 10
    assert_eq!(a.dot(&b), 10 * ONE);
    // (2*1-3*2, 3*3-1*1, 1*2-2*3) = (-4, 8, -4)
    assert_eq!(a.cross(&b), Vec3::new(-4 * ONE, 8 * ONE, -4 * ONE));
    // The cross product of a vector with itself vanishes.
    assert_eq!(a.cross(&a), Vec3::new(0, 0, 0));
}

#[test]
fn length_exact() {
    let v = Vec3::new(3 * ONE, 4 * ONE, 0);
    assert_eq!(v.squared_length(), 25 * ONE);
    assert_eq!(v.length(), 5 * ONE);
    assert_eq!(Vec3::new(0, 0, 0).length(), 0);
}

#[test]
fn unit_vector_axis_exact() {
    let v = Vec3::new(0, 7 * ONE, 0);
    assert_eq!(v.unit_vector(), Vec3::new(0, ONE, 0));
    let w = Vec3::new(-5 * ONE, 0, 0);
    assert_eq!(w.unit_vector(), Vec3::new(-ONE, 0, 0));
}

#[test]
fn unit_vector_length_near_one() {
    // |unit_vector(v)| must be 1 up to truncation, for assorted nonzero v.
    let cases: [Vec3; 6] = [
        Vec3::new(ONE, ONE, ONE),
        Vec3::new(3 * ONE, 4 * ONE, 12 * ONE),
        Vec3::new(-2 * ONE, 5 * ONE, -7 * ONE),
        Vec3::new(851968, 131072, 196608),
        Vec3::new(1, 2, 65536),
        Vec3::new(123456789, -987654321, 1928374655),
    ];
    for v in cases.iter() {
        let l: i64 = v.unit_vector().length();
        assert!(l >= ONE - 4, "length {} too small for {:?}", l, v);
        assert!(l <= ONE, "length {} too large for {:?}", l, v);
    }
}

#[test]
fn zero_vector_normalizes_to_zero() {
    assert_eq!(Vec3::new(0, 0, 0).unit_vector(), Vec3::new(0, 0, 0));
}
