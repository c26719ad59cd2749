use raytracer::fixed::{fdiv, fmul, fsqrt, sadd, sneg, ssub, to_fixed, SCALE};
use raytracer::ray::Ray;
use raytracer::rng::RngState;
use raytracer::vec3::Vec3;

#[test]
fn fmul_whole_numbers_exact() {
    assert_eq!(fmul(2 * SCALE, 3 * SCALE), 6 * SCALE);
    assert_eq!(fmul(-2 * SCALE, 3 * SCALE), -6 * SCALE);
    assert_eq!(fmul(-2 * SCALE, -3 * SCALE), 6 * SCALE);
}

#[test]
fn fmul_truncates_toward_zero() {
    // (1/65536)^2 is far below one representable step.
    assert_eq!(fmul(1, 1), 0);
    assert_eq!(fmul(-1, 1), 0);
}

#[test]
fn fmul_saturates() {
    assert_eq!(fmul(i64::MAX, 2 * SCALE), i64::MAX);
    assert_eq!(fmul(i64::MIN, 2 * SCALE), i64::MIN);
}

#[test]
fn fdiv_halves_exactly() {
    assert_eq!(fdiv(SCALE, 2 * SCALE), SCALE / 2);
    assert_eq!(fdiv(-SCALE, 2 * SCALE), -(SCALE / 2));
}

#[test]
fn fsqrt_perfect_squares() {
    assert_eq!(fsqrt(0), 0);
    assert_eq!(fsqrt(SCALE), SCALE);
    assert_eq!(fsqrt(4 * SCALE), 2 * SCALE);
}

#[test]
fn fsqrt_of_two() {
    // floor(sqrt(2) * 65536) = 92681
    assert_eq!(fsqrt(2 * SCALE), 92681);
}

#[test]
fn saturating_scalar_ops() {
    assert_eq!(sadd(i64::MAX, 1), i64::MAX);
    assert_eq!(ssub(i64::MIN, 1), i64::MIN);
    assert_eq!(sneg(i64::MIN), i64::MAX);
    assert_eq!(sadd(5, 7), 12);
    assert_eq!(to_fixed(3), 3 * SCALE);
    assert_eq!(to_fixed(-3), -3 * SCALE);
}

#[test]
fn dot_product_known_value() {
    let a = Vec3::new(SCALE, 2 * SCALE, 3 * SCALE);
    let b = Vec3::new(4 * SCALE, 5 * SCALE, 6 * SCALE);
    assert_eq!(a.dot(b), 32 * SCALE);
}

#[test]
fn length_of_three_four_zero() {
    let v = Vec3::new(3 * SCALE, 4 * SCALE, 0);
    assert_eq!(v.length(), 5 * SCALE);
}

#[test]
fn unit_of_zero_three_four() {
    let v = Vec3::new(0, 3 * SCALE, 4 * SCALE);
    let u = v.unit();
    // 3/5 and 4/5 in fixed point, truncated toward zero.
    assert_eq!(u, Vec3::new(0, 39321, 52428));
}

#[test]
fn unit_of_zero_vector_is_zero() {
    assert_eq!(Vec3::zero().unit(), Vec3::zero());
}

#[test]
fn cross_of_axes() {
    let x = Vec3::new(SCALE, 0, 0);
    let y = Vec3::new(0, SCALE, 0);
    assert_eq!(x.cross(y), Vec3::new(0, 0, SCALE));
    assert_eq!(y.cross(x), Vec3::new(0, 0, -SCALE));
}

#[test]
fn vector_arithmetic() {
    let a = Vec3::new(SCALE, 2 * SCALE, 3 * SCALE);
    let b = Vec3::new(SCALE, SCALE, SCALE);
    assert_eq!(a.plus(b), Vec3::new(2 * SCALE, 3 * SCALE, 4 * SCALE));
    assert_eq!(a.minus(b), Vec3::new(0, SCALE, 2 * SCALE));
    assert_eq!(a.scaled(2 * SCALE), Vec3::new(2 * SCALE, 4 * SCALE, 6 * SCALE));
    assert_eq!(a.hadamard(b), a);
    assert_eq!(a.neg(), Vec3::new(-SCALE, -2 * SCALE, -3 * SCALE));
    assert_eq!(a.divided(2 * SCALE), Vec3::new(SCALE / 2, SCALE, 3 * SCALE / 2));
}

#[test]
fn ray_point_at() {
    let r = Ray::new(Vec3::new(SCALE, 0, 0), Vec3::new(0, 0, SCALE));
    assert_eq!(r.point_at(2 * SCALE), Vec3::new(SCALE, 0, 2 * SCALE));
}

#[test]
fn rng_same_seed_same_stream() {
    let mut a = RngState::new(42);
    let mut b = RngState::new(42);
    for _ in 0..100 {
        assert_eq!(a.next(), b.next());
    }
}

#[test]
fn rng_zero_seed_is_replaced() {
    let z = RngState::new(0);
    assert_ne!(z.s, 0);
    let mut z2 = RngState::new(0);
    // the stream still advances
    let first = z2.next();
    assert_ne!(first, z.s);
}

#[test]
fn rng_unit_frac_in_range() {
    let mut r = RngState::new(7);
    for _ in 0..1000 {
        let f = r.unit_frac();
        assert!(0 <= f && f < SCALE);
    }
}
