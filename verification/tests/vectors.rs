use sylt::fixed::{div_trunc_i64, isqrt, isqrt_ceil, mul_div_i64, SCALE};
use sylt::vec3::{distance, Vec2, Vec3};

#[test]
fn isqrt_small_values() {
    assert_eq!(isqrt(0), 0);
    assert_eq!(isqrt(1), 1);
    assert_eq!(isqrt(3), 1);
    assert_eq!(isqrt(4), 2);
    assert_eq!(isqrt(10), 3);
    assert_eq!(isqrt(999_999), 999);
    assert_eq!(isqrt(1_000_000), 1000);
}

#[test]
fn isqrt_ceil_values() {
    assert_eq!(isqrt_ceil(0), 0);
    assert_eq!(isqrt_ceil(1), 1);
    assert_eq!(isqrt_ceil(2), 2);
    assert_eq!(isqrt_ceil(4), 2);
    assert_eq!(isqrt_ceil(5), 3);
}

#[test]
fn mul_div_rounds_toward_zero() {
    assert_eq!(mul_div_i64(7, 3, 2), 10);
    assert_eq!(mul_div_i64(-7, 3, 2), -10);
    assert_eq!(mul_div_i64(7, -3, 2), -10);
    assert_eq!(mul_div_i64(-7, -3, 2), 10);
    assert_eq!(div_trunc_i64(-9, 2), -4);
    assert_eq!(div_trunc_i64(9, 2), 4);
}

#[test]
fn distance_is_euclidean_floor() {
    let a = Vec3 { x: 0, y: 0, z: 0 };
    let b = Vec3 { x: 3 * SCALE, y: 4 * SCALE, z: 0 };
    assert_eq!(distance(a, b), 5 * SCALE);
    let c = Vec3 { x: SCALE, y: SCALE, z: 0 };
    assert_eq!(distance(a, c), 1_414_213);
}

#[test]
fn normalize_or_zero_keeps_zero_at_zero() {
    let z = Vec3 { x: 0, y: 0, z: 0 };
    let n = z.normalize_or_zero();
    assert_eq!((n.x, n.y, n.z), (0, 0, 0));
    let v = Vec3 { x: 2 * SCALE, y: 0, z: 0 };
    let u = v.normalize_or_zero();
    assert_eq!((u.x, u.y, u.z), (SCALE, 0, 0));
}

#[test]
fn rescale_caps_the_norm() {
    let v = Vec3 { x: 3 * SCALE, y: 4 * SCALE, z: 0 };
    let r = v.rescale_or_zero(SCALE);
    let nsq = (r.x as i128) * (r.x as i128) + (r.y as i128) * (r.y as i128);
    assert!(nsq <= (SCALE as i128) * (SCALE as i128));
    assert!(r.x > 0 && r.y > 0);
}

#[test]
fn vec2_length_matches_norm() {
    let v = Vec2 { x: 3 * SCALE, y: 4 * SCALE };
    assert_eq!(v.length(), 5 * SCALE);
}
