use rs_cpurenderer::fixed::Fixed;
use rs_cpurenderer::math::{Vec2, Vec3, Vec4};

fn fx(v: f64) -> Fixed {
    Fixed::from_raw((v * 65536.0) as i32)
}

fn v2(x: f64, y: f64) -> Vec2 {
    Vec2::new(fx(x), fx(y))
}

fn v3(x: f64, y: f64, z: f64) -> Vec3 {
    Vec3::new(fx(x), fx(y), fx(z))
}

fn v4(x: f64, y: f64, z: f64, w: f64) -> Vec4 {
    Vec4::new(fx(x), fx(y), fx(z), fx(w))
}

#[test]
fn vector_new() {
    let v2 = Vec2::new(fx(1.0), fx(2.0));
    assert_eq!(v2.x, fx(1.0));
    assert_eq!(v2.y, fx(2.0));

    let v3 = Vec3::new(fx(1.0), fx(2.0), fx(3.0));
    assert_eq!(v3.x, fx(1.0));
    assert_eq!(v3.y, fx(2.0));
    assert_eq!(v3.z, fx(3.0));

    let v4 = Vec4::new(fx(1.0), fx(2.0), fx(3.0), fx(0.5));
    assert_eq!(v4.x, fx(1.0));
    assert_eq!(v4.y, fx(2.0));
    assert_eq!(v4.z, fx(3.0));
    assert_eq!(v4.w, fx(0.5));
}

#[test]
fn vector_eq() {
    let v1 = Vec2::new(fx(1.0), fx(2.0));
    let v2 = Vec2::new(fx(2.0), fx(3.0));
    let v3 = Vec2::new(fx(2.0), fx(3.0));
    assert_ne!(v1, v2);
    assert_eq!(v2, v3);
}

#[test]
fn vector2_math_algorithm() {
    let v1 = v2(1.0, 2.0);
    let v2_ = v2(4.0, 6.0);

    assert_eq!(v1 + v2_, v2(5.0, 8.0));
    assert_eq!(v1 - v2_, v2(-3.0, -4.0));
    assert_eq!(v1 * v2_, v2(4.0, 12.0));
    assert_eq!(v1 / v2_, v2(0.25, 2.0 / 6.0));
    assert_eq!(v1 * fx(3.0), v2(3.0, 6.0));
    assert_eq!(v1 / fx(2.0), v2(0.5, 1.0));
    assert_eq!(fx(3.0) * v1, v2(3.0, 6.0));
    assert_eq!(v1.length_square(), fx(5.0));
    assert_eq!(v1.length(), fx(5.0f32.sqrt() as f64));
    assert_eq!(v1.cross(&v2_), fx(-2.0));
    assert_eq!(v1.dot(&v2_), fx(16.0));
    assert_eq!(v1.normalize(), v1 / v1.length());
}

#[test]
fn vector3_math_algorithm() {
    let v1 = v3(1.0, 2.0, 3.0);
    let v2 = v3(4.0, 6.0, 8.0);

    assert_eq!(v1 + v2, v3(5.0, 8.0, 11.0));
    assert_eq!(v1 - v2, v3(-3.0, -4.0, -5.0));
    assert_eq!(v1 * v2, v3(4.0, 12.0, 24.0));
    assert_eq!(v1 / v2, v3(0.25, 2.0 / 6.0, 3.0 / 8.0));
    assert_eq!(v1 * fx(3.0), v3(3.0, 6.0, 9.0));
    assert_eq!(v1 / fx(2.0), v3(0.5, 1.0, 1.5));
    assert_eq!(fx(3.0) * v1, v3(3.0, 6.0, 9.0));
    assert_eq!(v1.length_square(), fx(14.0));
    assert_eq!(v1.length(), v1.length_square().sqrt());
    assert_eq!(v1.cross(&v2), v3(-2.0, 4.0, -2.0));
    assert_eq!(v1.dot(&v2), fx(40.0));
    assert_eq!(v1.normalize(), v1 / v1.length());
}

#[test]
fn vector4_math_algorithm() {
    let v1 = v4(1.0, 2.0, 3.0, 2.0);
    let v2 = v4(4.0, 6.0, 8.0, 3.0);

    assert_eq!(v1 + v2, v4(5.0, 8.0, 11.0, 5.0));
    assert_eq!(v1 - v2, v4(-3.0, -4.0, -5.0, -1.0));
    assert_eq!(v1 * v2, v4(4.0, 12.0, 24.0, 6.0));
    assert_eq!(v1 / v2, v4(0.25, 2.0 / 6.0, 3.0 / 8.0, 2.0 / 3.0));
    assert_eq!(v1 * fx(3.0), v4(3.0, 6.0, 9.0, 6.0));
    assert_eq!(v1 / fx(2.0), v4(0.5, 1.0, 1.5, 1.0));
    assert_eq!(fx(3.0) * v1, v4(3.0, 6.0, 9.0, 6.0));
    assert_eq!(v1.length_square(), fx(18.0));
    assert_eq!(v1.length(), v1.length_square().sqrt());
    assert_eq!(v1.dot(&v2), fx(46.0));
    assert_eq!(v1.normalize(), v1 / v1.length());
}

#[test]
fn vector_negation_and_truncation() {
    assert_eq!(-v3(1.0, -2.0, 0.5), v3(-1.0, 2.0, -0.5));
    let v = v4(1.0, 2.0, 3.0, 4.0);
    assert_eq!(v.truncated_to_vec3(), v3(1.0, 2.0, 3.0));
    assert_eq!(v.truncated_to_vec2(), v2(1.0, 2.0));
    assert_eq!(Vec4::from_vec3(&v3(1.0, 2.0, 3.0), fx(4.0)), v);
    assert_eq!(Vec3::from_vec2(&v2(1.0, 2.0), fx(3.0)), v3(1.0, 2.0, 3.0));
}

#[test]
fn vector_axes() {
    assert_eq!(Vec2::x_axis(), v2(1.0, 0.0));
    assert_eq!(Vec2::y_axis(), v2(0.0, 1.0));
    assert_eq!(Vec3::x_axis(), v3(1.0, 0.0, 0.0));
    assert_eq!(Vec3::y_axis(), v3(0.0, 1.0, 0.0));
    assert_eq!(Vec3::z_axis(), v3(0.0, 0.0, 1.0));
    assert_eq!(Vec3::x_axis().cross(&Vec3::y_axis()), Vec3::z_axis());
    assert_eq!(Vec2::default(), Vec2::zero());
}

#[test]
fn scalar_under_vector() {
    assert_eq!(fx(6.0) / v3(1.0, 2.0, 3.0), v3(6.0, 3.0, 2.0));
}
