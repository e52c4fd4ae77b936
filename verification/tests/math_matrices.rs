use rs_cpurenderer::fixed::Fixed;
use rs_cpurenderer::math::{
    create_eular_rotate_x, create_eular_rotate_xyz, create_eular_rotate_y, create_eular_rotate_z,
    create_scale, create_translate, lerp, reflect, rotate_by_axis_rodrigues, Mat2, Mat3, Mat4,
    Quaternion, Vec2, Vec3, Vec4,
};

fn fx(v: f64) -> Fixed {
    Fixed::from_raw((v * 65536.0) as i32)
}

fn m2(d: [f64; 4]) -> Mat2 {
    Mat2::from_row(&d.map(fx))
}

fn m3(d: [f64; 9]) -> Mat3 {
    Mat3::from_row(&d.map(fx))
}

fn m4(d: [f64; 16]) -> Mat4 {
    Mat4::from_row(&d.map(fx))
}

fn close(a: Fixed, b: f64, raw_units: i64) -> bool {
    (a.raw as i64 - (b * 65536.0) as i64).abs() <= raw_units
}

#[test]
fn mat_math_algorithm() {
    let m1 = m4([
        1., 2., 3., 4., 5., 6., 7., 8., 9., 10., 11., 12., 13., 14., 15., 16.,
    ]);
    let m2 = m4([
        2., 1., 4., 3., 8., 7., 1., 9., 0., 6., 5., 2., 8., 9., 4., 3.,
    ]);

    let result = m1 * m2;

    let check_result = m4([
        50., 69., 37., 39., 122., 161., 93., 107., 194., 253., 149., 175., 266., 345., 205.,
        243.,
    ]);
    assert_eq!(result, check_result);
}

#[test]
fn identity_leaves_vectors_and_matrices() {
    let v = Vec4::new(fx(1.5), fx(-2.0), fx(0.25), fx(1.0));
    assert_eq!(Mat4::identity() * v, v);
    let m = m3([1., 2., 3., 4., 5., 6., 7., 8., 10.]);
    assert_eq!(Mat3::identity() * m, m);
    assert_eq!(m * Mat3::identity(), m);
    assert_eq!(Mat2::identity() * Vec2::new(fx(3.0), fx(4.0)), Vec2::new(fx(3.0), fx(4.0)));
    let extreme = Vec3::new(Fixed::min_value(), Fixed::max_value(), Fixed::zero());
    assert_eq!(Mat3::identity() * extreme, extreme);
}

#[test]
fn get_set_and_layout() {
    let mut m = Mat3::zeros();
    m.set(2, 1, fx(5.0));
    assert_eq!(m.get(2, 1), fx(5.0));
    assert_eq!(m.data[2 + 1 * 3], fx(5.0));
    let rows = m3([1., 2., 3., 4., 5., 6., 7., 8., 9.]);
    assert_eq!(rows.get(1, 0), fx(2.0));
    assert_eq!(rows.get(0, 1), fx(4.0));
    let cols = Mat3::from_col(&[1., 2., 3., 4., 5., 6., 7., 8., 9.].map(fx));
    assert_eq!(cols, rows.transpose());
    assert_eq!(Mat2::ones(), m2([1., 1., 1., 1.]));
    assert_eq!(rows.transpose().transpose(), rows);
}

#[test]
fn matrix_times_vector_is_row_times_column() {
    let m = m3([1., 2., 3., 4., 5., 6., 7., 8., 9.]);
    let v = Vec3::new(fx(1.0), fx(0.0), fx(-1.0));
    assert_eq!(m * v, Vec3::new(fx(-2.0), fx(-2.0), fx(-2.0)));
}

#[test]
fn scaling_a_matrix() {
    let m = m2([1., 2., 3., 4.]);
    assert_eq!(m * fx(2.0), m2([2., 4., 6., 8.]));
    assert_eq!(m / fx(2.0), m2([0.5, 1., 1.5, 2.]));
}

#[test]
fn determinants() {
    assert_eq!(m2([1., 2., 3., 4.]).det(), fx(-2.0));
    assert_eq!(m3([2., 0., 0., 0., 3., 0., 0., 0., 4.]).det(), fx(24.0));
    assert_eq!(m3([1., 2., 3., 4., 5., 6., 7., 8., 10.]).det(), fx(-3.0));
    assert_eq!(m3([1., 2., 3., 4., 5., 6., 7., 8., 9.]).det(), fx(0.0));
    let m = m4([2., 0., 0., 0., 0., 3., 0., 0., 0., 0., 4., 0., 0., 0., 0., 5.]);
    assert_eq!(m.det(), fx(120.0));
    let t = m4([1., 0., 0., 5., 0., 1., 0., 6., 0., 0., 1., 7., 0., 0., 0., 1.]);
    assert_eq!(t.det(), fx(1.0));
}

#[test]
fn inverse_of_mat2() {
    let m = m2([4., 7., 2., 6.]);
    let inv = m.inverse().unwrap();
    // det = 10
    assert_eq!(inv, m2([0.6, -0.7, -0.2, 0.4]));
    assert!(m2([1., 2., 2., 4.]).inverse().is_none());
}

#[test]
fn inverse_of_mat3() {
    let m = m3([2., 0., 0., 0., 4., 0., 0., 0., 8.]);
    assert_eq!(m.inverse().unwrap(), m3([0.5, 0., 0., 0., 0.25, 0., 0., 0., 0.125]));
    // a matrix with no zero entry: the product with its inverse is the identity
    let m = m3([1., 2., 3., 0., 1., 4., 5., 6., 0.]);
    let inv = m.inverse().unwrap();
    assert_eq!(inv, m3([-24., 18., 5., 20., -15., -4., -5., 4., 1.]));
    assert_eq!(m * inv, Mat3::identity());
    assert!(m3([1., 2., 3., 4., 5., 6., 7., 8., 9.]).inverse().is_none());
}

#[test]
fn inverse_of_mat4() {
    let t = create_translate(&Vec3::new(fx(1.0), fx(2.0), fx(3.0)));
    let back = create_translate(&Vec3::new(fx(-1.0), fx(-2.0), fx(-3.0)));
    assert_eq!(t.inverse().unwrap(), back);
    let s = create_scale(&Vec3::new(fx(2.0), fx(4.0), fx(8.0)));
    assert_eq!(
        s.inverse().unwrap(),
        create_scale(&Vec3::new(fx(0.5), fx(0.25), fx(0.125)))
    );
    assert!(Mat4::zeros().inverse().is_none());
}

#[test]
fn cofactors_of_mat4() {
    let m = m4([
        1., 2., 3., 4., 5., 6., 7., 8., 9., 10., 11., 12., 13., 14., 15., 16.,
    ]);
    assert_eq!(
        m.truncated_to_mat3(),
        m3([1., 2., 3., 5., 6., 7., 9., 10., 11.])
    );
    // without column 1 and row 2
    assert_eq!(
        m.get_algebraic_cofactor(1, 2),
        m3([1., 3., 4., 5., 7., 8., 13., 15., 16.])
    );
    assert_eq!(
        m.get_cofactor(1, 2),
        m3([-1., -3., -4., -5., -7., -8., -13., -15., -16.])
    );
    assert_eq!(m.get_cofactor(0, 0), m3([6., 7., 8., 10., 11., 12., 14., 15., 16.]));
}

#[test]
fn translate_and_scale() {
    let p = Vec4::new(fx(1.0), fx(1.0), fx(1.0), fx(1.0));
    let t = create_translate(&Vec3::new(fx(1.0), fx(2.0), fx(3.0)));
    assert_eq!(t * p, Vec4::new(fx(2.0), fx(3.0), fx(4.0), fx(1.0)));
    let s = create_scale(&Vec3::new(fx(2.0), fx(3.0), fx(4.0)));
    assert_eq!(s * p, Vec4::new(fx(2.0), fx(3.0), fx(4.0), fx(1.0)));
}

#[test]
fn rotations_by_zero_are_the_identity() {
    assert_eq!(create_eular_rotate_x(Fixed::zero()), Mat4::identity());
    assert_eq!(create_eular_rotate_y(Fixed::zero()), Mat4::identity());
    assert_eq!(create_eular_rotate_z(Fixed::zero()), Mat4::identity());
    assert_eq!(create_eular_rotate_xyz(&Vec3::zero()), Mat4::identity());
}

#[test]
fn rotation_by_a_quarter_turn() {
    let quarter = Fixed::from_raw(102944);
    let r = create_eular_rotate_z(quarter) * Vec4::new(fx(1.0), fx(0.0), fx(0.0), fx(1.0));
    assert!(close(r.x, 0.0, 4) && close(r.y, 1.0, 4) && close(r.z, 0.0, 0));
    let r = create_eular_rotate_x(quarter) * Vec4::new(fx(0.0), fx(1.0), fx(0.0), fx(1.0));
    assert!(close(r.x, 0.0, 0) && close(r.y, 0.0, 4) && close(r.z, 1.0, 4));
    let r = create_eular_rotate_y(quarter) * Vec4::new(fx(0.0), fx(0.0), fx(1.0), fx(1.0));
    assert!(close(r.x, 1.0, 4) && close(r.y, 0.0, 0) && close(r.z, 0.0, 4));
    // Rz * Ry * Rx
    let angles = Vec3::new(fx(0.3), fx(-0.7), fx(1.1));
    assert_eq!(
        create_eular_rotate_xyz(&angles),
        create_eular_rotate_z(angles.z) * create_eular_rotate_y(angles.y)
            * create_eular_rotate_x(angles.x)
    );
}

#[test]
fn rodrigues_about_z() {
    let quarter = Fixed::from_raw(102944);
    let r = rotate_by_axis_rodrigues(quarter, &Vec3::x_axis(), &Vec3::z_axis());
    assert!(close(r.x, 0.0, 4) && close(r.y, 1.0, 4) && close(r.z, 0.0, 4));
}

#[test]
fn reflect_and_lerp() {
    // 2 (v . n) n - v
    let v = Vec3::new(fx(1.0), fx(-1.0), fx(0.0));
    assert_eq!(reflect(&v, &Vec3::y_axis()), Vec3::new(fx(-1.0), fx(-1.0), fx(0.0)));
    assert_eq!(lerp(fx(2.0), fx(6.0), fx(0.25)), fx(3.0));
    assert_eq!(lerp(fx(2.0), fx(6.0), fx(0.0)), fx(2.0));
    assert_eq!(lerp(fx(2.0), fx(6.0), fx(1.0)), fx(6.0));
    assert_eq!(lerp(fx(6.0), fx(2.0), fx(0.5)), fx(4.0));
}

#[test]
fn quaternions() {
    let q = Quaternion { s: fx(1.0), v: Vec3::new(fx(2.0), fx(3.0), fx(4.0)) };
    let r = Quaternion { s: fx(5.0), v: Vec3::new(fx(6.0), fx(7.0), fx(8.0)) };
    assert_eq!(q.length_square(), fx(30.0));
    assert_eq!(q.length(), fx(30.0).sqrt());
    assert_eq!(q.conjugate(), Quaternion { s: fx(1.0), v: Vec3::new(fx(-2.0), fx(-3.0), fx(-4.0)) });
    // Hamilton product
    assert_eq!(
        q.mul(&r),
        Quaternion { s: fx(-60.0), v: Vec3::new(fx(12.0), fx(30.0), fx(24.0)) }
    );
    assert_eq!(q + r, Quaternion { s: fx(6.0), v: Vec3::new(fx(8.0), fx(10.0), fx(12.0)) });
    assert_eq!(r - q, Quaternion { s: fx(4.0), v: Vec3::new(fx(4.0), fx(4.0), fx(4.0)) });
    assert_eq!(q * fx(2.0), Quaternion { s: fx(2.0), v: Vec3::new(fx(4.0), fx(6.0), fx(8.0)) });
    assert_eq!(fx(2.0) * q, q * fx(2.0));
    assert_eq!(q / fx(2.0), Quaternion { s: fx(0.5), v: Vec3::new(fx(1.0), fx(1.5), fx(2.0)) });
    assert_eq!(-q, Quaternion { s: fx(-1.0), v: Vec3::new(fx(-2.0), fx(-3.0), fx(-4.0)) });
    assert_eq!(q.inverse(), q.conjugate() / q.length());
}
