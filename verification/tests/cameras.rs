use rs_cpurenderer::camera::{Backend, Camera, Frustum};
use rs_cpurenderer::fixed::Fixed;
use rs_cpurenderer::math::{create_eular_rotate_xyz, create_translate, Mat4, Vec3, Vec4};

fn fx(v: f64) -> Fixed {
    Fixed::from_raw((v * 65536.0) as i32)
}

fn v3(x: f64, y: f64, z: f64) -> Vec3 {
    Vec3::new(fx(x), fx(y), fx(z))
}

/// An eighth of a turn, for which sine and cosine agree exactly.
fn eighth() -> Fixed {
    Fixed::from_raw(51472)
}

fn frustum() -> Frustum {
    Frustum::new(fx(1.0), fx(100.0), fx(1.0), eighth())
}

#[test]
fn scanline_projection() {
    let f = frustum();
    assert_eq!(f.near(), fx(1.0));
    let z = Fixed::zero();
    let o = Fixed::one();
    assert_eq!(*f.get_mat(), Mat4::from_row(&[o, z, z, z, z, o, z, z, z, z, o, z, z, z, -o, z]));
    // a = 1 / (near * tan(fovy)) and aspect * a
    let f = Frustum::new(fx(2.0), fx(100.0), fx(1.5), eighth());
    assert_eq!(
        *f.get_mat(),
        Mat4::from_row(&[fx(0.5), z, z, z, z, fx(0.75), z, z, z, z, o, z, z, z, fx(-0.5), z])
    );
    // the projection leaves w = -z / near
    let p = *f.get_mat() * Vec4::new(fx(1.0), fx(2.0), fx(-6.0), fx(1.0));
    assert_eq!(p, Vec4::new(fx(0.5), fx(1.5), fx(-6.0), fx(3.0)));
}

#[test]
fn barycentric_projection() {
    let f = Frustum::with_backend(fx(1.0), fx(3.0), fx(2.0), eighth(), Backend::Barycentric);
    let z = Fixed::zero();
    // half_w = 1, half_h = 0.5; (far + near) / (near - far) = -2; 2 far near / (near - far) = -3
    assert_eq!(
        *f.get_mat(),
        Mat4::from_row(&[
            fx(1.0), z, z, z, z, fx(2.0), z, z, z, z, fx(-2.0), fx(-3.0), z, z, fx(-1.0), z,
        ])
    );
}

#[test]
fn points_inside_the_frustum() {
    let f = frustum();
    assert!(f.contain(&v3(0.0, 0.0, -5.0)));
    assert!(f.contain(&v3(4.99, 0.0, -5.0)));
    assert!(f.contain(&v3(-4.99, 4.99, -5.0)));
    assert!(f.contain(&v3(0.0, 0.0, -1.001)));
    assert!(f.contain(&v3(0.0, 0.0, -99.999)));
}

#[test]
fn points_outside_the_frustum() {
    let f = frustum();
    assert!(!f.contain(&v3(5.01, 0.0, -5.0)));
    assert!(!f.contain(&v3(-5.01, 0.0, -5.0)));
    assert!(!f.contain(&v3(0.0, 5.01, -5.0)));
    assert!(!f.contain(&v3(0.0, -5.01, -5.0)));
    assert!(!f.contain(&v3(0.0, 0.0, -0.5)));
    assert!(!f.contain(&v3(0.0, 0.0, -101.0)));
    assert!(!f.contain(&v3(0.0, 0.0, 5.0)));
    assert!(!f.contain(&v3(0.0, 0.0, 0.0)));
}

#[test]
fn a_point_on_a_plane_is_outside() {
    let f = frustum();
    // right, left, top, bottom, near, far
    assert!(!f.contain(&v3(5.0, 0.0, -5.0)));
    assert!(!f.contain(&v3(-5.0, 0.0, -5.0)));
    assert!(!f.contain(&v3(0.0, 5.0, -5.0)));
    assert!(!f.contain(&v3(0.0, -5.0, -5.0)));
    assert!(!f.contain(&v3(0.0, 0.0, -1.0)));
    assert!(!f.contain(&v3(0.0, 0.0, -100.0)));
    // one raw unit inside of each
    let step = 1.0 / 65536.0;
    assert!(f.contain(&v3(5.0 - step, 0.0, -5.0)));
    assert!(f.contain(&v3(-5.0 + step, 0.0, -5.0)));
    assert!(f.contain(&v3(0.0, 5.0 - step, -5.0)));
    assert!(f.contain(&v3(0.0, -5.0 + step, -5.0)));
    assert!(f.contain(&v3(0.0, 0.0, -1.0 - step)));
    assert!(f.contain(&v3(0.0, 0.0, -100.0 + step)));
}

#[test]
fn the_aspect_narrows_the_height() {
    // half the height of the near plane is near * tan(fovy) / aspect = 0.5
    let f = Frustum::new(fx(1.0), fx(100.0), fx(2.0), eighth());
    assert!(f.contain(&v3(0.0, 2.49, -5.0)));
    assert!(!f.contain(&v3(0.0, 2.5, -5.0)));
    assert!(f.contain(&v3(4.99, 0.0, -5.0)));
}

#[test]
fn a_new_camera_looks_down_negative_z() {
    let c = Camera::new(fx(1.0), fx(100.0), fx(1.0), eighth());
    assert_eq!(*c.position(), Vec3::zero());
    assert_eq!(*c.get_rotation(), Vec3::zero());
    assert_eq!(*c.view_mat(), Mat4::identity());
    assert_eq!(*c.view_dir(), v3(0.0, 0.0, -1.0));
    assert_eq!(c.get_frustum().near(), fx(1.0));
    assert!(c.get_frustum().contain(&v3(0.0, 0.0, -5.0)));
}

#[test]
fn moving_the_camera_recomputes_the_view() {
    let mut c = Camera::new(fx(1.0), fx(100.0), fx(1.0), eighth());
    c.move_to(v3(1.0, 2.0, 3.0));
    assert_eq!(*c.position(), v3(1.0, 2.0, 3.0));
    assert_eq!(*c.view_mat(), create_translate(&v3(-1.0, -2.0, -3.0)));
    assert_eq!(*c.view_dir(), v3(0.0, 0.0, -1.0));
    c.move_offset(v3(0.5, 0.0, -3.0));
    assert_eq!(*c.position(), v3(1.5, 2.0, 0.0));
    assert_eq!(*c.view_mat(), create_translate(&v3(-1.5, -2.0, 0.0)));
    // the camera's own place goes to the origin of view space
    let p = *c.view_mat() * Vec4::new(fx(1.5), fx(2.0), fx(0.0), fx(1.0));
    assert_eq!(p, Vec4::new(fx(0.0), fx(0.0), fx(0.0), fx(1.0)));
}

#[test]
fn turning_the_camera_recomputes_the_view() {
    let mut c = Camera::new(fx(1.0), fx(100.0), fx(1.0), eighth());
    c.move_to(v3(0.0, 1.0, 0.0));
    let quarter = Fixed::from_raw(102944);
    let rotation = Vec3::new(Fixed::zero(), quarter, Fixed::zero());
    c.set_rotation(rotation);
    assert_eq!(*c.get_rotation(), rotation);
    assert_eq!(*c.position(), v3(0.0, 1.0, 0.0));
    let turn = create_eular_rotate_xyz(&-rotation);
    assert_eq!(*c.view_mat(), turn * create_translate(&v3(0.0, -1.0, 0.0)));
    assert_eq!(
        *c.view_dir(),
        (turn * Vec4::new(fx(0.0), fx(0.0), fx(-1.0), fx(1.0))).truncated_to_vec3()
    );
    // the view turns against the camera: after a quarter turn about y the
    // viewing direction is the positive x axis
    let d = *c.view_dir();
    assert!((d.x.raw - 65536).abs() <= 4 && d.y.raw == 0 && d.z.raw.abs() <= 4);
}

#[test]
fn looking_at_a_target() {
    let mut c = Camera::new(fx(1.0), fx(100.0), fx(1.0), eighth());
    c.lookat(v3(0.0, 0.0, -4.0));
    assert_eq!(*c.view_dir(), v3(0.0, 0.0, -1.0));
    assert_eq!(*c.view_mat(), Mat4::identity());
    c.move_to(v3(0.0, 0.0, 5.0));
    c.lookat(v3(5.0, 0.0, 5.0));
    assert_eq!(*c.view_dir(), v3(1.0, 0.0, 0.0));
    assert_eq!(*c.position(), v3(0.0, 0.0, 5.0));
    // the target lies straight ahead, five units away
    let p = *c.view_mat() * Vec4::new(fx(5.0), fx(0.0), fx(5.0), fx(1.0));
    assert_eq!(p, Vec4::new(fx(0.0), fx(0.0), fx(-5.0), fx(1.0)));
    // angle between the x axis and the direction to the target: zero
    assert_eq!(c.get_rotation().z, Fixed::zero());
}
