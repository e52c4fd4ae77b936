use rs_cpurenderer::fixed::Fixed;
use rs_cpurenderer::math::Vec3;
use rs_cpurenderer::renderer::{should_cull, FaceCull, FrontFace};

fn v3(x: f64, y: f64, z: f64) -> Vec3 {
    let fx = |v: f64| Fixed::from_raw((v * 65536.0) as i32);
    Vec3::new(fx(x), fx(y), fx(z))
}

/// Counter-clockwise as seen from the positive `z` axis: its normal
/// `(p1 - p0) x (p2 - p1)` points along positive `z`.
fn triangle() -> [Vec3; 3] {
    [v3(0.0, 0.0, 0.0), v3(1.0, 0.0, 0.0), v3(0.0, 1.0, 0.0)]
}

#[test]
fn facing_by_winding() {
    let along = v3(0.0, 0.0, 1.0);
    let against = v3(0.0, 0.0, -1.0);
    let t = triangle();
    // normal . view_dir > 0: a front under clockwise fronts
    assert!(should_cull(&t, &along, FrontFace::CW, FaceCull::Front));
    assert!(!should_cull(&t, &along, FrontFace::CW, FaceCull::Back));
    assert!(!should_cull(&t, &along, FrontFace::CCW, FaceCull::Front));
    assert!(should_cull(&t, &along, FrontFace::CCW, FaceCull::Back));
    // normal . view_dir < 0
    assert!(!should_cull(&t, &against, FrontFace::CW, FaceCull::Front));
    assert!(should_cull(&t, &against, FrontFace::CW, FaceCull::Back));
    assert!(should_cull(&t, &against, FrontFace::CCW, FaceCull::Front));
    assert!(!should_cull(&t, &against, FrontFace::CCW, FaceCull::Back));
}

#[test]
fn nothing_is_culled_when_culling_is_off() {
    let t = triangle();
    for view in [v3(0.0, 0.0, 1.0), v3(0.0, 0.0, -1.0), v3(1.0, 0.0, 0.0)] {
        assert!(!should_cull(&t, &view, FrontFace::CW, FaceCull::Nothing));
        assert!(!should_cull(&t, &view, FrontFace::CCW, FaceCull::Nothing));
    }
}

#[test]
fn exchanging_two_vertices_flips_the_decision() {
    let triangles = [
        triangle(),
        [v3(0.3, -2.0, 1.5), v3(-4.0, 0.25, 0.5), v3(2.0, 3.0, -1.0)],
        [v3(100.0, 2.0, -30.0), v3(-7.5, 80.0, 0.0), v3(0.001, 0.002, 0.003)],
    ];
    let views = [v3(0.0, 0.0, -1.0), v3(0.3, 0.2, -0.9), v3(-1.0, 2.0, 0.5)];
    for t in triangles {
        for view in views {
            for face in [FrontFace::CW, FrontFace::CCW] {
                for cull in [FaceCull::Front, FaceCull::Back] {
                    let before = should_cull(&t, &view, face, cull);
                    assert_eq!(should_cull(&[t[1], t[0], t[2]], &view, face, cull), !before);
                    assert_eq!(should_cull(&[t[0], t[2], t[1]], &view, face, cull), !before);
                    assert_eq!(should_cull(&[t[2], t[1], t[0]], &view, face, cull), !before);
                }
            }
        }
    }
}

#[test]
fn the_smallest_triangle_is_not_turned_by_rounding() {
    // one raw unit wide: its products are far below the resolution
    let raw = |x: i32, y: i32| Vec3::new(Fixed::from_raw(x), Fixed::from_raw(y), Fixed::zero());
    let t = [raw(0, 0), raw(1, 0), raw(0, 1)];
    let view = Vec3::new(Fixed::zero(), Fixed::zero(), Fixed::from_raw(1));
    assert!(should_cull(&t, &view, FrontFace::CW, FaceCull::Front));
    assert!(!should_cull(&[t[1], t[0], t[2]], &view, FrontFace::CW, FaceCull::Front));
}

#[test]
fn a_triangle_seen_edge_on_is_a_back_under_clockwise_fronts() {
    // the view direction lies in the plane of the triangle: facing is zero
    let t = triangle();
    let view = v3(1.0, 0.0, 0.0);
    assert!(!should_cull(&t, &view, FrontFace::CW, FaceCull::Front));
    assert!(should_cull(&t, &view, FrontFace::CW, FaceCull::Back));
    assert!(should_cull(&t, &view, FrontFace::CCW, FaceCull::Front));
    // exchanging two vertices does not change a facing of zero
    assert!(!should_cull(&[t[1], t[0], t[2]], &view, FrontFace::CW, FaceCull::Front));
}
