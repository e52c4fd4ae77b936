use rs_cpurenderer::fixed::Fixed;
use rs_cpurenderer::math::Vec3;
use rs_cpurenderer::scanline::{near_plane_clip, Scanline, Trapezoid};
use rs_cpurenderer::shader::{Attributes, Vertex};

fn fx(v: f64) -> Fixed {
    Fixed::from_raw((v * 65536.0) as i32)
}

fn at(x: f64, y: f64) -> Vertex {
    Vertex::new(Vec3::new(fx(x), fx(y), fx(1.0)), Attributes::default())
}

fn xy(v: &Vertex) -> (Fixed, Fixed) {
    (v.position.x, v.position.y)
}

fn shape(t: &[Option<Trapezoid>; 2]) -> (bool, bool) {
    (t[0].is_some(), t[1].is_some())
}

#[test]
fn trapezoid_split() {
    let traps = Trapezoid::from_triangle(&[at(0.0, 0.0), at(10.0, 5.0), at(0.0, 10.0)]);
    let upper = traps[0].unwrap();
    let lower = traps[1].unwrap();
    assert_eq!(upper.top, fx(0.0));
    assert_eq!(upper.bottom, fx(5.0));
    assert_eq!(lower.top, fx(5.0));
    assert_eq!(lower.bottom, fx(10.0));
    // the long edge is on the left
    assert_eq!((xy(&upper.left.v1), xy(&upper.left.v2)), (xy(&at(0.0, 0.0)), xy(&at(0.0, 10.0))));
    assert_eq!((xy(&upper.right.v1), xy(&upper.right.v2)), (xy(&at(0.0, 0.0)), xy(&at(10.0, 5.0))));
    assert_eq!((xy(&lower.left.v1), xy(&lower.left.v2)), (xy(&at(0.0, 0.0)), xy(&at(0.0, 10.0))));
    assert_eq!((xy(&lower.right.v1), xy(&lower.right.v2)), (xy(&at(10.0, 5.0)), xy(&at(0.0, 10.0))));
}

#[test]
fn the_long_edge_on_the_right() {
    let traps = Trapezoid::from_triangle(&[at(10.0, 10.0), at(0.0, 5.0), at(10.0, 0.0)]);
    let upper = traps[0].unwrap();
    let lower = traps[1].unwrap();
    assert_eq!((xy(&upper.left.v1), xy(&upper.left.v2)), (xy(&at(10.0, 0.0)), xy(&at(0.0, 5.0))));
    assert_eq!((xy(&upper.right.v1), xy(&upper.right.v2)), (xy(&at(10.0, 0.0)), xy(&at(10.0, 10.0))));
    assert_eq!((xy(&lower.left.v1), xy(&lower.left.v2)), (xy(&at(0.0, 5.0)), xy(&at(10.0, 10.0))));
    assert_eq!((xy(&lower.right.v1), xy(&lower.right.v2)), (xy(&at(10.0, 0.0)), xy(&at(10.0, 10.0))));
    assert_eq!((upper.top, upper.bottom, lower.top, lower.bottom), (fx(0.0), fx(5.0), fx(5.0), fx(10.0)));
}

#[test]
fn degenerate_triangles_give_no_trapezoid() {
    // the vertices share their x
    let t = Trapezoid::from_triangle(&[at(3.0, 0.0), at(3.0, 5.0), at(3.0, 9.0)]);
    assert_eq!(shape(&t), (false, false));
    // the vertices share their y
    let t = Trapezoid::from_triangle(&[at(0.0, 4.0), at(5.0, 4.0), at(9.0, 4.0)]);
    assert_eq!(shape(&t), (false, false));
    // a point
    let t = Trapezoid::from_triangle(&[at(1.0, 1.0), at(1.0, 1.0), at(1.0, 1.0)]);
    assert_eq!(shape(&t), (false, false));
}

#[test]
fn a_flat_side_gives_one_trapezoid() {
    // flat top, given right to left
    let t = Trapezoid::from_triangle(&[at(8.0, 2.0), at(1.0, 2.0), at(4.0, 9.0)]);
    assert_eq!(shape(&t), (true, false));
    let trap = t[0].unwrap();
    assert_eq!((trap.top, trap.bottom), (fx(2.0), fx(9.0)));
    assert_eq!((xy(&trap.left.v1), xy(&trap.left.v2)), (xy(&at(1.0, 2.0)), xy(&at(4.0, 9.0))));
    assert_eq!((xy(&trap.right.v1), xy(&trap.right.v2)), (xy(&at(8.0, 2.0)), xy(&at(4.0, 9.0))));
    // flat bottom
    let t = Trapezoid::from_triangle(&[at(9.0, 7.0), at(4.0, 1.0), at(2.0, 7.0)]);
    assert_eq!(shape(&t), (true, false));
    let trap = t[0].unwrap();
    assert_eq!((trap.top, trap.bottom), (fx(1.0), fx(7.0)));
    assert_eq!((xy(&trap.left.v1), xy(&trap.left.v2)), (xy(&at(4.0, 1.0)), xy(&at(2.0, 7.0))));
    assert_eq!((xy(&trap.right.v1), xy(&trap.right.v2)), (xy(&at(4.0, 1.0)), xy(&at(9.0, 7.0))));
    // two vertices in one place
    let t = Trapezoid::from_triangle(&[at(0.0, 0.0), at(0.0, 0.0), at(5.0, 5.0)]);
    assert_eq!(shape(&t), (true, false));
}

#[test]
fn any_other_triangle_gives_two_trapezoids() {
    let t = Trapezoid::from_triangle(&[at(0.0, 0.0), at(5.0, 3.0), at(2.0, 8.0)]);
    assert_eq!(shape(&t), (true, true));
    // three points on a slanted line are no degenerate triangle by the rule
    let t = Trapezoid::from_triangle(&[at(0.0, 0.0), at(1.0, 1.0), at(2.0, 2.0)]);
    assert_eq!(shape(&t), (true, true));
    // whatever the order of the vertices
    let t = Trapezoid::from_triangle(&[at(2.0, 8.0), at(0.0, 0.0), at(5.0, 3.0)]);
    assert_eq!(shape(&t), (true, true));
    assert_eq!(t[0].unwrap().top, fx(0.0));
    assert_eq!(t[1].unwrap().top, fx(3.0));
}

#[test]
fn scanline_of_a_trapezoid() {
    let mut apex = at(5.0, 0.0);
    let mut left = at(0.0, 10.0);
    let mut right = at(10.0, 10.0);
    apex.attributes.set_float(0, fx(0.0));
    left.attributes.set_float(0, fx(2.0));
    right.attributes.set_float(0, fx(12.0));
    let t = Trapezoid::from_triangle(&[apex, left, right]);
    let trap = t[0].unwrap();
    let line = Scanline::from_trapezoid(&trap, fx(5.0));
    assert_eq!(line.y, fx(5.0));
    assert_eq!(xy(&line.vertex), (fx(2.5), fx(5.0)));
    assert_eq!(line.width, fx(5.0));
    // one pixel to the right for each step
    assert_eq!(xy(&line.step), (fx(1.0), fx(0.0)));
    // the attribute runs from 1 to 6 over the width of 5
    assert_eq!(line.vertex.attributes.float[0], fx(1.0));
    assert_eq!(line.step.attributes.float[0], fx(1.0));
    let top = Scanline::from_trapezoid(&trap, fx(0.0));
    assert_eq!(top.width, fx(0.0));
    let bottom = Scanline::from_trapezoid(&trap, fx(10.0));
    assert_eq!((xy(&bottom.vertex), bottom.width), ((fx(0.0), fx(10.0)), fx(10.0)));
}

fn in_space(x: f64, z: f64, a: f64) -> Vertex {
    let mut attributes = Attributes::default();
    attributes.set_float(0, fx(a));
    Vertex::new(Vec3::new(fx(x), fx(0.0), fx(z)), attributes)
}

/// Twice the signed area of a triangle in the plane of `x` and `z`.
fn area2(t: &[Vertex; 3]) -> f64 {
    let p = |v: &Vertex| (v.position.x.raw as f64 / 65536.0, v.position.z.raw as f64 / 65536.0);
    let (a, b, c) = (p(&t[0]), p(&t[1]), p(&t[2]));
    (b.0 - a.0) * (c.1 - a.1) - (b.1 - a.1) * (c.0 - a.0)
}

#[test]
fn near_plane_split() {
    // one vertex in front of the near plane z = -1, two behind it
    let t = [in_space(0.0, -0.5, 0.0), in_space(-1.5, -2.0, 3.0), in_space(1.5, -2.0, 6.0)];
    let (first, second) = near_plane_clip(&t, fx(1.0));
    let second = second.unwrap();
    let cut_left = first[2];
    let cut_right = first[1];
    assert_eq!(first[0].position, t[1].position);
    assert_eq!(second[0].position, t[1].position);
    assert_eq!(second[1].position, t[2].position);
    assert_eq!(second[2].position, cut_right.position);
    // the new vertices lie on the near plane, two thirds of the way out
    for (cut, x, a) in [(cut_left, -0.5, 1.0), (cut_right, 0.5, 2.0)] {
        assert_eq!(cut.position.z, fx(-1.0));
        assert!((cut.position.x.raw as f64 / 65536.0 - x).abs() < 0.0001);
        assert!((cut.attributes.float[0].raw as f64 / 65536.0 - a).abs() < 0.0001);
        assert_eq!(cut.position.w, fx(1.0));
    }
    // both pieces wind as the triangle does, and together they cover what
    // lies behind the plane: a trapezoid of area 2
    let whole = area2(&t);
    assert!(whole * area2(&first) > 0.0 && whole * area2(&second) > 0.0);
    assert!(((area2(&first) + area2(&second)).abs() / 2.0 - 2.0).abs() < 0.001);
    for v in first.iter().chain(second.iter()) {
        assert!(v.position.z.raw <= -65536);
    }
}

#[test]
fn near_plane_cut_of_two_vertices() {
    let t = [in_space(-1.0, -0.5, 0.0), in_space(1.0, -0.5, 0.0), in_space(0.0, -2.0, 3.0)];
    let (first, second) = near_plane_clip(&t, fx(1.0));
    assert!(second.is_none());
    assert_eq!(first[2].position, t[2].position);
    assert_eq!(first[0].position.z, fx(-1.0));
    assert_eq!(first[1].position.z, fx(-1.0));
    assert!(area2(&t) * area2(&first) > 0.0);
    // every place of the vertex that is cut off
    for k in 0..3 {
        let mut t = [in_space(-1.0, -2.0, 0.0), in_space(1.0, -2.0, 0.0), in_space(0.0, -3.0, 0.0)];
        t[k].position.z = fx(-0.25);
        let (first, second) = near_plane_clip(&t, fx(1.0));
        let second = second.unwrap();
        assert!(area2(&t) * area2(&first) > 0.0);
        assert!(area2(&t) * area2(&second) > 0.0);
        // what is left lies behind the plane, so that it is not cut again,
        // and the two new vertices lie on it
        for v in first.iter().chain(second.iter()) {
            assert!(v.position.z.raw <= -65536);
        }
        let on_plane = first.iter().chain(second.iter()).filter(|v| v.position.z == fx(-1.0)).count();
        assert_eq!(on_plane, 3);
    }
    // edges that the rounding could push across the plane
    for (a, b, c) in [(-0.3, -1.7, -2.9), (-0.999, -1.001, -77.7), (0.5, -1.0, -1.00002)] {
        for k in 0..3 {
            let mut zs = [b, c, b];
            zs[k] = a;
            let t = [in_space(-1.0, zs[0], 0.0), in_space(1.0, zs[1], 0.0), in_space(0.3, zs[2], 0.0)];
            let (first, second) = near_plane_clip(&t, fx(1.0));
            for v in first.iter().chain(second.iter().flatten()) {
                assert!(v.position.z.raw <= -65536, "{:?}", zs);
            }
        }
    }
}

#[test]
fn cut_vertices_lie_on_the_plane() {
    let space = |x: f64, y: f64, z: f64| Vertex::new(Vec3::new(fx(x), fx(y), fx(z)), Attributes::default());
    // one vertex in front of the plane z = -1
    let t = [space(0.0, 0.0, -0.5), space(1.0, 0.0, -2.0), space(0.0, 1.0, -2.0)];
    let (first, second) = near_plane_clip(&t, fx(1.0));
    let second = second.unwrap();
    assert_eq!(first[0].position, t[1].position);
    assert_eq!(first[1].position.z, fx(-1.0));
    assert_eq!(first[2].position.z, fx(-1.0));
    assert_eq!(second[0].position, t[1].position);
    assert_eq!(second[1].position, t[2].position);
    assert_eq!(second[2].position, first[1].position);
    // a third of the way from the vertex in front to the one behind
    assert!((first[2].position.x.raw - fx(1.0 / 3.0).raw).abs() <= 2);
    assert!((first[1].position.y.raw - fx(1.0 / 3.0).raw).abs() <= 2);
    // two vertices in front of it
    let t = [space(0.0, 0.0, -0.5), space(1.0, 0.0, -0.25), space(0.0, 1.0, -2.0)];
    let (first, second) = near_plane_clip(&t, fx(1.0));
    assert!(second.is_none());
    assert_eq!(first[0].position.z, fx(-1.0));
    assert_eq!(first[1].position.z, fx(-1.0));
    assert_eq!(first[2].position, t[2].position);
    // another plane, and a quotient that does not come out even
    let t = [space(0.7, 0.1, -0.3), space(-1.3, 0.9, -7.7), space(0.2, -1.1, -3.1)];
    let (first, second) = near_plane_clip(&t, fx(2.5));
    for v in [first[1], first[2], second.unwrap()[2]] {
        assert_eq!(v.position.z, fx(-2.5));
    }
}
