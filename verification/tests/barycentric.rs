use rs_cpurenderer::camera::{Backend, Camera};
use rs_cpurenderer::cpu_renderer::Renderer;
use rs_cpurenderer::fixed::Fixed;
use rs_cpurenderer::math::{Barycentric, Mat4, Vec2, Vec3, Vec4};
use rs_cpurenderer::shader::{Attributes, Shader, Uniforms, Vertex};
use rs_cpurenderer::texture::TextureStorage;

fn fx(v: f64) -> Fixed {
    Fixed::from_raw((v * 65536.0) as i32)
}

fn p(x: f64, y: f64) -> Vec2 {
    Vec2::new(fx(x), fx(y))
}

fn triangle() -> [Vec2; 3] {
    [p(0.0, 0.0), p(8.0, 0.0), p(0.0, 8.0)]
}

#[test]
fn weights_at_the_vertices_and_inside() {
    let t = triangle();
    let at = |x: f64, y: f64| {
        let b = Barycentric::new(&p(x, y), &t);
        (b.is_valid(), b.alpha(), b.beta(), b.gamma())
    };
    assert_eq!(at(0.0, 0.0), (true, fx(1.0), fx(0.0), fx(0.0)));
    assert_eq!(at(8.0, 0.0), (true, fx(0.0), fx(1.0), fx(0.0)));
    assert_eq!(at(0.0, 8.0), (true, fx(0.0), fx(0.0), fx(1.0)));
    assert_eq!(at(2.0, 4.0), (true, fx(0.25), fx(0.25), fx(0.5)));
    assert_eq!(at(4.0, 4.0), (true, fx(0.0), fx(0.5), fx(0.5)));
}

#[test]
fn a_point_outside_is_not_valid() {
    let t = triangle();
    assert!(!Barycentric::new(&p(-0.001, 1.0), &t).is_valid());
    assert!(!Barycentric::new(&p(1.0, -0.001), &t).is_valid());
    assert!(!Barycentric::new(&p(4.001, 4.0), &t).is_valid());
    let b = Barycentric::new(&p(-2.0, 2.0), &t);
    assert_eq!((b.alpha(), b.beta(), b.gamma()), (fx(1.0), fx(-0.25), fx(0.25)));
}

#[test]
fn the_winding_does_not_matter() {
    let t = [p(0.0, 0.0), p(0.0, 8.0), p(8.0, 0.0)];
    let b = Barycentric::new(&p(2.0, 4.0), &t);
    assert!(b.is_valid());
    assert_eq!((b.alpha(), b.beta(), b.gamma()), (fx(0.25), fx(0.5), fx(0.25)));
    assert!(!Barycentric::new(&p(5.0, 5.0), &t).is_valid());
}

#[test]
fn no_point_lies_in_a_triangle_without_area() {
    let line = [p(0.0, 0.0), p(4.0, 4.0), p(8.0, 8.0)];
    let b = Barycentric::new(&p(2.0, 2.0), &line);
    assert!(!b.is_valid());
    assert_eq!((b.alpha(), b.beta(), b.gamma()), (fx(0.0), fx(0.0), fx(0.0)));
    let point = [p(1.0, 1.0), p(1.0, 1.0), p(1.0, 1.0)];
    assert!(!Barycentric::new(&p(1.0, 1.0), &point).is_valid());
}

struct VertexColor;

impl Shader for VertexColor {
    fn call_vertex_changing(&self, vertex: &Vertex, _: &Uniforms, _: &TextureStorage) -> Vertex {
        *vertex
    }

    fn call_pixel_shading(&self, a: &Attributes, _: &Uniforms, _: &TextureStorage) -> Vec4 {
        a.vec4[0]
    }
}

fn vertex(x: f64, y: f64, z: f64, color: Vec4) -> Vertex {
    let mut attributes = Attributes::default();
    attributes.set_vec4(0, color);
    Vertex::new(Vec3::new(fx(x), fx(y), fx(z)), attributes)
}

fn quad(x0: f64, y0: f64, x1: f64, y1: f64, z: f64, color: Vec4) -> Vec<Vertex> {
    vec![
        vertex(x0, y0, z, color),
        vertex(x1, y0, z, color),
        vertex(x1, y1, z, color),
        vertex(x0, y0, z, color),
        vertex(x1, y1, z, color),
        vertex(x0, y1, z, color),
    ]
}

fn renderer() -> Renderer<VertexColor> {
    let camera = Camera::with_backend(
        fx(1.0),
        fx(100.0),
        fx(1.0),
        Fixed::from_raw(51472),
        Backend::Barycentric,
    );
    let mut r = Renderer::with_shader(16, 16, camera, VertexColor);
    r.clear_depth();
    r
}

fn pixel(r: &Renderer<VertexColor>, x: u32, y: u32) -> [u8; 3] {
    let i = ((x + y * 16) * 3) as usize;
    let image = r.get_rendered_image();
    [image[i], image[i + 1], image[i + 2]]
}

#[test]
fn the_bounding_box_rasterizer_fills_a_quad() {
    let mut r = renderer();
    let textures = TextureStorage::default();
    let white = Vec4::new(fx(1.0), fx(1.0), fx(1.0), fx(1.0));
    r.draw_triangle(&Mat4::identity(), &quad(-1.9, -1.9, 1.9, 1.9, -2.0, white), &textures).unwrap();
    // on the screen the quad runs from 0.375 to 14.625 across and from
    // 1.375 to 15.625 down; a pixel is filled where its corner lies inside.
    // The three weights are rounded toward zero, so the blend of three equal
    // colours may fall short of the colour by a step.
    for y in 0..16 {
        for x in 0..16 {
            let inside = (1..=14).contains(&x) && (2..=15).contains(&y);
            for channel in pixel(&r, x, y) {
                if inside {
                    assert!(channel >= 254, "pixel {} {}", x, y);
                } else {
                    assert_eq!(channel, 0, "pixel {} {}", x, y);
                }
            }
        }
    }
}

#[test]
fn the_bounding_box_rasterizer_tests_depth() {
    let textures = TextureStorage::default();
    let red = quad(-2.9, -2.9, 0.0, 2.9, -3.0, Vec4::new(fx(1.0), fx(0.0), fx(0.0), fx(1.0)));
    let green = quad(-4.9, -4.9, 4.9, 4.9, -5.0, Vec4::new(fx(0.0), fx(1.0), fx(0.0), fx(1.0)));
    let mut images = Vec::new();
    for order in [[&red, &green], [&green, &red]] {
        let mut r = renderer();
        for q in order {
            r.draw_triangle(&Mat4::identity(), q, &textures).unwrap();
        }
        let (left, right) = (pixel(&r, 3, 8), pixel(&r, 12, 8));
        assert!(left[0] >= 254 && left[1] == 0 && left[2] == 0);
        assert!(right[0] == 0 && right[1] >= 254 && right[2] == 0);
        images.push(r.get_rendered_image().to_vec());
    }
    assert_eq!(images[0], images[1]);
}

#[test]
fn the_bounding_box_rasterizer_blends_with_perspective() {
    let mut r = renderer();
    let textures = TextureStorage::default();
    let shade = |v: f64| Vec4::new(fx(v), fx(0.0), fx(0.0), fx(1.0));
    // a floor below the eye whose colour runs from 0 at z = -2 to 1 at z = -10
    let floor = vec![
        vertex(-1.0, -1.0, -2.0, shade(0.0)),
        vertex(1.0, -1.0, -2.0, shade(0.0)),
        vertex(1.0, -1.0, -10.0, shade(1.0)),
        vertex(-1.0, -1.0, -2.0, shade(0.0)),
        vertex(1.0, -1.0, -10.0, shade(1.0)),
        vertex(-1.0, -1.0, -10.0, shade(1.0)),
    ];
    r.draw_triangle(&Mat4::identity(), &floor, &textures).unwrap();
    // the floor runs from the row 12.25 (z = -2) up to the row 9.25 (z = -10);
    // in the row 11 the depth is 7.5 / (11 - 8.5) = 3, where the colour is
    // (3 - 2) / 8 = 0.125, not the (12.25 - 11) / 3 = 0.42 of a linear blend
    let shown = pixel(&r, 8, 11)[0] as f64 / 255.0;
    assert!((shown - 0.125).abs() < 0.02, "shown {}", shown);
}
