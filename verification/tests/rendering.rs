use rs_cpurenderer::camera::{Backend, Camera};
use rs_cpurenderer::cpu_renderer::screen::rasterize_screen;
use rs_cpurenderer::cpu_renderer::Renderer;
use rs_cpurenderer::error::Error;
use rs_cpurenderer::fixed::Fixed;
use rs_cpurenderer::image::{ColorAttachment, DepthAttachment};
use rs_cpurenderer::math::{create_translate, Mat4, Vec2, Vec3, Vec4};
use rs_cpurenderer::renderer::{FaceCull, FrontFace};
use rs_cpurenderer::scanline::near_plane_clip;
use rs_cpurenderer::scene::Textured;
use rs_cpurenderer::shader::{Attributes, DefaultShader, Shader, Uniforms, Vertex};
use rs_cpurenderer::texture::TextureStorage;

fn fx(v: f64) -> Fixed {
    Fixed::from_raw((v * 65536.0) as i32)
}

fn rgba(r: f64, g: f64, b: f64) -> Vec4 {
    Vec4::new(fx(r), fx(g), fx(b), fx(1.0))
}

/// Paints every fragment with the colour in the first slot of four numbers.
struct VertexColor;

impl Shader for VertexColor {
    fn call_vertex_changing(&self, vertex: &Vertex, _: &Uniforms, _: &TextureStorage) -> Vertex {
        *vertex
    }

    fn call_pixel_shading(&self, a: &Attributes, _: &Uniforms, _: &TextureStorage) -> Vec4 {
        a.vec4[0]
    }
}

/// Moves every vertex by the offset in the uniforms.
struct Shifted;

impl Shader for Shifted {
    fn call_vertex_changing(&self, vertex: &Vertex, u: &Uniforms, _: &TextureStorage) -> Vertex {
        let offset = *u.vec4.get(&0).unwrap();
        Vertex { position: vertex.position + offset, attributes: vertex.attributes }
    }

    fn call_pixel_shading(&self, _: &Attributes, _: &Uniforms, _: &TextureStorage) -> Vec4 {
        rgba(1.0, 1.0, 1.0)
    }
}

fn vertex(x: f64, y: f64, z: f64, color: Vec4) -> Vertex {
    let mut attributes = Attributes::default();
    attributes.set_vec4(0, color);
    Vertex::new(Vec3::new(fx(x), fx(y), fx(z)), attributes)
}

/// The two triangles of the rectangle from `(x0, y0)` to `(x1, y1)` at depth `z`.
fn quad(x0: f64, y0: f64, x1: f64, y1: f64, z: f64, color: Vec4) -> Vec<Vertex> {
    vec![
        vertex(x0, y0, z, color),
        vertex(x1, y0, z, color),
        vertex(x1, y1, z, color),
        vertex(x0, y0, z, color),
        vertex(x1, y1, z, color),
        vertex(x0, y1, z, color),
    ]
}

/// A camera at the origin that looks down negative z and sees, at the
/// distance d, the square from -d to d.
fn camera() -> Camera {
    Camera::new(fx(1.0), fx(100.0), fx(1.0), Fixed::from_raw(51472))
}

fn renderer(w: u32, h: u32) -> Renderer<VertexColor> {
    let mut r = Renderer::with_shader(w, h, camera(), VertexColor);
    r.clear(&rgba(0.0, 0.0, 0.0));
    r.clear_depth();
    r
}

fn pixel<S: Shader>(r: &Renderer<S>, x: u32, y: u32) -> [u8; 3] {
    let i = ((x + y * r.get_canva_width()) * 3) as usize;
    let image = r.get_rendered_image();
    [image[i], image[i + 1], image[i + 2]]
}

const RED: [u8; 3] = [255, 0, 0];
const GREEN: [u8; 3] = [0, 255, 0];
const WHITE: [u8; 3] = [255, 255, 255];
const BLACK: [u8; 3] = [0, 0, 0];

#[test]
fn clear_and_read_through_the_renderer() {
    let mut r = Renderer::new(4, 4, camera());
    assert_eq!(r.get_canva_width(), 4);
    assert_eq!(r.get_canva_height(), 4);
    assert_eq!(r.get_rendered_image(), &[0u8; 48]);
    r.clear(&rgba(1.0, 0.0, 0.0));
    assert_eq!(r.get_rendered_image().len(), 3 * 4 * 4);
    assert_eq!(&r.get_rendered_image()[0..12], &[255, 0, 0, 255, 0, 0, 255, 0, 0, 255, 0, 0]);
    for y in 0..4 {
        for x in 0..4 {
            assert_eq!(pixel(&r, x, y), RED);
        }
    }
    r.clear(&Vec4::new(fx(0.2), fx(0.4), fx(0.6), fx(0.0)));
    for chunk in r.get_rendered_image().chunks(3) {
        assert_eq!(chunk, &[50, 101, 152]);
    }
}

#[test]
fn axis_aligned_quad() {
    let mut r = renderer(16, 16);
    r.set_front_face(FrontFace::CCW);
    r.set_face_cull(FaceCull::Nothing);
    let textures = TextureStorage::default();
    // at the distance 2 the view is the square from -2 to 2; the quad
    // fills it but for a margin of a twentieth
    let q = quad(-1.9, -1.9, 1.9, 1.9, -2.0, rgba(1.0, 1.0, 1.0));
    assert_eq!(r.draw_triangle(&Mat4::identity(), &q, &textures), Ok(()));
    // on the screen the quad runs from 0.375 to 14.625 across and from
    // 1.375 to 15.625 down: the columns 0 to 14 of the rows 2 to 15
    for y in 0..16 {
        for x in 0..16 {
            let expected = if x <= 14 && y >= 2 { WHITE } else { BLACK };
            assert_eq!(pixel(&r, x, y), expected, "pixel {} {}", x, y);
        }
    }
}

fn occlusion(red_first: bool) -> Renderer<VertexColor> {
    let mut r = renderer(16, 16);
    let textures = TextureStorage::default();
    let red = quad(-2.9, -2.9, 0.0, 2.9, -3.0, rgba(1.0, 0.0, 0.0));
    let green = quad(-4.9, -4.9, 4.9, 4.9, -5.0, rgba(0.0, 1.0, 0.0));
    let (first, second) = if red_first { (&red, &green) } else { (&green, &red) };
    r.draw_triangle(&Mat4::identity(), first, &textures).unwrap();
    r.draw_triangle(&Mat4::identity(), second, &textures).unwrap();
    r
}

#[test]
fn depth_occlusion() {
    let r = occlusion(true);
    // the red quad ends at the middle of the screen, at x = 7.5; whether
    // it reaches into column 7 depends on the row
    for y in 2..=15 {
        for x in 0..=14 {
            if x != 7 {
                let expected = if x < 7 { RED } else { GREEN };
                assert_eq!(pixel(&r, x, y), expected, "pixel {} {}", x, y);
            }
        }
    }
}

#[test]
fn the_nearer_triangle_wins_in_either_order() {
    let near_first = occlusion(true);
    let far_first = occlusion(false);
    assert_eq!(near_first.get_rendered_image(), far_first.get_rendered_image());
    assert_eq!(pixel(&far_first, 3, 8), RED);
    assert_eq!(pixel(&far_first, 12, 8), GREEN);
}

#[test]
fn of_two_fragments_at_one_depth_the_later_wins() {
    let mut r = renderer(16, 16);
    let textures = TextureStorage::default();
    let red = quad(-1.9, -1.9, 1.9, 1.9, -2.0, rgba(1.0, 0.0, 0.0));
    let green = quad(-1.9, -1.9, 1.9, 1.9, -2.0, rgba(0.0, 1.0, 0.0));
    r.draw_triangle(&Mat4::identity(), &red, &textures).unwrap();
    assert_eq!(pixel(&r, 8, 8), RED);
    r.draw_triangle(&Mat4::identity(), &green, &textures).unwrap();
    assert_eq!(pixel(&r, 8, 8), GREEN);
}

#[test]
fn nothing_passes_the_depth_of_a_new_renderer() {
    // a new depth attachment holds the largest number; it wants clearing
    let mut r = Renderer::with_shader(16, 16, camera(), VertexColor);
    let textures = TextureStorage::default();
    let q = quad(-1.9, -1.9, 1.9, 1.9, -2.0, rgba(1.0, 1.0, 1.0));
    r.draw_triangle(&Mat4::identity(), &q, &textures).unwrap();
    assert_eq!(r.get_rendered_image(), &[0u8; 16 * 16 * 3]);
    r.clear_depth();
    r.draw_triangle(&Mat4::identity(), &q, &textures).unwrap();
    assert_eq!(pixel(&r, 8, 8), WHITE);
}

#[test]
fn a_vertex_count_that_is_no_multiple_of_three_is_refused() {
    let mut r = renderer(8, 8);
    let textures = TextureStorage::default();
    let mut q = quad(-1.9, -1.9, 1.9, 1.9, -2.0, rgba(1.0, 1.0, 1.0));
    q.pop();
    assert_eq!(r.draw_triangle(&Mat4::identity(), &q, &textures), Err(Error::OutOfBounds));
    assert_eq!(r.get_rendered_image(), &[0u8; 8 * 8 * 3]);
    q.truncate(3);
    assert_eq!(r.draw_triangle(&Mat4::identity(), &q, &textures), Ok(()));
    assert_eq!(r.draw_triangle(&Mat4::identity(), &[], &textures), Ok(()));
}

#[test]
fn the_model_matrix_moves_the_triangles() {
    let mut r = renderer(16, 16);
    let textures = TextureStorage::default();
    let q = quad(-0.9, -0.9, 0.9, 0.9, 0.0, rgba(1.0, 1.0, 1.0));
    // at z = 0 the quad lies in the camera: nothing of it is in the frustum
    r.draw_triangle(&Mat4::identity(), &q, &textures).unwrap();
    assert_eq!(r.get_rendered_image(), &[0u8; 16 * 16 * 3]);
    let model = create_translate(&Vec3::new(fx(0.0), fx(0.0), fx(-1.5)));
    assert!(r.cuts_once(&model, &q, &textures));
    r.draw_triangle(&model, &q, &textures).unwrap();
    assert_eq!(pixel(&r, 8, 8), WHITE);
    assert_eq!(pixel(&r, 1, 8), BLACK);
}

#[test]
fn the_vertex_stage_runs_before_the_model_transform() {
    let mut r = Renderer::with_shader(16, 16, camera(), Shifted);
    r.clear_depth();
    r.get_uniforms().vec4.insert(0, Vec4::new(fx(0.0), fx(0.0), fx(-2.0), fx(0.0)));
    let textures = TextureStorage::default();
    let q = quad(-1.9, -1.9, 1.9, 1.9, 0.0, rgba(0.0, 0.0, 0.0));
    r.draw_triangle(&Mat4::identity(), &q, &textures).unwrap();
    assert_eq!(pixel(&r, 8, 8), WHITE);
}

#[test]
fn culling_by_winding() {
    let textures = TextureStorage::default();
    // counter-clockwise as seen from the camera
    let q = quad(-1.9, -1.9, 1.9, 1.9, -2.0, rgba(1.0, 1.0, 1.0));
    let drawn = |face: FrontFace, cull: FaceCull| {
        let mut r = renderer(16, 16);
        r.set_front_face(face);
        r.set_face_cull(cull);
        assert_eq!(r.get_front_face() as u8, face as u8);
        assert_eq!(r.get_face_cull() as u8, cull as u8);
        r.draw_triangle(&Mat4::identity(), &q, &textures).unwrap();
        pixel(&r, 8, 8) == WHITE
    };
    // the normal points at the camera, against the viewing direction: a
    // front under counter-clockwise fronts
    assert!(drawn(FrontFace::CCW, FaceCull::Back));
    assert!(!drawn(FrontFace::CCW, FaceCull::Front));
    assert!(!drawn(FrontFace::CW, FaceCull::Back));
    assert!(drawn(FrontFace::CW, FaceCull::Front));
    assert!(drawn(FrontFace::CW, FaceCull::Nothing));
    assert!(drawn(FrontFace::CCW, FaceCull::Nothing));
}

#[test]
fn a_triangle_across_the_near_plane_is_cut() {
    let mut r = renderer(16, 16);
    let textures = TextureStorage::default();
    // a strip along the viewing direction from in front of the near plane
    // into the view, below the eye
    let white = rgba(1.0, 1.0, 1.0);
    let strip = vec![
        vertex(-0.2, -0.5, -0.5, white),
        vertex(0.2, -0.5, -0.5, white),
        vertex(0.0, -0.5, -4.0, white),
    ];
    assert_eq!(r.draw_triangle(&Mat4::identity(), &strip, &textures), Ok(()));
    // what is behind the near plane shows below the middle of the screen
    let lit = (0..16u32)
        .flat_map(|y| (0..16u32).map(move |x| (x, y)))
        .filter(|(x, y)| pixel(&r, *x, *y) == WHITE)
        .collect::<Vec<_>>();
    assert!(!lit.is_empty());
    for (x, y) in &lit {
        assert!(*y >= 9 && *y <= 13, "pixel {} {}", x, y);
        assert!(*x >= 5 && *x <= 9, "pixel {} {}", x, y);
    }
    assert!(lit.contains(&(7, 10)));
}

#[test]
fn a_triangle_beside_the_screen_writes_nothing() {
    let textures = TextureStorage::default();
    let uniforms = Uniforms::default();
    let at = |x: f64, y: f64| {
        let mut v = vertex(x, y, 0.0, rgba(1.0, 1.0, 1.0));
        v.position.z = fx(-2.0);
        v
    };
    let besides = [
        [at(-9.0, 3.0), at(-0.5, 8.0), at(-4.0, 20.0)],
        [at(16.0, 3.0), at(30.0, 8.0), at(17.0, -20.0)],
        [at(-5.0, -0.5), at(8.0, -8.0), at(40.0, -1.0)],
        [at(-5.0, 15.5), at(8.0, 80.0), at(40.0, 16.0)],
    ];
    for wireframe in [false, true] {
        for t in &besides {
            let mut color = ColorAttachment::new(16, 16);
            let mut depth = DepthAttachment::new(16, 16);
            color.clear(&rgba(0.0, 0.0, 1.0));
            depth.clear(Fixed::min_value());
            let before = (color.data().clone(), depth.data().clone());
            for backend in [Backend::Scanline, Backend::Barycentric] {
                rasterize_screen(&mut color, &mut depth, &VertexColor, &uniforms, &textures, wireframe, backend, t);
            }
            assert_eq!((color.data().clone(), depth.data().clone()), before);
        }
    }
    // a triangle that reaches onto the screen does write
    let mut color = ColorAttachment::new(16, 16);
    let mut depth = DepthAttachment::new(16, 16);
    depth.clear(Fixed::min_value());
    let t = [at(-9.0, 3.0), at(4.0, 8.0), at(-4.0, 20.0)];
    rasterize_screen(&mut color, &mut depth, &VertexColor, &uniforms, &textures, false, Backend::Scanline, &t);
    assert!(color.data().iter().any(|b| *b != 0));
}

#[test]
fn a_triangle_past_a_corner_writes_nothing() {
    // its box reaches onto the screen, the triangle does not
    let textures = TextureStorage::default();
    let uniforms = Uniforms::default();
    let at = |x: f64, y: f64| {
        let mut v = vertex(x, y, 0.0, rgba(1.0, 1.0, 1.0));
        v.position.z = fx(-2.0);
        v
    };
    let t = [at(-10.0, 5.0), at(5.0, -10.0), at(-10.0, -10.0)];
    for backend in [Backend::Scanline, Backend::Barycentric] {
        let mut color = ColorAttachment::new(16, 16);
        let mut depth = DepthAttachment::new(16, 16);
        depth.clear(Fixed::min_value());
        rasterize_screen(&mut color, &mut depth, &VertexColor, &uniforms, &textures, false, backend, &t);
        assert!(color.data().iter().all(|b| *b == 0));
        assert!(depth.data().iter().all(|d| *d == Fixed::min_value()));
    }
}

#[test]
fn a_degenerate_triangle_writes_nothing() {
    let mut r = renderer(16, 16);
    let textures = TextureStorage::default();
    let white = rgba(1.0, 1.0, 1.0);
    let line = vec![vertex(-1.0, 0.5, -2.0, white), vertex(0.0, 0.5, -2.0, white), vertex(1.0, 0.5, -2.0, white)];
    assert_eq!(r.draw_triangle(&Mat4::identity(), &line, &textures), Ok(()));
    assert_eq!(r.get_rendered_image(), &[0u8; 16 * 16 * 3]);
}

#[test]
fn wireframe_draws_the_edges() {
    let mut r = renderer(16, 16);
    r.enable_framework();
    let textures = TextureStorage::default();
    let white = rgba(1.0, 1.0, 1.0);
    // on the screen: (1.5, 14.5), (13.5, 14.5), (1.5, 2.5)
    let t = vec![vertex(-1.6, -1.6, -2.0, white), vertex(1.6, -1.6, -2.0, white), vertex(-1.6, 1.6, -2.0, white)];
    r.draw_triangle(&Mat4::identity(), &t, &textures).unwrap();
    for x in 1..=13 {
        assert_eq!(pixel(&r, x, 14), WHITE, "bottom edge {}", x);
    }
    for y in 2..=14 {
        assert_eq!(pixel(&r, 1, y), WHITE, "left edge {}", y);
    }
    // inside and outside of the triangle nothing is drawn
    assert_eq!(pixel(&r, 4, 12), BLACK);
    assert_eq!(pixel(&r, 12, 4), BLACK);
    r.disable_framework();
    r.draw_triangle(&Mat4::identity(), &t, &textures).unwrap();
    assert_eq!(pixel(&r, 4, 12), WHITE);
    r.toggle_framework();
    r.toggle_framework();
    r.clear(&rgba(0.0, 0.0, 0.0));
    r.clear_depth();
    r.draw_triangle(&Mat4::identity(), &t, &textures).unwrap();
    assert_eq!(pixel(&r, 4, 12), WHITE);
}

#[test]
fn the_default_shader_paints_black() {
    let mut r = Renderer::new(16, 16, camera());
    r.clear(&rgba(1.0, 1.0, 1.0));
    r.clear_depth();
    let textures = TextureStorage::default();
    let q = quad(-1.9, -1.9, 1.9, 1.9, -2.0, rgba(1.0, 1.0, 1.0));
    r.draw_triangle(&Mat4::identity(), &q, &textures).unwrap();
    assert_eq!(pixel(&r, 8, 8), BLACK);
    assert_eq!(pixel(&r, 15, 0), WHITE);
    *r.get_shader() = DefaultShader::default();
}

#[test]
fn attributes_are_interpolated_with_perspective() {
    // a floor below the eye from z = -2 to z = -10, with the texture
    // coordinate v running along it: on the screen the middle row of the
    // floor shows a place far nearer than the middle of the floor
    let mut pixels = Vec::new();
    for i in 0..64u32 {
        pixels.extend_from_slice(&[(i * 4) as u8, 0, 0, 255]);
    }
    let mut textures = TextureStorage::default();
    let id = textures.load_pixels(pixels, 1, 64, "ramp").unwrap();
    let mut r = Renderer::with_shader(32, 32, camera(), Textured {});
    r.clear_depth();
    r.get_uniforms().texture.insert(0, id);
    let corner = |x: f64, z: f64, v: f64| {
        let mut attributes = Attributes::default();
        attributes.set_vec2(0, Vec2::new(fx(0.0), fx(v)));
        Vertex::new(Vec3::new(fx(x), fx(-1.0), fx(z)), attributes)
    };
    let floor = vec![
        corner(-1.0, -2.0, 0.0),
        corner(1.0, -2.0, 0.0),
        corner(1.0, -10.0, 1.0),
        corner(-1.0, -2.0, 0.0),
        corner(1.0, -10.0, 1.0),
        corner(-1.0, -10.0, 1.0),
    ];
    r.draw_triangle(&Mat4::identity(), &floor, &textures).unwrap();
    // the floor runs from the row 24.25 (z = -2) up to the row 18.05 (z = -10).
    // In the row 21 the depth is 1 / ((21 - 16.5) / 15.5) = 3.444, where the
    // coordinate is (3.444 - 2) / 8 = 0.1806: row 11 of the texture.
    let shown = pixel(&r, 16, 21)[0] as i32;
    let exact = 0.1806 * 63.0;
    assert!((shown - 4 * exact as i32).abs() <= 4, "shown {}", shown);
    // linear interpolation on the screen would give (24.25 - 21) / 6.2 = 0.52
    assert!(shown < 4 * 20);
    // nearer rows show nearer places
    let mut last = 0;
    for y in (19..=24).rev() {
        let v = pixel(&r, 16, y)[0];
        assert!(v >= last, "row {}", y);
        last = v;
    }
}

#[test]
fn the_camera_can_be_replaced_and_moved() {
    let mut r = renderer(16, 16);
    let textures = TextureStorage::default();
    let q = quad(-1.9, -1.9, 1.9, 1.9, -2.0, rgba(1.0, 1.0, 1.0));
    // from three units back the quad is smaller on the screen
    r.get_camera().move_to(Vec3::new(fx(0.0), fx(0.0), fx(3.0)));
    assert!(r.cuts_once(&Mat4::identity(), &q, &textures));
    r.draw_triangle(&Mat4::identity(), &q, &textures).unwrap();
    assert_eq!(pixel(&r, 8, 8), WHITE);
    assert_eq!(pixel(&r, 2, 8), BLACK);
    r.clear(&rgba(0.0, 0.0, 0.0));
    r.clear_depth();
    r.set_camera(camera());
    r.draw_triangle(&Mat4::identity(), &q, &textures).unwrap();
    assert_eq!(pixel(&r, 2, 8), WHITE);
}

/// The vertex with its position multiplied by `model`.
fn moved(model: &Mat4, v: &Vertex) -> Vertex {
    Vertex { position: *model * v.position, attributes: v.attributes }
}

#[test]
fn a_cut_triangle_goes_through_the_stages_again() {
    let textures = TextureStorage::default();
    let white = rgba(1.0, 1.0, 1.0);
    // the model matrix moves the triangles one unit away from the eye
    let model = create_translate(&Vec3::new(fx(0.0), fx(0.0), fx(-1.0)));
    let streams = [
        // two vertices in front of the near plane, then one
        vec![vertex(-0.2, -0.5, 0.5, white), vertex(0.2, -0.5, 0.5, white), vertex(0.0, -0.5, -3.0, white)],
        vec![vertex(0.0, -0.5, 0.5, white), vertex(0.9, -0.5, -3.0, white), vertex(-0.9, -0.5, -3.0, white)],
    ];
    for (stream, pieces) in streams.iter().zip([1usize, 2]) {
        let mut r = renderer(16, 16);
        assert!(r.cuts_once(&model, stream, &textures));
        assert_eq!(r.draw_triangle(&model, stream, &textures), Ok(()));
        // by hand: the triangle of view space is cut, and each piece is
        // moved by the model matrix once more
        let in_view = [moved(&model, &stream[0]), moved(&model, &stream[1]), moved(&model, &stream[2])];
        let (first, second) = near_plane_clip(&in_view, fx(1.0));
        let mut cut: Vec<Vertex> = first.to_vec();
        cut.extend(second.iter().flatten());
        assert_eq!(cut.len(), 3 * pieces);
        let again: Vec<Vertex> = cut.iter().map(|v| moved(&model, v)).collect();
        let mut by_hand = renderer(16, 16);
        assert_eq!(by_hand.draw_triangle(&Mat4::identity(), &again, &textures), Ok(()));
        assert_eq!(r.get_rendered_image(), by_hand.get_rendered_image());
        assert!(r.get_rendered_image().contains(&255));
        // the pieces as the cut left them show elsewhere
        let mut left = renderer(16, 16);
        assert_eq!(left.draw_triangle(&Mat4::identity(), &cut, &textures), Ok(()));
        assert_ne!(r.get_rendered_image(), left.get_rendered_image());
    }
}

#[test]
fn a_cut_triangle_can_be_culled_on_its_second_way() {
    let textures = TextureStorage::default();
    let white = rgba(1.0, 1.0, 1.0);
    // the model matrix turns every triangle over: on its first way the
    // triangle faces the camera, on its second way it faces away
    let mut model = Mat4::identity();
    model.set(0, 0, fx(-1.0));
    let stream = vec![vertex(0.0, -0.5, -0.5, white), vertex(0.9, -0.9, -3.0, white), vertex(-0.9, -0.9, -3.0, white)];
    let drawn = |cull: FaceCull| {
        let mut r = renderer(16, 16);
        r.set_front_face(FrontFace::CCW);
        r.set_face_cull(cull);
        assert!(r.cuts_once(&model, &stream, &textures));
        assert_eq!(r.draw_triangle(&model, &stream, &textures), Ok(()));
        r.get_rendered_image().contains(&255)
    };
    assert!(drawn(FaceCull::Nothing));
    // dropped on the first way under one rule, on the second under the other
    assert!(!drawn(FaceCull::Back));
    assert!(!drawn(FaceCull::Front));
}

#[test]
fn a_stream_that_would_be_cut_twice_is_known() {
    let textures = TextureStorage::default();
    let white = rgba(1.0, 1.0, 1.0);
    let r = renderer(16, 16);
    let strip = vec![
        vertex(-0.2, -0.5, -1.25, white),
        vertex(0.2, -0.5, -1.25, white),
        vertex(0.0, -0.5, -4.75, white),
    ];
    // as it stands the strip lies behind the near plane
    assert!(r.cuts_once(&Mat4::identity(), &strip, &textures));
    // moved toward the eye it is cut, and the piece that is left is moved
    // across the near plane once more
    let toward = create_translate(&Vec3::new(fx(0.0), fx(0.0), fx(0.75)));
    assert!(!r.cuts_once(&toward, &strip, &textures));
    // moved away from the eye the piece stays behind the plane
    let away = create_translate(&Vec3::new(fx(0.0), fx(0.0), fx(-0.25)));
    let near = vec![
        vertex(-0.2, -0.5, -0.5, white),
        vertex(0.2, -0.5, -0.5, white),
        vertex(0.0, -0.5, -4.0, white),
    ];
    assert!(r.cuts_once(&away, &near, &textures));
    // with the identity no stream is cut twice
    assert!(r.cuts_once(&Mat4::identity(), &near, &textures));
}

#[test]
fn a_triangle_that_grazes_a_corner() {
    // the long edge passes the corner pixel at a distance of a few parts in
    // 65536: no pixel lies in the triangle
    let textures = TextureStorage::default();
    let uniforms = Uniforms::default();
    let at = |x: i32, y: i32| {
        let mut v = vertex(0.0, 0.0, 0.0, rgba(1.0, 1.0, 1.0));
        v.position = Vec4::new(Fixed::from_raw(x), Fixed::from_raw(y), fx(2.0), fx(1.0));
        v
    };
    for short in [1, 7, 20, 29] {
        let t = [at(-10 * 65536, 10 * 65536 - short), at(5 * 65536, -5 * 65536), at(-10 * 65536, -5 * 65536)];
        // the weights of the bounding-box rasterizer are tested exactly
        let mut color = ColorAttachment::new(16, 16);
        let mut depth = DepthAttachment::new(16, 16);
        depth.clear(Fixed::min_value());
        rasterize_screen(&mut color, &mut depth, &VertexColor, &uniforms, &textures, false, Backend::Barycentric, &t);
        assert!(color.data().iter().all(|b| *b == 0));
        assert!(depth.data().iter().all(|d| *d == Fixed::min_value()));
        // the ends of a scanline are rounded: it may reach the corner pixel,
        // and no other
        let mut color = ColorAttachment::new(16, 16);
        let mut depth = DepthAttachment::new(16, 16);
        depth.clear(Fixed::min_value());
        rasterize_screen(&mut color, &mut depth, &VertexColor, &uniforms, &textures, false, Backend::Scanline, &t);
        assert!(color.data()[3..].iter().all(|b| *b == 0));
        assert!(depth.data()[1..].iter().all(|d| *d == Fixed::min_value()));
    }
}
