use rs_cpurenderer::fixed::Fixed;
use rs_cpurenderer::math::{Vec2, Vec3, Vec4};
use rs_cpurenderer::model::{Mesh, Vertex};
use rs_cpurenderer::scene::{restruct_model_vertex, Textured, UNIFORM_COLOR, UNIFORM_TEXTURE};
use rs_cpurenderer::shader::{Attributes, Shader, Uniforms};
use rs_cpurenderer::texture::TextureStorage;

fn fx(v: f64) -> Fixed {
    Fixed::from_raw((v * 65536.0) as i32)
}

#[test]
fn corners_become_vertices_with_attributes() {
    let corner = |x: f64| Vertex {
        position: Vec3::new(fx(x), fx(2.0), fx(3.0)),
        normal: Vec3::new(fx(0.0), fx(1.0), fx(0.0)),
        texcoord: Vec2::new(fx(0.25), fx(x)),
        color: Vec4::zero(),
    };
    let mesh = Mesh { vertices: vec![corner(0.0), corner(0.5)], name: None, mtllib: None, material: None };
    let stream = restruct_model_vertex(&mesh);
    assert_eq!(stream.len(), 2);
    assert_eq!(stream[1].position, Vec4::new(fx(0.5), fx(2.0), fx(3.0), fx(1.0)));
    assert_eq!(stream[1].attributes.vec2[0], Vec2::new(fx(0.25), fx(0.5)));
    assert_eq!(stream[1].attributes.vec3[0], Vec3::new(fx(0.0), fx(1.0), fx(0.0)));
    assert_eq!(stream[0].attributes.vec2[1], Vec2::zero());
    assert_eq!(stream[0].attributes.float, [Fixed::zero(); 4]);
    let empty = Mesh { vertices: vec![], name: None, mtllib: None, material: None };
    assert!(restruct_model_vertex(&empty).is_empty());
}

#[test]
fn the_textured_shader() {
    let mut textures = TextureStorage::default();
    // two pixels side by side: dark red and white
    let id = textures.load_pixels(vec![51, 0, 0, 255, 255, 255, 255, 255], 2, 1, "pair").unwrap();
    textures.load_pixels(vec![], 0, 0, "empty").unwrap();
    let mut uniforms = Uniforms::default();
    let shade = |uniforms: &Uniforms, u: f64| {
        let mut a = Attributes::default();
        a.set_vec2(0, Vec2::new(fx(u), fx(0.5)));
        Textured {}.call_pixel_shading(&a, uniforms, &textures)
    };
    let white = Vec4::new(fx(1.0), fx(1.0), fx(1.0), fx(1.0));
    // without a texture the colour alone, white where none is set
    assert_eq!(shade(&uniforms, 0.0), white);
    let half = Vec4::new(fx(0.5), fx(0.5), fx(0.5), fx(1.0));
    uniforms.vec4.insert(UNIFORM_COLOR, half);
    assert_eq!(shade(&uniforms, 0.0), half);
    // the colour times the texture
    uniforms.texture.insert(UNIFORM_TEXTURE, id);
    assert_eq!(shade(&uniforms, 1.0), half);
    let dark = shade(&uniforms, 0.0);
    assert_eq!((dark.y, dark.z, dark.w), (fx(0.0), fx(0.0), fx(1.0)));
    assert!((dark.x.raw - 6554).abs() <= 1);
    // the coordinate is clamped to the image
    assert_eq!(shade(&uniforms, 7.5), half);
    assert_eq!(shade(&uniforms, -3.0), dark);
    // a texture that is not there, or is empty, is left out
    uniforms.texture.insert(UNIFORM_TEXTURE, 9);
    assert_eq!(shade(&uniforms, 0.0), half);
    uniforms.texture.insert(UNIFORM_TEXTURE, 1);
    assert_eq!(shade(&uniforms, 0.0), half);
    let v = rs_cpurenderer::shader::Vertex::new(Vec3::zero(), Attributes::default());
    assert_eq!(Textured {}.call_vertex_changing(&v, &uniforms, &textures).position, v.position);
}
