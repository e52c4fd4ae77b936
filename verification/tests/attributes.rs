use rs_cpurenderer::fixed::Fixed;
use rs_cpurenderer::line::Line;
use rs_cpurenderer::math::{lerp, Vec2, Vec3, Vec4};
use rs_cpurenderer::shader::{
    attributes_foreach, interp_attributes, lerp_vertex, vertex_rhw_init, Attributes,
    DefaultShader, Shader, Uniforms, Vertex,
};
use rs_cpurenderer::texture::TextureStorage;

fn fx(v: f64) -> Fixed {
    Fixed::from_raw((v * 65536.0) as i32)
}

fn sample() -> Attributes {
    let mut a = Attributes::default();
    a.set_float(0, fx(1.0));
    a.set_float(3, fx(-2.0));
    a.set_vec2(1, Vec2::new(fx(3.0), fx(4.0)));
    a.set_vec3(2, Vec3::new(fx(5.0), fx(6.0), fx(7.0)));
    a.set_vec4(0, Vec4::new(fx(8.0), fx(9.0), fx(10.0), fx(11.0)));
    a
}

fn same(a: &Attributes, b: &Attributes) -> bool {
    a.float == b.float && a.vec2 == b.vec2 && a.vec3 == b.vec3 && a.vec4 == b.vec4
}

#[test]
fn the_default_is_all_zero() {
    let a = Attributes::default();
    assert_eq!(a.float, [Fixed::zero(); 4]);
    assert_eq!(a.vec2, [Vec2::zero(); 4]);
    assert_eq!(a.vec3, [Vec3::zero(); 4]);
    assert_eq!(a.vec4, [Vec4::zero(); 4]);
}

#[test]
fn setters_write_one_slot() {
    let a = sample();
    assert_eq!(a.float, [fx(1.0), fx(0.0), fx(0.0), fx(-2.0)]);
    assert_eq!(a.vec2[1], Vec2::new(fx(3.0), fx(4.0)));
    assert_eq!(a.vec2[0], Vec2::zero());
    assert_eq!(a.vec3[2], Vec3::new(fx(5.0), fx(6.0), fx(7.0)));
    assert_eq!(a.vec4[0], Vec4::new(fx(8.0), fx(9.0), fx(10.0), fx(11.0)));
}

#[test]
fn foreach_reaches_every_number() {
    let mut a = sample();
    attributes_foreach(&mut a, |v| v * fx(2.0));
    assert_eq!(a.float, [fx(2.0), fx(0.0), fx(0.0), fx(-4.0)]);
    assert_eq!(a.vec2[1], Vec2::new(fx(6.0), fx(8.0)));
    assert_eq!(a.vec3[2], Vec3::new(fx(10.0), fx(12.0), fx(14.0)));
    assert_eq!(a.vec4[0], Vec4::new(fx(16.0), fx(18.0), fx(20.0), fx(22.0)));
    let mut b = Attributes::default();
    attributes_foreach(&mut b, |v| v + Fixed::one());
    assert_eq!(b.float, [Fixed::one(); 4]);
    assert_eq!(b.vec4[3], Vec4::new(fx(1.0), fx(1.0), fx(1.0), fx(1.0)));
}

#[test]
fn interp_pairs_matching_numbers() {
    let a = sample();
    let mut b = Attributes::default();
    b.set_float(0, fx(3.0));
    b.set_vec2(1, Vec2::new(fx(1.0), fx(8.0)));
    let blend = interp_attributes(&a, &b, lerp, fx(0.5));
    assert_eq!(blend.float, [fx(2.0), fx(0.0), fx(0.0), fx(-1.0)]);
    assert_eq!(blend.vec2[1], Vec2::new(fx(2.0), fx(6.0)));
    assert_eq!(blend.vec3[2], Vec3::new(fx(2.5), fx(3.0), fx(3.5)));
    let step = interp_attributes(&a, &b, |x, y, t| (y - x) * t, fx(0.25));
    assert_eq!(step.float[0], fx(0.5));
    assert_eq!(step.vec4[0], Vec4::new(fx(-2.0), fx(-2.25), fx(-2.5), fx(-2.75)));
    assert!(same(&interp_attributes(&a, &b, lerp, fx(0.0)), &a));
    assert!(same(&interp_attributes(&a, &b, lerp, fx(1.0)), &b));
}

#[test]
fn a_vertex_from_a_point_has_w_one() {
    let v = Vertex::new(Vec3::new(fx(1.0), fx(2.0), fx(3.0)), sample());
    assert_eq!(v.position, Vec4::new(fx(1.0), fx(2.0), fx(3.0), fx(1.0)));
    assert!(same(&v.attributes, &sample()));
}

#[test]
fn blending_vertices() {
    let a = Vertex::new(Vec3::new(fx(0.0), fx(0.0), fx(2.0)), Attributes::default());
    let b = Vertex::new(Vec3::new(fx(4.0), fx(-8.0), fx(6.0)), sample());
    let m = lerp_vertex(&a, &b, fx(0.25));
    assert_eq!(m.position, Vec4::new(fx(1.0), fx(-2.0), fx(3.0), fx(1.0)));
    assert_eq!(m.attributes.float[0], fx(0.25));
    assert_eq!(m.attributes.vec3[2], Vec3::new(fx(1.25), fx(1.5), fx(1.75)));
}

#[test]
fn reciprocal_depth() {
    let mut v = Vertex::new(Vec3::new(fx(3.0), fx(5.0), fx(-4.0)), sample());
    vertex_rhw_init(&mut v);
    assert_eq!(v.position, Vec4::new(fx(3.0), fx(5.0), fx(-0.25), fx(1.0)));
    assert_eq!(v.attributes.float, [fx(-0.25), fx(0.0), fx(0.0), fx(0.5)]);
    assert_eq!(v.attributes.vec2[1], Vec2::new(fx(-0.75), fx(-1.0)));
}

#[test]
fn the_step_of_a_line_moves_one_pixel_along_its_major_axis() {
    let mut attributes = Attributes::default();
    attributes.set_float(1, fx(8.0));
    let a = Vertex::new(Vec3::new(fx(1.0), fx(1.0), fx(1.0)), Attributes::default());
    let b = Vertex::new(Vec3::new(fx(5.0), fx(3.0), fx(3.0)), attributes);
    let line = Line::new(a, b);
    assert_eq!(line.step.position, Vec4::new(fx(1.0), fx(0.5), fx(0.5), fx(0.0)));
    assert_eq!(line.step.attributes.float[1], fx(2.0));
    let steep = Line::new(b, Vertex::new(Vec3::new(fx(4.0), fx(-5.0), fx(3.0)), attributes));
    assert_eq!(steep.step.position, Vec4::new(fx(-0.125), fx(-1.0), fx(0.0), fx(0.0)));
    assert_eq!(steep.start.position, b.position);
}

#[test]
fn uniforms_are_independent_maps() {
    let mut u = Uniforms::default();
    u.int.insert(1, 7);
    u.float.insert(1, fx(0.5));
    u.vec4.insert(1, Vec4::zero());
    u.texture.insert(1, 3);
    assert_eq!(u.int.get(&1), Some(&7));
    assert_eq!(u.float.get(&1), Some(&fx(0.5)));
    assert!(u.vec2.get(&1).is_none());
    u.clear();
    assert!(u.int.is_empty() && u.float.is_empty() && u.vec4.is_empty() && u.mat4.is_empty());
    // the texture identifiers stay
    assert_eq!(u.texture.get(&1), Some(&3));
}

#[test]
fn the_default_shader() {
    let textures = TextureStorage::default();
    let uniforms = Uniforms::default();
    let shader = DefaultShader::default();
    let v = Vertex::new(Vec3::new(fx(1.0), fx(2.0), fx(3.0)), sample());
    let out = shader.call_vertex_changing(&v, &uniforms, &textures);
    assert_eq!(out.position, v.position);
    assert!(same(&out.attributes, &v.attributes));
    let color = shader.call_pixel_shading(&sample(), &uniforms, &textures);
    assert_eq!(color, Vec4::new(fx(0.0), fx(0.0), fx(0.0), fx(1.0)));
}
