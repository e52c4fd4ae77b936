//! What flows through the pipeline and what the programmable stages see:
//! per-vertex attributes, vertices, uniforms and the shader interface.
use crate::fixed::Fixed;
use crate::math::transform::{lerp, spec_lerp};
use crate::math::vector::{Vec2, Vec3, Vec4};
use crate::math::matrix::Mat4;
use crate::texture::TextureStorage;
use std::collections::HashMap;
use vstd::prelude::*;

verus! {

/// Number of slots of each sort in an [`Attributes`] record.
pub const MAX_ATTRIBUTES_NUM: usize = 4;

/// Per-vertex data, interpolated across a primitive and handed to the
/// fragment stage: four slots each of numbers and of vectors of two, three
/// and four components, addressed by a location below four.
#[derive(Clone, Copy, Debug)]
pub struct Attributes {
    pub float: [Fixed; 4],
    pub vec2: [Vec2; 4],
    pub vec3: [Vec3; 4],
    pub vec4: [Vec4; 4],
}

impl Attributes {
    /// The record with zero in every slot.
    pub open spec fn spec_default() -> Attributes {
        Attributes {
            float: [Fixed { raw: 0 }, Fixed { raw: 0 }, Fixed { raw: 0 }, Fixed { raw: 0 }],
            vec2: [
                Vec2::spec_zero(),
                Vec2::spec_zero(),
                Vec2::spec_zero(),
                Vec2::spec_zero(),
            ],
            vec3: [
                Vec3::spec_zero(),
                Vec3::spec_zero(),
                Vec3::spec_zero(),
                Vec3::spec_zero(),
            ],
            vec4: [
                Vec4::spec_zero(),
                Vec4::spec_zero(),
                Vec4::spec_zero(),
                Vec4::spec_zero(),
            ],
        }
    }

    /// `f` applied to every number of every slot.
    pub open spec fn map(self, f: spec_fn(Fixed) -> Fixed) -> Attributes {
        Attributes {
            float: [f(self.float[0]), f(self.float[1]), f(self.float[2]), f(self.float[3])],
            vec2: [
                self.vec2[0].map(f),
                self.vec2[1].map(f),
                self.vec2[2].map(f),
                self.vec2[3].map(f),
            ],
            vec3: [
                self.vec3[0].map(f),
                self.vec3[1].map(f),
                self.vec3[2].map(f),
                self.vec3[3].map(f),
            ],
            vec4: [
                self.vec4[0].map(f),
                self.vec4[1].map(f),
                self.vec4[2].map(f),
                self.vec4[3].map(f),
            ],
        }
    }

    /// `f` applied to every pair of matching numbers of the two records.
    pub open spec fn zip(self, rhs: Attributes, f: spec_fn(Fixed, Fixed) -> Fixed) -> Attributes {
        Attributes {
            float: [f(self.float[0], rhs.float[0]), f(self.float[1], rhs.float[1]), f(self.float[2], rhs.float[2]), f(self.float[3], rhs.float[3])],
            vec2: [
                self.vec2[0].zip(rhs.vec2[0], f),
                self.vec2[1].zip(rhs.vec2[1], f),
                self.vec2[2].zip(rhs.vec2[2], f),
                self.vec2[3].zip(rhs.vec2[3], f),
            ],
            vec3: [
                self.vec3[0].zip(rhs.vec3[0], f),
                self.vec3[1].zip(rhs.vec3[1], f),
                self.vec3[2].zip(rhs.vec3[2], f),
                self.vec3[3].zip(rhs.vec3[3], f),
            ],
            vec4: [
                self.vec4[0].zip(rhs.vec4[0], f),
                self.vec4[1].zip(rhs.vec4[1], f),
                self.vec4[2].zip(rhs.vec4[2], f),
                self.vec4[3].zip(rhs.vec4[3], f),
            ],
        }
    }

    pub fn set_float(&mut self, location: usize, value: Fixed)
        requires
            location < 4,
        ensures
            final(self).float@ == old(self).float@.update(location as int, value),
            final(self).vec2 == old(self).vec2,
            final(self).vec3 == old(self).vec3,
            final(self).vec4 == old(self).vec4,
    {
        self.float[location] = value;
    }

    pub fn set_vec2(&mut self, location: usize, value: Vec2)
        requires
            location < 4,
        ensures
            final(self).vec2@ == old(self).vec2@.update(location as int, value),
            final(self).float == old(self).float,
            final(self).vec3 == old(self).vec3,
            final(self).vec4 == old(self).vec4,
    {
        self.vec2[location] = value;
    }

    pub fn set_vec3(&mut self, location: usize, value: Vec3)
        requires
            location < 4,
        ensures
            final(self).vec3@ == old(self).vec3@.update(location as int, value),
            final(self).float == old(self).float,
            final(self).vec2 == old(self).vec2,
            final(self).vec4 == old(self).vec4,
    {
        self.vec3[location] = value;
    }

    pub fn set_vec4(&mut self, location: usize, value: Vec4)
        requires
            location < 4,
        ensures
            final(self).vec4@ == old(self).vec4@.update(location as int, value),
            final(self).float == old(self).float,
            final(self).vec2 == old(self).vec2,
            final(self).vec3 == old(self).vec3,
    {
        self.vec4[location] = value;
    }
}

impl Default for Attributes {
    fn default() -> (r: Attributes)
        ensures
            r == Attributes::spec_default(),
    {
        let z = Fixed::zero();
        let r = Attributes {
            float: [z, z, z, z],
            vec2: [Vec2::zero(), Vec2::zero(), Vec2::zero(), Vec2::zero()],
            vec3: [Vec3::zero(), Vec3::zero(), Vec3::zero(), Vec3::zero()],
            vec4: [Vec4::zero(), Vec4::zero(), Vec4::zero(), Vec4::zero()],
        };
        proof {
            lemma_attributes_equal(r, Attributes::spec_default());
        }
        r
    }
}

/// Two records with the same content in every slot are the same record.
pub proof fn lemma_attributes_equal(a: Attributes, b: Attributes)
    requires
        forall|i: int| 0 <= i < 4 ==> a.float[i] == b.float[i],
        forall|i: int| 0 <= i < 4 ==> a.vec2[i] == b.vec2[i],
        forall|i: int| 0 <= i < 4 ==> a.vec3[i] == b.vec3[i],
        forall|i: int| 0 <= i < 4 ==> a.vec4[i] == b.vec4[i],
    ensures
        a == b,
{
    assert(a.float =~= b.float);
    assert(a.vec2 =~= b.vec2);
    assert(a.vec3 =~= b.vec3);
    assert(a.vec4 =~= b.vec4);
}

/// The record of `f(a, b, t)` over every pair of matching numbers `a` of
/// `attr1` and `b` of `attr2`.  Whatever function of the pair `f` computes
/// for this `t`, the result is the two records zipped by it.
pub fn interp_attributes<F>(attr1: &Attributes, attr2: &Attributes, f: F, t: Fixed) -> (r:
    Attributes) where F: Fn(Fixed, Fixed, Fixed) -> Fixed
    requires
        forall|a: Fixed, b: Fixed| call_requires(f, (a, b, t)),
    ensures
        forall|g: spec_fn(Fixed, Fixed) -> Fixed|
            (forall|a: Fixed, b: Fixed, o: Fixed| call_ensures(f, (a, b, t), o) ==> o == g(a, b))
                ==> r == #[trigger] attr1.zip(*attr2, g),
{
    let r = Attributes {
        float: [f(attr1.float[0], attr2.float[0], t), f(attr1.float[1], attr2.float[1], t), f(attr1.float[2], attr2.float[2], t), f(attr1.float[3], attr2.float[3], t)],
        vec2: [
            Vec2 { x: f(attr1.vec2[0].x, attr2.vec2[0].x, t), y: f(attr1.vec2[0].y, attr2.vec2[0].y, t) },
            Vec2 { x: f(attr1.vec2[1].x, attr2.vec2[1].x, t), y: f(attr1.vec2[1].y, attr2.vec2[1].y, t) },
            Vec2 { x: f(attr1.vec2[2].x, attr2.vec2[2].x, t), y: f(attr1.vec2[2].y, attr2.vec2[2].y, t) },
            Vec2 { x: f(attr1.vec2[3].x, attr2.vec2[3].x, t), y: f(attr1.vec2[3].y, attr2.vec2[3].y, t) },
        ],
        vec3: [
            Vec3 { x: f(attr1.vec3[0].x, attr2.vec3[0].x, t), y: f(attr1.vec3[0].y, attr2.vec3[0].y, t), z: f(attr1.vec3[0].z, attr2.vec3[0].z, t) },
            Vec3 { x: f(attr1.vec3[1].x, attr2.vec3[1].x, t), y: f(attr1.vec3[1].y, attr2.vec3[1].y, t), z: f(attr1.vec3[1].z, attr2.vec3[1].z, t) },
            Vec3 { x: f(attr1.vec3[2].x, attr2.vec3[2].x, t), y: f(attr1.vec3[2].y, attr2.vec3[2].y, t), z: f(attr1.vec3[2].z, attr2.vec3[2].z, t) },
            Vec3 { x: f(attr1.vec3[3].x, attr2.vec3[3].x, t), y: f(attr1.vec3[3].y, attr2.vec3[3].y, t), z: f(attr1.vec3[3].z, attr2.vec3[3].z, t) },
        ],
        vec4: [
            Vec4 { x: f(attr1.vec4[0].x, attr2.vec4[0].x, t), y: f(attr1.vec4[0].y, attr2.vec4[0].y, t), z: f(attr1.vec4[0].z, attr2.vec4[0].z, t), w: f(attr1.vec4[0].w, attr2.vec4[0].w, t) },
            Vec4 { x: f(attr1.vec4[1].x, attr2.vec4[1].x, t), y: f(attr1.vec4[1].y, attr2.vec4[1].y, t), z: f(attr1.vec4[1].z, attr2.vec4[1].z, t), w: f(attr1.vec4[1].w, attr2.vec4[1].w, t) },
            Vec4 { x: f(attr1.vec4[2].x, attr2.vec4[2].x, t), y: f(attr1.vec4[2].y, attr2.vec4[2].y, t), z: f(attr1.vec4[2].z, attr2.vec4[2].z, t), w: f(attr1.vec4[2].w, attr2.vec4[2].w, t) },
            Vec4 { x: f(attr1.vec4[3].x, attr2.vec4[3].x, t), y: f(attr1.vec4[3].y, attr2.vec4[3].y, t), z: f(attr1.vec4[3].z, attr2.vec4[3].z, t), w: f(attr1.vec4[3].w, attr2.vec4[3].w, t) },
        ],
    };
    assert forall|g: spec_fn(Fixed, Fixed) -> Fixed|
        (forall|a: Fixed, b: Fixed, o: Fixed|
            call_ensures(f, (a, b, t), o) ==> o == g(a, b)) implies r == #[trigger] attr1.zip(
        *attr2,
        g,
    ) by {
        lemma_attributes_equal(r, attr1.zip(*attr2, g));
    }
    r
}

/// Replaces every number `a` of the record by `f(a)`.  Whatever function `f`
/// computes, the result is the record mapped by it.
pub fn attributes_foreach<F>(attr: &mut Attributes, f: F) where F: Fn(Fixed) -> Fixed
    requires
        forall|a: Fixed| call_requires(f, (a,)),
    ensures
        forall|g: spec_fn(Fixed) -> Fixed|
            (forall|a: Fixed, o: Fixed| call_ensures(f, (a,), o) ==> o == g(a)) ==> *final(attr)
                == #[trigger] old(attr).map(g),
{
    let r = Attributes {
        float: [f(attr.float[0]), f(attr.float[1]), f(attr.float[2]), f(attr.float[3])],
        vec2: [
            Vec2 { x: f(attr.vec2[0].x), y: f(attr.vec2[0].y) },
            Vec2 { x: f(attr.vec2[1].x), y: f(attr.vec2[1].y) },
            Vec2 { x: f(attr.vec2[2].x), y: f(attr.vec2[2].y) },
            Vec2 { x: f(attr.vec2[3].x), y: f(attr.vec2[3].y) },
        ],
        vec3: [
            Vec3 { x: f(attr.vec3[0].x), y: f(attr.vec3[0].y), z: f(attr.vec3[0].z) },
            Vec3 { x: f(attr.vec3[1].x), y: f(attr.vec3[1].y), z: f(attr.vec3[1].z) },
            Vec3 { x: f(attr.vec3[2].x), y: f(attr.vec3[2].y), z: f(attr.vec3[2].z) },
            Vec3 { x: f(attr.vec3[3].x), y: f(attr.vec3[3].y), z: f(attr.vec3[3].z) },
        ],
        vec4: [
            Vec4 { x: f(attr.vec4[0].x), y: f(attr.vec4[0].y), z: f(attr.vec4[0].z), w: f(attr.vec4[0].w) },
            Vec4 { x: f(attr.vec4[1].x), y: f(attr.vec4[1].y), z: f(attr.vec4[1].z), w: f(attr.vec4[1].w) },
            Vec4 { x: f(attr.vec4[2].x), y: f(attr.vec4[2].y), z: f(attr.vec4[2].z), w: f(attr.vec4[2].w) },
            Vec4 { x: f(attr.vec4[3].x), y: f(attr.vec4[3].y), z: f(attr.vec4[3].z), w: f(attr.vec4[3].w) },
        ],
    };
    assert forall|g: spec_fn(Fixed) -> Fixed|
        (forall|a: Fixed, o: Fixed| call_ensures(f, (a,), o) ==> o == g(a)) implies r
        == #[trigger] attr.map(g) by {
        lemma_attributes_equal(r, attr.map(g));
    }
    *attr = r;
}

/// A position in homogeneous coordinates with its attributes.
#[derive(Clone, Copy, Debug)]
pub struct Vertex {
    pub position: Vec4,
    pub attributes: Attributes,
}

impl Vertex {
    /// The vertex at the point `position`: its fourth coordinate is one.
    pub fn new(position: Vec3, attributes: Attributes) -> (r: Vertex)
        ensures
            r.position == (Vec4 { x: position.x, y: position.y, z: position.z, w: Fixed { raw: 65536 } }),
            r.attributes == attributes,
    {
        Vertex { position: Vec4::from_vec3(&position, Fixed::one()), attributes }
    }
}

/// The blend of two vertices, position and attributes alike.
pub open spec fn spec_lerp_vertex(start: Vertex, end: Vertex, t: Fixed) -> Vertex {
    Vertex {
        position: start.position.plus(end.position.minus(start.position).scaled(t)),
        attributes: start.attributes.zip(end.attributes, |a: Fixed, b: Fixed| spec_lerp(a, b, t)),
    }
}

pub fn lerp_vertex(start: &Vertex, end: &Vertex, t: Fixed) -> (r: Vertex)
    ensures
        r == spec_lerp_vertex(*start, *end, t),
{
    let position = start.position + (end.position - start.position) * t;
    let attributes = interp_attributes(&start.attributes, &end.attributes, lerp, t);
    proof {
        let g = |a: Fixed, b: Fixed| spec_lerp(a, b, t);
        assert(attributes == start.attributes.zip(end.attributes, g));
    }
    Vertex { position, attributes }
}

/// The vertex prepared for perspective-correct interpolation: its depth is
/// replaced by the reciprocal, and every attribute is multiplied by that
/// reciprocal.
pub open spec fn spec_rhw_init(vertex: Vertex) -> Vertex {
    let rhw = Fixed { raw: 65536 }.over(vertex.position.z);
    Vertex {
        position: Vec4 {
            x: vertex.position.x,
            y: vertex.position.y,
            z: rhw,
            w: vertex.position.w,
        },
        attributes: vertex.attributes.map(|a: Fixed| a.times(rhw)),
    }
}

fn scale_by(value: Fixed, k: Fixed) -> (r: Fixed)
    ensures
        r == value.times(k),
{
    value * k
}

/// Multiplies every attribute by `k`.
pub fn scale_attributes(attr: &mut Attributes, k: Fixed)
    ensures
        *final(attr) == old(attr).map(|a: Fixed| a.times(k)),
{
    let f = |value: Fixed| -> (r: Fixed)
        ensures
            r == value.times(k),
        { scale_by(value, k) };
    attributes_foreach(attr, f);
    proof {
        let g = |a: Fixed| a.times(k);
        assert(*attr == old(attr).map(g));
    }
}

fn divide_by(value: Fixed, k: Fixed) -> (r: Fixed)
    ensures
        r == value.over(k),
{
    value / k
}

/// Divides every attribute by `k`.
pub fn divide_attributes(attr: &mut Attributes, k: Fixed)
    ensures
        *final(attr) == old(attr).map(|a: Fixed| a.over(k)),
{
    let f = |value: Fixed| -> (r: Fixed)
        ensures
            r == value.over(k),
        { divide_by(value, k) };
    attributes_foreach(attr, f);
    proof {
        let g = |a: Fixed| a.over(k);
        assert(*attr == old(attr).map(g));
    }
}

pub fn vertex_rhw_init(vertex: &mut Vertex)
    ensures
        *final(vertex) == spec_rhw_init(*old(vertex)),
{
    let rhw_z = Fixed::one() / vertex.position.z;
    let mut attributes = vertex.attributes;
    scale_attributes(&mut attributes, rhw_z);
    *vertex = Vertex {
        position: Vec4 {
            x: vertex.position.x,
            y: vertex.position.y,
            z: rhw_z,
            w: vertex.position.w,
        },
        attributes,
    };
}

/// The values that the host hands to the programmable stages, by sort and
/// by location.  The maps of different sorts are independent of each other.
pub struct Uniforms {
    pub int: HashMap<u32, i32>,
    pub float: HashMap<u32, Fixed>,
    pub vec2: HashMap<u32, Vec2>,
    pub vec3: HashMap<u32, Vec3>,
    pub vec4: HashMap<u32, Vec4>,
    pub mat4: HashMap<u32, Mat4>,
    pub texture: HashMap<u32, u32>,
}

impl Uniforms {
    /// Whether no value of any sort is set.
    pub open spec fn is_empty(&self) -> bool {
        &&& self.int@ == Map::<u32, i32>::empty()
        &&& self.float@ == Map::<u32, Fixed>::empty()
        &&& self.vec2@ == Map::<u32, Vec2>::empty()
        &&& self.vec3@ == Map::<u32, Vec3>::empty()
        &&& self.vec4@ == Map::<u32, Vec4>::empty()
        &&& self.mat4@ == Map::<u32, Mat4>::empty()
        &&& self.texture@ == Map::<u32, u32>::empty()
    }

    /// Removes the numbers, vectors and matrices; the texture identifiers stay.
    pub fn clear(&mut self)
        ensures
            final(self).int@ == Map::<u32, i32>::empty(),
            final(self).float@ == Map::<u32, Fixed>::empty(),
            final(self).vec2@ == Map::<u32, Vec2>::empty(),
            final(self).vec3@ == Map::<u32, Vec3>::empty(),
            final(self).vec4@ == Map::<u32, Vec4>::empty(),
            final(self).mat4@ == Map::<u32, Mat4>::empty(),
            final(self).texture == old(self).texture,
    {
        self.int.clear();
        self.float.clear();
        self.vec2.clear();
        self.vec3.clear();
        self.vec4.clear();
        self.mat4.clear();
    }
}

impl Default for Uniforms {
    fn default() -> (r: Uniforms)
        ensures
            r.is_empty(),
    {
        Uniforms {
            int: HashMap::new(),
            float: HashMap::new(),
            vec2: HashMap::new(),
            vec3: HashMap::new(),
            vec4: HashMap::new(),
            mat4: HashMap::new(),
            texture: HashMap::new(),
        }
    }
}

/// The two programmable stages.
///
/// Both are functions of their arguments alone: `vertex_changing` and
/// `pixel_shading` say what the stages compute, and the executable methods
/// return exactly that.  The uniforms and the textures are read, never
/// written.
pub trait Shader {
    /// What the vertex stage makes of `vertex`.  A shader that does not say
    /// leaves it open.
    open spec fn vertex_changing(
        &self,
        vertex: Vertex,
        uniforms: Uniforms,
        textures: TextureStorage,
    ) -> Vertex {
        arbitrary()
    }

    /// The colour that the fragment stage gives to `attributes`.  A shader
    /// that does not say leaves it open.
    open spec fn pixel_shading(
        &self,
        attributes: Attributes,
        uniforms: Uniforms,
        textures: TextureStorage,
    ) -> Vec4 {
        arbitrary()
    }

    fn call_vertex_changing(
        &self,
        vertex: &Vertex,
        uniforms: &Uniforms,
        texture_storage: &TextureStorage,
    ) -> (r: Vertex)
        ensures
            r == self.vertex_changing(*vertex, *uniforms, *texture_storage),
    ;

    fn call_pixel_shading(
        &self,
        attributes: &Attributes,
        uniforms: &Uniforms,
        texture_storage: &TextureStorage,
    ) -> (r: Vec4)
        ensures
            r == self.pixel_shading(*attributes, *uniforms, *texture_storage),
    ;
}

/// The shader of a new renderer: it leaves every vertex as it is and paints
/// every fragment opaque black.
#[derive(Clone, Copy, Debug)]
pub struct DefaultShader {}

impl Shader for DefaultShader {
    open spec fn vertex_changing(&self, vertex: Vertex, uniforms: Uniforms, textures: TextureStorage) -> Vertex {
        vertex
    }

    open spec fn pixel_shading(&self, attributes: Attributes, uniforms: Uniforms, textures: TextureStorage) -> Vec4 {
        Vec4 { x: Fixed { raw: 0 }, y: Fixed { raw: 0 }, z: Fixed { raw: 0 }, w: Fixed { raw: 65536 } }
    }

    fn call_vertex_changing(
        &self,
        vertex: &Vertex,
        uniforms: &Uniforms,
        texture_storage: &TextureStorage,
    ) -> (r: Vertex) {
        *vertex
    }

    fn call_pixel_shading(
        &self,
        attributes: &Attributes,
        uniforms: &Uniforms,
        texture_storage: &TextureStorage,
    ) -> (r: Vec4) {
        Vec4::new(Fixed::zero(), Fixed::zero(), Fixed::zero(), Fixed::one())
    }
}

impl Default for DefaultShader {
    fn default() -> (r: DefaultShader) {
        DefaultShader {}
    }
}

} // verus!
