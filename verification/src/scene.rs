//! From meshes to vertex streams, and a shader for textured scenes.
use crate::fixed::Fixed;
use crate::math::vector::{Vec2, Vec4};
use crate::model::Mesh;
use crate::renderer::sample::{sample_index, texture_sample};
use crate::shader::{Attributes, Shader, Uniforms, Vertex};
use crate::texture::TextureStorage;
use vstd::prelude::*;

verus! {

/// The slot of the texture coordinate among the attributes of two numbers.
pub const ATTR_TEXCOORD: usize = 0;

/// The slot of the normal among the attributes of three numbers.
pub const ATTR_NORMAL: usize = 0;

/// The location of the texture among the uniforms.
pub const UNIFORM_TEXTURE: u32 = 0;

/// The location of the colour among the uniforms.
pub const UNIFORM_COLOR: u32 = 1;

/// The vertex of the stream that a corner of a mesh becomes: its point with
/// the texture coordinate and the normal as attributes.
pub open spec fn stream_vertex(v: crate::model::Vertex) -> Vertex {
    Vertex {
        position: Vec4 {
            x: v.position.x,
            y: v.position.y,
            z: v.position.z,
            w: Fixed { raw: 65536 },
        },
        attributes: Attributes {
            float: Attributes::spec_default().float,
            vec2: [
                v.texcoord,
                Attributes::spec_default().vec2[1],
                Attributes::spec_default().vec2[2],
                Attributes::spec_default().vec2[3],
            ],
            vec3: [
                v.normal,
                Attributes::spec_default().vec3[1],
                Attributes::spec_default().vec3[2],
                Attributes::spec_default().vec3[3],
            ],
            vec4: Attributes::spec_default().vec4,
        },
    }
}

/// The vertex stream of a mesh: one vertex for each corner, in their order.
pub fn restruct_model_vertex(mesh: &Mesh) -> (r: Vec<Vertex>)
    ensures
        r@.len() == mesh.vertices@.len(),
        forall|i: int| 0 <= i < r@.len() ==> #[trigger] r@[i] == stream_vertex(mesh.vertices@[i]),
{
    let mut vertices: Vec<Vertex> = Vec::new();
    let mut i: usize = 0;
    while i < mesh.vertices.len()
        invariant
            i <= mesh.vertices@.len(),
            vertices@.len() == i,
            forall|k: int|
                0 <= k < i ==> #[trigger] vertices@[k] == stream_vertex(mesh.vertices@[k]),
        decreases mesh.vertices@.len() - i,
    {
        let corner = mesh.vertices[i];
        let mut attr = Attributes::default();
        attr.set_vec2(ATTR_TEXCOORD, corner.texcoord);
        attr.set_vec3(ATTR_NORMAL, corner.normal);
        let vertex = Vertex::new(corner.position, attr);
        proof {
            let expected = stream_vertex(corner);
            assert(vertex.attributes.float == expected.attributes.float);
            assert(vertex.attributes.vec2 =~= expected.attributes.vec2);
            assert(vertex.attributes.vec3 =~= expected.attributes.vec3);
            assert(vertex.attributes.vec4 == expected.attributes.vec4);
        }
        vertices.push(vertex);
        i += 1;
    }
    vertices
}

/// A number clamped to the range from zero to one.
pub open spec fn spec_unit(v: Fixed) -> Fixed {
    if v@ < 0 {
        Fixed { raw: 0 }
    } else if v@ > 65536 {
        Fixed { raw: 65536 }
    } else {
        v
    }
}

fn unit(v: Fixed) -> (r: Fixed)
    ensures
        r == spec_unit(v),
{
    if v.raw < 0 {
        Fixed::zero()
    } else if v.raw > 65536 {
        Fixed::one()
    } else {
        v
    }
}

/// The colour that the uniforms set, white where they set none.
pub open spec fn base_color(uniforms: Uniforms) -> Vec4 {
    if uniforms.vec4@.contains_key(UNIFORM_COLOR) {
        uniforms.vec4@[UNIFORM_COLOR]
    } else {
        Vec4 {
            x: Fixed { raw: 65536 },
            y: Fixed { raw: 65536 },
            z: Fixed { raw: 65536 },
            w: Fixed { raw: 65536 },
        }
    }
}

/// Whether the uniforms name a texture that the registry holds and that
/// is not empty.
pub open spec fn has_texture(uniforms: Uniforms, textures: TextureStorage) -> bool {
    &&& uniforms.texture@.contains_key(UNIFORM_TEXTURE)
    &&& uniforms.texture@[UNIFORM_TEXTURE] < textures.spec_len()
    &&& textures.spec_textures()[uniforms.texture@[UNIFORM_TEXTURE] as int].spec_width() > 0
    &&& textures.spec_textures()[uniforms.texture@[UNIFORM_TEXTURE] as int].spec_height() > 0
}

/// Paints a fragment with the colour of the uniforms times the texture of
/// the uniforms at the texture coordinate of the fragment, which is clamped
/// to the image.  Without a texture the colour alone is painted.
#[derive(Clone, Copy, Debug)]
pub struct Textured {}

impl Shader for Textured {
    open spec fn vertex_changing(
        &self,
        vertex: Vertex,
        uniforms: Uniforms,
        textures: TextureStorage,
    ) -> Vertex {
        vertex
    }

    open spec fn pixel_shading(
        &self,
        attributes: Attributes,
        uniforms: Uniforms,
        textures: TextureStorage,
    ) -> Vec4 {
        if has_texture(uniforms, textures) {
            let texture = textures.spec_textures()[uniforms.texture@[UNIFORM_TEXTURE] as int];
            let u = spec_unit(attributes.vec2[0].x);
            let v = spec_unit(attributes.vec2[0].y);
            base_color(uniforms).times(
                texture.spec_get(
                    sample_index(u, texture.spec_width() as int),
                    sample_index(v, texture.spec_height() as int),
                ),
            )
        } else {
            base_color(uniforms)
        }
    }

    fn call_vertex_changing(
        &self,
        vertex: &Vertex,
        uniforms: &Uniforms,
        texture_storage: &TextureStorage,
    ) -> (r: Vertex) {
        *vertex
    }

    fn call_pixel_shading(
        &self,
        attributes: &Attributes,
        uniforms: &Uniforms,
        texture_storage: &TextureStorage,
    ) -> (r: Vec4) {
        broadcast use vstd::std_specs::hash::group_hash_axioms;

        let one = Fixed::one();
        let color = match uniforms.vec4.get(&UNIFORM_COLOR) {
            Some(color) => *color,
            None => Vec4 { x: one, y: one, z: one, w: one },
        };
        let texcoord = Vec2 {
            x: unit(attributes.vec2[ATTR_TEXCOORD].x),
            y: unit(attributes.vec2[ATTR_TEXCOORD].y),
        };
        match uniforms.texture.get(&UNIFORM_TEXTURE) {
            Some(id) => match texture_storage.get_by_id(*id) {
                Some(texture) => {
                    if texture.width() > 0 && texture.height() > 0 {
                        color * texture_sample(texture, &texcoord)
                    } else {
                        color
                    }
                },
                None => color,
            },
            None => color,
        }
    }
}

} // verus!
