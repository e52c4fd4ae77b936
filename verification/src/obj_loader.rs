//! What a Wavefront scene holds once it is read: points, normals and texture
//! coordinates, the models that index them, and the material libraries.
//!
//! The library reads the text of a scene file and of a material library;
//! fetching the text is left to the host.
use crate::fixed::Fixed;
use crate::math::vector::{Vec2, Vec3};
use vstd::prelude::*;

pub mod lexer;
pub mod mtl_parser;
pub mod number;
pub mod obj_parser;
pub mod syntax;

verus! {

/// One corner of a face: indices into the lists of the scene, from zero.
#[derive(Clone, Copy, Debug, PartialEq, Eq, Structural)]
pub struct Vertex {
    pub vertex: u32,
    pub normal: Option<u32>,
    pub texcoord: Option<u32>,
}

/// A face: its corners in their order.
#[derive(Debug)]
pub struct Face {
    pub vertices: Vec<Vertex>,
}

/// A named group of faces with the material that it uses.
#[derive(Debug)]
pub struct Model {
    pub faces: Vec<Face>,
    pub name: String,
    pub mtllib: Option<u32>,
    pub material: Option<String>,
    pub smooth_shade: u8,
}

/// The file names of the texture maps of a material.
#[derive(Debug)]
pub struct MtlTextureMaps {
    /// `map_Ka`
    pub ambient: Option<String>,
    /// `map_Kd`
    pub diffuse: Option<String>,
    /// `map_Ks`
    pub specular_color: Option<String>,
    /// `map_Ns`
    pub specular_highlight: Option<String>,
    /// `map_d`
    pub alpha: Option<String>,
    /// `map_refl`
    pub refl: Option<String>,
}

/// A material of a material library.
#[derive(Debug)]
pub struct Material {
    pub name: String,
    /// `Ka`
    pub ambient: Option<Vec3>,
    /// `Kd`
    pub diffuse: Option<Vec3>,
    /// `Ks`
    pub specular: Option<Vec3>,
    /// `Ke`
    pub emissive_coeficient: Option<Vec3>,
    /// `Ns`
    pub specular_exponent: Option<Fixed>,
    /// `d`, or one minus `Tr`
    pub dissolve: Option<Fixed>,
    /// `Tf`
    pub transmission_filter: Option<Vec3>,
    /// `Ni`
    pub optical_density: Option<Fixed>,
    /// `illum`
    pub illum: Option<u8>,
    pub texture_maps: MtlTextureMaps,
}

impl Material {
    /// A material of the given name with nothing set.
    pub fn new(name: &str) -> (r: Material)
        ensures
            r.name@ == name@,
            r.ambient is None,
            r.diffuse is None,
            r.specular is None,
            r.emissive_coeficient is None,
            r.specular_exponent is None,
            r.dissolve is None,
            r.transmission_filter is None,
            r.optical_density is None,
            r.illum is None,
            r.texture_maps.ambient is None,
            r.texture_maps.diffuse is None,
            r.texture_maps.specular_color is None,
            r.texture_maps.specular_highlight is None,
            r.texture_maps.alpha is None,
            r.texture_maps.refl is None,
    {
        Material {
            name: name.to_owned(),
            ambient: None,
            diffuse: None,
            specular: None,
            emissive_coeficient: None,
            specular_exponent: None,
            dissolve: None,
            transmission_filter: None,
            optical_density: None,
            illum: None,
            texture_maps: MtlTextureMaps {
                ambient: None,
                diffuse: None,
                specular_color: None,
                specular_highlight: None,
                alpha: None,
                refl: None,
            },
        }
    }
}

/// A material library: its materials in the order in which they were
/// defined.  Of two materials with one name the later one counts.
#[derive(Debug)]
pub struct Mtllib {
    pub materials: Vec<Material>,
}

impl Mtllib {
    /// Whether `i` is the place of the last material named `name`.
    pub open spec fn is_last_named(&self, i: int, name: Seq<char>) -> bool {
        &&& 0 <= i < self.materials@.len()
        &&& self.materials@[i].name@ == name
        &&& forall|j: int|
            i < j < self.materials@.len() ==> (#[trigger] self.materials@[j]).name@ != name
    }

    /// The material named `name`; of several, the one defined last.
    pub fn get(&self, name: &str) -> (r: Option<&Material>)
        ensures
            match r {
                Some(m) => exists|i: int|
                    self.is_last_named(i, name@) && *m == #[trigger] self.materials@[i],
                None => forall|j: int|
                    0 <= j < self.materials@.len() ==> (#[trigger] self.materials@[j]).name@
                        != name@,
            },
    {
        let wanted = name.to_owned();
        let mut i: usize = self.materials.len();
        while i > 0
            invariant
                i <= self.materials@.len(),
                wanted@ == name@,
                forall|j: int|
                    i <= j < self.materials@.len() ==> (#[trigger] self.materials@[j]).name@
                        != name@,
            decreases i,
        {
            i -= 1;
            if self.materials[i].name == wanted {
                assert(self.is_last_named(i as int, name@));
                return Some(&self.materials[i]);
            }
        }
        None
    }
}

/// A scene as it is read.
#[derive(Debug)]
pub struct SceneData {
    pub vertices: Vec<Vec3>,
    pub normals: Vec<Vec3>,
    pub texcoords: Vec<Vec2>,
    pub materials: Vec<Mtllib>,
    pub models: Vec<Model>,
}

impl SceneData {
    /// A scene that holds nothing.
    pub fn new() -> (r: SceneData)
        ensures
            r.vertices@.len() == 0,
            r.normals@.len() == 0,
            r.texcoords@.len() == 0,
            r.materials@.len() == 0,
            r.models@.len() == 0,
    {
        SceneData {
            vertices: Vec::new(),
            normals: Vec::new(),
            texcoords: Vec::new(),
            materials: Vec::new(),
            models: Vec::new(),
        }
    }

    /// Whether the indices of the corner name entries of the scene.
    pub open spec fn holds(&self, v: Vertex) -> bool {
        &&& v.vertex < self.vertices@.len()
        &&& v.normal is Some ==> v.normal->Some_0 < self.normals@.len()
        &&& v.texcoord is Some ==> v.texcoord->Some_0 < self.texcoords@.len()
    }

    /// Whether every corner of the face names entries of the scene.
    pub open spec fn holds_face(&self, face: Face) -> bool {
        forall|k: int| 0 <= k < face.vertices@.len() ==> self.holds(#[trigger] face.vertices@[k])
    }

    /// Whether every corner of every face of the model names entries of the scene.
    pub open spec fn holds_model(&self, model: Model) -> bool {
        forall|j: int| 0 <= j < model.faces@.len() ==> self.holds_face(#[trigger] model.faces@[j])
    }

    /// Whether every index of the scene is in range.
    pub open spec fn indices_in_range(&self) -> bool {
        forall|i: int| 0 <= i < self.models@.len() ==> self.holds_model(#[trigger] self.models@[i])
    }

    fn corner_in_range(&self, v: &Vertex) -> (r: bool)
        ensures
            r == self.holds(*v),
    {
        (v.vertex as usize) < self.vertices.len() && (match v.normal {
            Some(n) => (n as usize) < self.normals.len(),
            None => true,
        }) && (match v.texcoord {
            Some(t) => (t as usize) < self.texcoords.len(),
            None => true,
        })
    }

    fn face_in_range(&self, face: &Face) -> (r: bool)
        ensures
            r == self.holds_face(*face),
    {
        let mut k: usize = 0;
        while k < face.vertices.len()
            invariant
                k <= face.vertices@.len(),
                forall|j: int| 0 <= j < k ==> self.holds(#[trigger] face.vertices@[j]),
            decreases face.vertices@.len() - k,
        {
            if !self.corner_in_range(&face.vertices[k]) {
                return false;
            }
            k += 1;
        }
        true
    }

    fn model_in_range(&self, model: &Model) -> (r: bool)
        ensures
            r == self.holds_model(*model),
    {
        let mut j: usize = 0;
        while j < model.faces.len()
            invariant
                j <= model.faces@.len(),
                forall|i: int| 0 <= i < j ==> self.holds_face(#[trigger] model.faces@[i]),
            decreases model.faces@.len() - j,
        {
            if !self.face_in_range(&model.faces[j]) {
                return false;
            }
            j += 1;
        }
        true
    }

    /// Whether every index of the scene is in range: every corner of every
    /// face names a point, and a normal and a texture coordinate where it
    /// names one, that the scene holds.
    pub fn validate(&self) -> (r: bool)
        ensures
            r == self.indices_in_range(),
    {
        let mut i: usize = 0;
        while i < self.models.len()
            invariant
                i <= self.models@.len(),
                forall|j: int| 0 <= j < i ==> self.holds_model(#[trigger] self.models@[j]),
            decreases self.models@.len() - i,
        {
            if !self.model_in_range(&self.models[i]) {
                return false;
            }
            i += 1;
        }
        true
    }
}

} // verus!
