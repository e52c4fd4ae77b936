//! Meshes: the triangles of a scene, corner by corner, ready to become a
//! vertex stream.
use crate::error::Error;
use crate::fixed::Fixed;
use crate::math::vector::{Vec2, Vec3, Vec4};
use crate::obj_loader::{Face, Model, SceneData};
use vstd::prelude::*;

verus! {

/// A corner of a mesh.
#[derive(Clone, Copy, Debug, PartialEq, Eq, Structural)]
pub struct Vertex {
    pub position: Vec3,
    pub normal: Vec3,
    pub texcoord: Vec2,
    pub color: Vec4,
}

/// The corners of a model, three for each triangle.
#[derive(Debug)]
pub struct Mesh {
    pub vertices: Vec<Vertex>,
    pub name: Option<String>,
    pub mtllib: Option<u32>,
    pub material: Option<String>,
}

/// What is done to a mesh when it is assembled.
#[derive(Clone, Copy, Debug, PartialEq, Eq, Structural)]
pub enum PreOperation {
    /// The normals are taken from the scene.
    Nothing,
    /// The normal of every corner is replaced by the normal of its triangle.
    RecalcNormal,
}

/// Opaque white.
pub open spec fn white() -> Vec4 {
    Vec4 {
        x: Fixed { raw: 65536 },
        y: Fixed { raw: 65536 },
        z: Fixed { raw: 65536 },
        w: Fixed { raw: 65536 },
    }
}

/// The corner of a mesh that a corner of a face names: its point, its
/// normal and texture coordinate where it names them and zero where it does
/// not, and the colour white.
pub open spec fn spec_corner(scene: SceneData, v: crate::obj_loader::Vertex) -> Vertex {
    Vertex {
        position: scene.vertices@[v.vertex as int],
        normal: match v.normal {
            Some(n) => scene.normals@[n as int],
            None => Vec3::spec_zero(),
        },
        texcoord: match v.texcoord {
            Some(t) => scene.texcoords@[t as int],
            None => Vec2::spec_zero(),
        },
        color: white(),
    }
}

/// The corners of the first `k` corners of a face.
pub open spec fn spec_face_corners(scene: SceneData, face: Face, k: int) -> Seq<Vertex>
    decreases k,
{
    if k <= 0 {
        Seq::empty()
    } else {
        spec_face_corners(scene, face, k - 1).push(spec_corner(scene, face.vertices@[k - 1]))
    }
}

/// The corners of the first `j` faces, face after face.
pub open spec fn spec_corners(scene: SceneData, faces: Seq<Face>, j: int) -> Seq<Vertex>
    decreases j,
{
    if j <= 0 {
        Seq::empty()
    } else {
        spec_corners(scene, faces, j - 1) + spec_face_corners(
            scene,
            faces[j - 1],
            faces[j - 1].vertices@.len() as int,
        )
    }
}

/// The unit normal of the triangle `a`, `b`, `c`: `(c - b) x (b - a)`, normalized.
pub open spec fn face_normal(a: Vec3, b: Vec3, c: Vec3) -> Vec3 {
    c.minus(b).spec_cross(b.minus(a)).spec_normalize()
}

/// The corner `i` with the normal of its triangle.
pub open spec fn with_face_normal(corners: Seq<Vertex>, i: int) -> Vertex {
    let first = 3 * (i / 3);
    Vertex {
        normal: face_normal(
            corners[first].position,
            corners[first + 1].position,
            corners[first + 2].position,
        ),
        ..corners[i]
    }
}

/// The corners with the normal of every one replaced by the normal of its triangle.
pub open spec fn spec_recalc(corners: Seq<Vertex>) -> Seq<Vertex> {
    Seq::new(corners.len(), |i: int| with_face_normal(corners, i))
}

/// The corners of the mesh of a model.
pub open spec fn spec_mesh_corners(scene: SceneData, model: Model, pre_operation: PreOperation) -> Seq<Vertex> {
    let corners = spec_corners(scene, model.faces@, model.faces@.len() as int);
    match pre_operation {
        PreOperation::Nothing => corners,
        PreOperation::RecalcNormal => spec_recalc(corners),
    }
}

/// Whether the mesh is the mesh of the model.
pub open spec fn is_mesh_of(mesh: Mesh, scene: SceneData, model: Model, pre_operation: PreOperation) -> bool {
    &&& mesh.vertices@ == spec_mesh_corners(scene, model, pre_operation)
    &&& mesh.name is Some
    &&& mesh.name->Some_0@ == model.name@
    &&& mesh.mtllib == model.mtllib
    &&& mesh.material is Some <==> model.material is Some
    &&& mesh.material is Some ==> mesh.material->Some_0@ == model.material->Some_0@
}

/// Whether every model of the scene gives whole triangles: the number of
/// the corners of its faces is a multiple of three.
pub open spec fn whole_triangles(scene: SceneData) -> bool {
    forall|i: int|
        0 <= i < scene.models@.len() ==> spec_corners(
            scene,
            (#[trigger] scene.models@[i]).faces@,
            scene.models@[i].faces@.len() as int,
        ).len() % 3 == 0
}

fn corner(scene: &SceneData, v: &crate::obj_loader::Vertex) -> (r: Vertex)
    requires
        scene.holds(*v),
    ensures
        r == spec_corner(*scene, *v),
{
    let one = Fixed::one();
    Vertex {
        position: scene.vertices[v.vertex as usize],
        normal: match v.normal {
            Some(n) => scene.normals[n as usize],
            None => Vec3::zero(),
        },
        texcoord: match v.texcoord {
            Some(t) => scene.texcoords[t as usize],
            None => Vec2::zero(),
        },
        color: Vec4 { x: one, y: one, z: one, w: one },
    }
}

/// The corners of a model, face after face.
fn corners_of(scene: &SceneData, model: &Model) -> (r: Vec<Vertex>)
    requires
        scene.holds_model(*model),
    ensures
        r@ == spec_corners(*scene, model.faces@, model.faces@.len() as int),
{
    let mut out: Vec<Vertex> = Vec::new();
    let mut j: usize = 0;
    while j < model.faces.len()
        invariant
            scene.holds_model(*model),
            j <= model.faces@.len(),
            out@ == spec_corners(*scene, model.faces@, j as int),
        decreases model.faces@.len() - j,
    {
        let face = &model.faces[j];
        let ghost before = out@;
        let mut k: usize = 0;
        assert(scene.holds_face(*face));
        while k < face.vertices.len()
            invariant
                scene.holds_face(*face),
                k <= face.vertices@.len(),
                out@ == before + spec_face_corners(*scene, *face, k as int),
            decreases face.vertices@.len() - k,
        {
            out.push(corner(scene, &face.vertices[k]));
            k += 1;
            assert(out@ =~= before + spec_face_corners(*scene, *face, k as int));
        }
        j += 1;
    }
    out
}

/// The unit normal of the triangle `a`, `b`, `c`.
pub fn normal_of(a: &Vec3, b: &Vec3, c: &Vec3) -> (r: Vec3)
    ensures
        r == face_normal(*a, *b, *c),
{
    (*c - *b).cross(&(*b - *a)).normalize()
}

/// Replaces the normal of every corner by the normal of its triangle.
pub fn recalc_normals(vertices: &mut Vec<Vertex>)
    requires
        old(vertices)@.len() % 3 == 0,
    ensures
        final(vertices)@ == spec_recalc(old(vertices)@),
{
    let count = vertices.len() / 3;
    let mut i: usize = 0;
    while i < count
        invariant
            i <= count,
            count * 3 == vertices@.len() == old(vertices)@.len() <= usize::MAX,
            forall|k: int| 0 <= k < 3 * i ==> vertices@[k] == with_face_normal(old(vertices)@, k),
            forall|k: int| 3 * i <= k < vertices@.len() ==> vertices@[k] == old(vertices)@[k],
        decreases count - i,
    {
        let norm = normal_of(
            &vertices[i * 3].position,
            &vertices[i * 3 + 1].position,
            &vertices[i * 3 + 2].position,
        );
        let a = Vertex { normal: norm, ..vertices[i * 3] };
        let b = Vertex { normal: norm, ..vertices[i * 3 + 1] };
        let c = Vertex { normal: norm, ..vertices[i * 3 + 2] };
        vertices[i * 3] = a;
        vertices[i * 3 + 1] = b;
        vertices[i * 3 + 2] = c;
        assert((3 * i) / 3 == i && (3 * i + 1) / 3 == i && (3 * i + 2) / 3 == i);
        i += 1;
    }
    assert(vertices@ =~= spec_recalc(old(vertices)@));
}

fn copy_of(s: &Option<String>) -> (r: Option<String>)
    ensures
        r is Some <==> s is Some,
        r is Some ==> r->Some_0@ == s->Some_0@,
{
    match s {
        Some(text) => Some(text.clone()),
        None => None,
    }
}

/// The meshes of the models of a scene, in their order.  The scene is
/// refused with `OutOfBounds` where one of its indices is out of range, and,
/// when the normals are to be recomputed, where a model does not give whole
/// triangles.
pub fn assemble(scene: &SceneData, pre_operation: PreOperation) -> (r: Result<Vec<Mesh>, Error>)
    ensures
        r is Ok <==> scene.indices_in_range() && (pre_operation == PreOperation::RecalcNormal
            ==> whole_triangles(*scene)),
        r is Err ==> r->Err_0 == Error::OutOfBounds,
        r is Ok ==> {
            let meshes = r->Ok_0@;
            &&& meshes.len() == scene.models@.len()
            &&& forall|i: int|
                0 <= i < meshes.len() ==> is_mesh_of(
                    #[trigger] meshes[i],
                    *scene,
                    scene.models@[i],
                    pre_operation,
                )
        },
{
    if !scene.validate() {
        return Err(Error::OutOfBounds);
    }
    let mut meshes: Vec<Mesh> = Vec::new();
    let mut i: usize = 0;
    while i < scene.models.len()
        invariant
            scene.indices_in_range(),
            i <= scene.models@.len(),
            meshes@.len() == i,
            forall|j: int|
                0 <= j < i ==> is_mesh_of(
                    #[trigger] meshes@[j],
                    *scene,
                    scene.models@[j],
                    pre_operation,
                ),
            pre_operation == PreOperation::RecalcNormal ==> forall|j: int|
                0 <= j < i ==> spec_corners(
                    *scene,
                    (#[trigger] scene.models@[j]).faces@,
                    scene.models@[j].faces@.len() as int,
                ).len() % 3 == 0,
        decreases scene.models@.len() - i,
    {
        let model = &scene.models[i];
        assert(scene.holds_model(*model));
        let mut vertices = corners_of(scene, model);
        match pre_operation {
            PreOperation::Nothing => {},
            PreOperation::RecalcNormal => {
                if vertices.len() % 3 != 0 {
                    return Err(Error::OutOfBounds);
                }
                recalc_normals(&mut vertices);
            },
        }
        meshes.push(
            Mesh {
                vertices,
                name: Some(model.name.clone()),
                mtllib: model.mtllib,
                material: copy_of(&model.material),
            },
        );
        i += 1;
    }
    Ok(meshes)
}

} // verus!
