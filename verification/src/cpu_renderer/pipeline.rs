//! The stages that take a triangle from the vertex stream to the screen.
//!
//! A triangle is shaded, taken to model space, tested for its facing, taken
//! to view space, dropped where none of its vertices lies in the frustum,
//! and cut where a vertex lies on the near side of the near plane.  A
//! triangle that the cut makes goes through these stages once more, from the
//! model transform on, and must not be cut a second time.  What is left is
//! projected, divided by `w` and mapped to the viewport.
use crate::camera::{spec_contain, Backend, Camera, Frustum};
use crate::fixed::{sat, Fixed};
use crate::math::matrix::Mat4;
use crate::math::vector::{Vec3, Vec4};
use crate::renderer::cull::{should_cull, spec_should_cull, FaceCull, FrontFace};
use crate::renderer::viewport::Viewport;
use crate::math::matrix::lemma_identity_apply;
use crate::scanline::{
    count_above, is_above, lemma_clipped_not_above, near_plane_clip, spec_face,
    spec_near_plane_clip,
};
use crate::shader::{Shader, Uniforms, Vertex};
use crate::texture::TextureStorage;
use std::ops::Neg;
use vstd::prelude::*;

verus! {

/// What becomes of a triangle on its way to view space.
pub enum ViewSpace {
    /// The triangle is culled, or none of its vertices lies in the frustum.
    Discarded,
    /// The triangle was cut at the near plane into one or two triangles.
    NearSplit([Vertex; 3], Option<[Vertex; 3]>),
    /// The triangle lies behind the near plane as it is.
    Visible([Vertex; 3]),
}

/// The vertex after the vertex stage and the model transform.
pub open spec fn spec_to_model<S: Shader>(
    shader: S,
    uniforms: Uniforms,
    textures: TextureStorage,
    model: Mat4,
    v: Vertex,
) -> Vertex {
    let shaded = shader.vertex_changing(v, uniforms, textures);
    Vertex { position: model.apply(shaded.position), attributes: shaded.attributes }
}

/// The vertex after the view transform.
pub open spec fn spec_to_view(view: Mat4, v: Vertex) -> Vertex {
    Vertex { position: view.apply(v.position), attributes: v.attributes }
}

/// Whether the vertex of view space lies in the frustum.
pub open spec fn in_frustum(frustum: Frustum, v: Vertex) -> bool {
    spec_contain(
        frustum.spec_near(),
        frustum.spec_far(),
        frustum.spec_aspect(),
        frustum.spec_fovy(),
        v.position.xyz(),
    )
}

/// The triangle after the vertex stage and the model transform.
pub open spec fn spec_model_face<S: Shader>(
    shader: S,
    uniforms: Uniforms,
    textures: TextureStorage,
    model: Mat4,
    v: [Vertex; 3],
) -> [Vertex; 3] {
    spec_face(
        spec_to_model(shader, uniforms, textures, model, v[0]),
        spec_to_model(shader, uniforms, textures, model, v[1]),
        spec_to_model(shader, uniforms, textures, model, v[2]),
    )
}

/// Whether the triangle of model space is dropped for its facing.
pub open spec fn spec_is_culled(v: [Vertex; 3], view_dir: Vec3, face: FrontFace, cull: FaceCull) -> bool {
    spec_should_cull(v[0].position.xyz(), v[1].position.xyz(), v[2].position.xyz(), view_dir, face, cull)
}

/// The triangle after the view transform.
pub open spec fn spec_view_face(view: Mat4, v: [Vertex; 3]) -> [Vertex; 3] {
    spec_face(spec_to_view(view, v[0]), spec_to_view(view, v[1]), spec_to_view(view, v[2]))
}

/// Whether none of the three vertices lies in the frustum.
pub open spec fn outside_frustum(frustum: Frustum, v: [Vertex; 3]) -> bool {
    !in_frustum(frustum, v[0]) && !in_frustum(frustum, v[1]) && !in_frustum(frustum, v[2])
}

/// What becomes of a triangle of view space with a vertex in the frustum:
/// it is cut where a vertex has `z > -near`.
pub open spec fn spec_split_stage(frustum: Frustum, v: [Vertex; 3]) -> ViewSpace {
    if count_above(v, frustum.spec_near().negated()) >= 1 {
        let cut = spec_near_plane_clip(v, frustum.spec_near());
        ViewSpace::NearSplit(cut.0, cut.1)
    } else {
        ViewSpace::Visible(v)
    }
}

/// What becomes of a triangle of model space: it is dropped for its facing,
/// taken to view space, dropped where none of its vertices lies in the
/// frustum, and cut where a vertex lies on the near side of the near plane.
pub open spec fn spec_from_model(
    camera: Camera,
    front_face: FrontFace,
    cull: FaceCull,
    in_model: [Vertex; 3],
) -> ViewSpace {
    if spec_is_culled(in_model, camera.spec_view_dir(), front_face, cull) {
        ViewSpace::Discarded
    } else {
        let in_view = spec_view_face(camera.spec_view_mat(), in_model);
        if outside_frustum(camera.spec_frustum(), in_view) {
            ViewSpace::Discarded
        } else {
            spec_split_stage(camera.spec_frustum(), in_view)
        }
    }
}

/// What becomes of the triangle `v` on its way to view space.
pub open spec fn spec_view_stage<S: Shader>(
    shader: S,
    uniforms: Uniforms,
    textures: TextureStorage,
    camera: Camera,
    front_face: FrontFace,
    cull: FaceCull,
    model: Mat4,
    v: [Vertex; 3],
) -> ViewSpace {
    spec_from_model(camera, front_face, cull, spec_model_face(shader, uniforms, textures, model, v))
}

/// The triangle with the positions of its vertices multiplied by `model`.
pub open spec fn spec_moved_face(model: Mat4, v: [Vertex; 3]) -> [Vertex; 3] {
    spec_view_face(model, v)
}

/// What becomes of a triangle that the cut at the near plane made.  It goes
/// through the stages once more, from the model transform on: the vertex
/// stage is not run again.
pub open spec fn spec_reenter(
    camera: Camera,
    front_face: FrontFace,
    cull: FaceCull,
    model: Mat4,
    cut: [Vertex; 3],
) -> ViewSpace {
    spec_from_model(camera, front_face, cull, spec_moved_face(model, cut))
}

/// Whether the triangle `v` is cut at the near plane at most once: no
/// triangle that the cut makes is cut again on its second way through the
/// stages.
#[verifier::opaque]
pub open spec fn cut_once<S: Shader>(
    shader: S,
    uniforms: Uniforms,
    textures: TextureStorage,
    camera: Camera,
    front_face: FrontFace,
    cull: FaceCull,
    model: Mat4,
    v: [Vertex; 3],
) -> bool {
    match spec_view_stage(shader, uniforms, textures, camera, front_face, cull, model, v) {
        ViewSpace::NearSplit(first, second) => {
            &&& !(spec_reenter(camera, front_face, cull, model, first) is NearSplit)
            &&& match second {
                Some(face) => !(spec_reenter(camera, front_face, cull, model, face) is NearSplit),
                None => true,
            }
        },
        _ => true,
    }
}

/// The number that stands for the unsigned integer `v`.
pub open spec fn number_of(v: int) -> Fixed {
    Fixed::of_raw(sat(v * 65536))
}

/// The depth in view space of a projected vertex with the fourth
/// coordinate `w`: the scanline projection leaves `w = -z / near`, the
/// barycentric projection `w = -z`.
pub open spec fn spec_linear_depth(frustum: Frustum, w: Fixed) -> Fixed {
    match frustum.spec_backend() {
        Backend::Scanline => w.negated().times(frustum.spec_near()),
        Backend::Barycentric => w.negated(),
    }
}

/// The vertex of view space on the screen: it is projected, its `z` is
/// replaced by its depth in view space, its `x` and `y` are divided by `w`,
/// and mapped to the viewport with the `y` axis turned downward:
/// `x = (x + 1) * 0.5 * (w - 1) + viewport.x` and
/// `y = h - (y + 1) * 0.5 * (h - 1) + viewport.y`.
pub open spec fn spec_to_screen(frustum: Frustum, viewport: Viewport, v: Vertex) -> Vertex {
    let p = frustum.spec_mat().apply(v.position);
    let one = Fixed { raw: 65536 };
    let half = Fixed { raw: 32768 };
    let w = number_of(viewport.w as int);
    let h = number_of(viewport.h as int);
    let x = p.x.over(p.w);
    let y = p.y.over(p.w);
    Vertex {
        position: Vec4 {
            x: x.plus(one).times(half).times(w.minus(one)).plus(number_of(viewport.x as int)),
            y: h.minus(y.plus(one).times(half).times(h.minus(one))).plus(
                number_of(viewport.y as int),
            ),
            z: spec_linear_depth(frustum, p.w),
            w: one,
        },
        attributes: v.attributes,
    }
}

/// The triangle of view space on the screen.
pub open spec fn spec_face_to_screen(frustum: Frustum, viewport: Viewport, v: [Vertex; 3]) -> [Vertex; 3] {
    spec_face(
        spec_to_screen(frustum, viewport, v[0]),
        spec_to_screen(frustum, viewport, v[1]),
        spec_to_screen(frustum, viewport, v[2]),
    )
}

/// Runs the vertex stage on `v` and takes the result to model space.
pub fn to_model<S: Shader>(
    shader: &S,
    uniforms: &Uniforms,
    texture_storage: &TextureStorage,
    model: &Mat4,
    v: &Vertex,
) -> (r: Vertex)
    ensures
        r == spec_to_model(*shader, *uniforms, *texture_storage, *model, *v),
{
    let shaded = shader.call_vertex_changing(v, uniforms, texture_storage);
    Vertex { position: *model * shaded.position, attributes: shaded.attributes }
}

/// Takes a vertex of model space to view space.
pub fn to_view(view: &Mat4, v: &Vertex) -> (r: Vertex)
    ensures
        r == spec_to_view(*view, *v),
{
    Vertex { position: *view * v.position, attributes: v.attributes }
}

fn face_of(a: Vertex, b: Vertex, c: Vertex) -> (r: [Vertex; 3])
    ensures
        r == spec_face(a, b, c),
{
    let r = [a, b, c];
    assert(r =~= spec_face(a, b, c));
    r
}

fn model_face<S: Shader>(
    shader: &S,
    uniforms: &Uniforms,
    texture_storage: &TextureStorage,
    model: &Mat4,
    vertices: &[Vertex; 3],
) -> (r: [Vertex; 3])
    ensures
        r == spec_model_face(*shader, *uniforms, *texture_storage, *model, *vertices),
{
    face_of(
        to_model(shader, uniforms, texture_storage, model, &vertices[0]),
        to_model(shader, uniforms, texture_storage, model, &vertices[1]),
        to_model(shader, uniforms, texture_storage, model, &vertices[2]),
    )
}

fn is_culled(vertices: &[Vertex; 3], view_dir: &Vec3, face: FrontFace, cull: FaceCull) -> (r: bool)
    ensures
        r == spec_is_culled(*vertices, *view_dir, face, cull),
{
    let positions = [
        vertices[0].position.truncated_to_vec3(),
        vertices[1].position.truncated_to_vec3(),
        vertices[2].position.truncated_to_vec3(),
    ];
    should_cull(&positions, view_dir, face, cull)
}

fn view_face(view: &Mat4, vertices: &[Vertex; 3]) -> (r: [Vertex; 3])
    ensures
        r == spec_view_face(*view, *vertices),
{
    face_of(to_view(view, &vertices[0]), to_view(view, &vertices[1]), to_view(view, &vertices[2]))
}

fn is_outside_frustum(frustum: &Frustum, vertices: &[Vertex; 3]) -> (r: bool)
    ensures
        r == outside_frustum(*frustum, *vertices),
{
    !frustum.contain(&vertices[0].position.truncated_to_vec3()) && !frustum.contain(
        &vertices[1].position.truncated_to_vec3(),
    ) && !frustum.contain(&vertices[2].position.truncated_to_vec3())
}

/// A vertex in the frustum lies behind the near plane.
proof fn lemma_in_frustum_below(frustum: Frustum, v: Vertex)
    requires
        in_frustum(frustum, v),
    ensures
        !is_above(v, frustum.spec_near().negated()),
{
    reveal(spec_contain);
}

fn split_stage(frustum: &Frustum, vertices: &[Vertex; 3]) -> (r: ViewSpace)
    requires
        !outside_frustum(*frustum, *vertices),
    ensures
        r == spec_split_stage(*frustum, *vertices),
{
    let plane = frustum.near().neg();
    if vertices[0].position.z.raw > plane.raw || vertices[1].position.z.raw > plane.raw
        || vertices[2].position.z.raw > plane.raw {
        proof {
            if in_frustum(*frustum, vertices[0]) {
                lemma_in_frustum_below(*frustum, vertices[0]);
            }
            if in_frustum(*frustum, vertices[1]) {
                lemma_in_frustum_below(*frustum, vertices[1]);
            }
            if in_frustum(*frustum, vertices[2]) {
                lemma_in_frustum_below(*frustum, vertices[2]);
            }
        }
        let cut = near_plane_clip(vertices, frustum.near());
        ViewSpace::NearSplit(cut.0, cut.1)
    } else {
        ViewSpace::Visible(*vertices)
    }
}

/// Takes a triangle of model space through face culling, the view
/// transform, the frustum test and the cut at the near plane.
pub fn from_model(camera: &Camera, front_face: FrontFace, cull: FaceCull, in_model: &[Vertex; 3]) -> (r:
    ViewSpace)
    ensures
        r == spec_from_model(*camera, front_face, cull, *in_model),
{
    if is_culled(in_model, camera.view_dir(), front_face, cull) {
        return ViewSpace::Discarded;
    }
    let in_view = view_face(camera.view_mat(), in_model);
    if is_outside_frustum(camera.get_frustum(), &in_view) {
        return ViewSpace::Discarded;
    }
    split_stage(camera.get_frustum(), &in_view)
}

/// Takes the triangle through the vertex stage, the model transform, face
/// culling, the view transform, the frustum test and the cut at the near
/// plane.
pub fn view_stage<S: Shader>(
    shader: &S,
    uniforms: &Uniforms,
    texture_storage: &TextureStorage,
    camera: &Camera,
    front_face: FrontFace,
    cull: FaceCull,
    model: &Mat4,
    vertices: &[Vertex; 3],
) -> (r: ViewSpace)
    ensures
        r == spec_view_stage(
            *shader,
            *uniforms,
            *texture_storage,
            *camera,
            front_face,
            cull,
            *model,
            *vertices,
        ),
{
    let in_model = model_face(shader, uniforms, texture_storage, model, vertices);
    from_model(camera, front_face, cull, &in_model)
}

/// Takes a triangle that the cut at the near plane made through the stages
/// once more, from the model transform on.
pub fn reenter(
    camera: &Camera,
    front_face: FrontFace,
    cull: FaceCull,
    model: &Mat4,
    cut: &[Vertex; 3],
) -> (r: ViewSpace)
    ensures
        r == spec_reenter(*camera, front_face, cull, *model, *cut),
{
    let in_model = view_face(model, cut);
    from_model(camera, front_face, cull, &in_model)
}

/// Whether the triangle is cut at the near plane at most once.
pub fn is_cut_once<S: Shader>(
    shader: &S,
    uniforms: &Uniforms,
    texture_storage: &TextureStorage,
    camera: &Camera,
    front_face: FrontFace,
    cull: FaceCull,
    model: &Mat4,
    vertices: &[Vertex; 3],
) -> (r: bool)
    ensures
        r == cut_once(
            *shader,
            *uniforms,
            *texture_storage,
            *camera,
            front_face,
            cull,
            *model,
            *vertices,
        ),
{
    proof {
        reveal(cut_once);
    }
    match view_stage(shader, uniforms, texture_storage, camera, front_face, cull, model, vertices) {
        ViewSpace::NearSplit(first, second) => {
            match reenter(camera, front_face, cull, model, &first) {
                ViewSpace::NearSplit(_, _) => false,
                _ => match second {
                    Some(face) => match reenter(camera, front_face, cull, model, &face) {
                        ViewSpace::NearSplit(_, _) => false,
                        _ => true,
                    },
                    None => true,
                },
            }
        },
        _ => true,
    }
}

/// The identity matrix leaves a triangle as it is.
pub proof fn lemma_identity_face(v: [Vertex; 3])
    ensures
        spec_moved_face(Mat4::spec_identity(), v) == v,
{
    let unused2 = crate::math::vector::Vec2 { x: Fixed { raw: 0 }, y: Fixed { raw: 0 } };
    let unused3 = v[0].position.xyz();
    lemma_identity_apply(unused2, unused3, v[0].position);
    lemma_identity_apply(unused2, unused3, v[1].position);
    lemma_identity_apply(unused2, unused3, v[2].position);
    assert(spec_moved_face(Mat4::spec_identity(), v) =~= v);
}

/// Where the model matrix and the view matrix are both the identity, a
/// triangle that the cut at the near plane made is on its second way
/// through the stages what it was, behind the near plane: no triangle is
/// cut a second time.
pub proof fn lemma_identity_cut_once<S: Shader>(
    shader: S,
    uniforms: Uniforms,
    textures: TextureStorage,
    camera: Camera,
    front_face: FrontFace,
    cull: FaceCull,
    v: [Vertex; 3],
)
    requires
        camera.spec_view_mat() == Mat4::spec_identity(),
    ensures
        cut_once(shader, uniforms, textures, camera, front_face, cull, Mat4::spec_identity(), v),
{
    reveal(cut_once);
    let identity = Mat4::spec_identity();
    let frustum = camera.spec_frustum();
    let in_model = spec_model_face(shader, uniforms, textures, identity, v);
    let in_view = spec_view_face(identity, in_model);
    if spec_view_stage(shader, uniforms, textures, camera, front_face, cull, identity, v) is NearSplit {
        if in_frustum(frustum, in_view[0]) {
            lemma_in_frustum_below(frustum, in_view[0]);
        }
        if in_frustum(frustum, in_view[1]) {
            lemma_in_frustum_below(frustum, in_view[1]);
        }
        if in_frustum(frustum, in_view[2]) {
            lemma_in_frustum_below(frustum, in_view[2]);
        }
        lemma_clipped_not_above(in_view, frustum.spec_near());
        let cut = spec_near_plane_clip(in_view, frustum.spec_near());
        lemma_identity_face(cut.0);
        if cut.1 is Some {
            lemma_identity_face(cut.1->Some_0);
        }
    }
}

/// Projects a vertex of view space and maps it to the viewport.
pub fn to_screen(frustum: &Frustum, viewport: &Viewport, v: &Vertex) -> (r: Vertex)
    ensures
        r == spec_to_screen(*frustum, *viewport, *v),
{
    let p = *frustum.get_mat() * v.position;
    let one = Fixed::one();
    let half = Fixed::from_raw(32768);
    let w = Fixed::from_u32(viewport.w);
    let h = Fixed::from_u32(viewport.h);
    let x = p.x / p.w;
    let y = p.y / p.w;
    let z = match frustum.backend() {
        Backend::Scanline => p.w.neg() * frustum.near(),
        Backend::Barycentric => p.w.neg(),
    };
    Vertex {
        position: Vec4 {
            x: (x + one) * half * (w - one) + Fixed::from_int(viewport.x),
            y: h - (y + one) * half * (h - one) + Fixed::from_int(viewport.y),
            z,
            w: one,
        },
        attributes: v.attributes,
    }
}

/// Projects a triangle of view space and maps it to the viewport.
pub fn face_to_screen(frustum: &Frustum, viewport: &Viewport, v: &[Vertex; 3]) -> (r: [Vertex; 3])
    ensures
        r == spec_face_to_screen(*frustum, *viewport, *v),
{
    face_of(
        to_screen(frustum, viewport, &v[0]),
        to_screen(frustum, viewport, &v[1]),
        to_screen(frustum, viewport, &v[2]),
    )
}

} // verus!
