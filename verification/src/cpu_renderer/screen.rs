//! Drawing a triangle that is already on the screen: filled, or as a
//! wireframe of its three edges.
use crate::camera::Backend;
use crate::cpu_renderer::aabb::{
    fill_aabb, lemma_aabb_beside_screen, lemma_aabb_misses_screen, misses_screen, spec_fill_aabb,
};
use crate::cpu_renderer::fill::{fill_triangle, spec_fill_triangle};
use crate::cpu_renderer::fragment::{frame_of, targets_wf, Frame};
use crate::cpu_renderer::offscreen::{beside_screen, lemma_fill_beside_screen};
use crate::image::{ColorAttachment, DepthAttachment};
use crate::line::{spec_line, Line};
use crate::math::vector::Vec2;
use crate::renderer::clip::{is_empty_rect, share_outside, spec_clip};
use crate::renderer::line_raster::{rasterize_line, screen_max, spec_rasterize_line};
use crate::shader::{spec_rhw_init, vertex_rhw_init, Shader, Uniforms, Vertex};
use crate::texture::TextureStorage;
use vstd::prelude::*;

verus! {

/// The frame after the edge from `a` to `b` is drawn: both ends are
/// prepared for perspective-correct interpolation, as the ends of the edges
/// of a trapezoid are.
pub open spec fn spec_edge<S: Shader>(
    frame: Frame,
    shader: S,
    uniforms: Uniforms,
    textures: TextureStorage,
    a: Vertex,
    b: Vertex,
) -> Frame {
    spec_rasterize_line(
        frame,
        shader,
        uniforms,
        textures,
        spec_line(spec_rhw_init(a), spec_rhw_init(b)),
    )
}

/// The frame after the three edges of the triangle are drawn: from the
/// first vertex to the second, from the second to the third, and from the
/// third to the first.
pub open spec fn spec_wireframe<S: Shader>(
    frame: Frame,
    shader: S,
    uniforms: Uniforms,
    textures: TextureStorage,
    v: [Vertex; 3],
) -> Frame {
    let first = spec_edge(frame, shader, uniforms, textures, v[0], v[1]);
    let second = spec_edge(first, shader, uniforms, textures, v[1], v[2]);
    spec_edge(second, shader, uniforms, textures, v[2], v[0])
}

/// The frame after the screen-space triangle is drawn: as a wireframe, or
/// filled by the rasterizer `backend`.
pub open spec fn spec_rasterize_screen<S: Shader>(
    frame: Frame,
    shader: S,
    uniforms: Uniforms,
    textures: TextureStorage,
    wireframe: bool,
    backend: Backend,
    v: [Vertex; 3],
) -> Frame {
    if wireframe {
        spec_wireframe(frame, shader, uniforms, textures, v)
    } else {
        match backend {
            Backend::Scanline => spec_fill_triangle(frame, shader, uniforms, textures, v),
            Backend::Barycentric => spec_fill_aabb(frame, shader, uniforms, textures, v),
        }
    }
}

fn draw_edge<S: Shader>(
    color_attachment: &mut ColorAttachment,
    depth_attachment: &mut DepthAttachment,
    shader: &S,
    uniforms: &Uniforms,
    texture_storage: &TextureStorage,
    a: &Vertex,
    b: &Vertex,
)
    requires
        targets_wf(old(color_attachment), old(depth_attachment)),
    ensures
        targets_wf(final(color_attachment), final(depth_attachment)),
        frame_of(final(color_attachment), final(depth_attachment)) == spec_edge(
            frame_of(old(color_attachment), old(depth_attachment)),
            *shader,
            *uniforms,
            *texture_storage,
            *a,
            *b,
        ),
        final(color_attachment).spec_width() == old(color_attachment).spec_width(),
        final(color_attachment).spec_height() == old(color_attachment).spec_height(),
{
    let mut start = *a;
    let mut end = *b;
    vertex_rhw_init(&mut start);
    vertex_rhw_init(&mut end);
    let line = Line::new(start, end);
    rasterize_line(&line, shader, uniforms, texture_storage, color_attachment, depth_attachment);
}

/// An edge between two vertices beyond the same side of the screen leaves
/// the frame as it is.
pub proof fn lemma_edge_beside<S: Shader>(
    frame: Frame,
    shader: S,
    uniforms: Uniforms,
    textures: TextureStorage,
    a: Vertex,
    b: Vertex,
)
    requires
        0 <= frame.width,
        0 <= frame.height,
        ({
            ||| (a.position.x@ < 0 && b.position.x@ < 0)
            ||| (a.position.x@ >= frame.width * 65536 && b.position.x@ >= frame.width * 65536)
            ||| (a.position.y@ < 0 && b.position.y@ < 0)
            ||| (a.position.y@ > (frame.height - 1) * 65536 && b.position.y@ > (frame.height - 1)
                * 65536)
        }),
    ensures
        spec_edge(frame, shader, uniforms, textures, a, b) == frame,
{
    let line = spec_line(spec_rhw_init(a), spec_rhw_init(b));
    let p1 = line.start.position.xy();
    let p2 = line.end.position.xy();
    let min = Vec2::spec_zero();
    let max = screen_max(frame);
    assert(p1.x == a.position.x && p1.y == a.position.y);
    assert(p2.x == b.position.x && p2.y == b.position.y);
    assert(max.x@ <= (frame.width - 1) * 65536);
    assert(max.y@ <= (frame.height - 1) * 65536);
    assert(is_empty_rect(min, max) || share_outside(p1, p2, min, max));
    assert(spec_clip(p1, p2, min, max) is None);
}

/// Draws the screen-space triangle: its three edges in wireframe mode, its
/// area, by the rasterizer `backend`, otherwise.  A triangle whose vertices
/// lie beyond the same side of the screen leaves the attachments as they are.
pub fn rasterize_screen<S: Shader>(
    color_attachment: &mut ColorAttachment,
    depth_attachment: &mut DepthAttachment,
    shader: &S,
    uniforms: &Uniforms,
    texture_storage: &TextureStorage,
    wireframe: bool,
    backend: Backend,
    vertices: &[Vertex; 3],
)
    requires
        targets_wf(old(color_attachment), old(depth_attachment)),
    ensures
        targets_wf(final(color_attachment), final(depth_attachment)),
        frame_of(final(color_attachment), final(depth_attachment)) == spec_rasterize_screen(
            frame_of(old(color_attachment), old(depth_attachment)),
            *shader,
            *uniforms,
            *texture_storage,
            wireframe,
            backend,
            *vertices,
        ),
        final(color_attachment).spec_width() == old(color_attachment).spec_width(),
        final(color_attachment).spec_height() == old(color_attachment).spec_height(),
        beside_screen(
            *vertices,
            old(color_attachment).spec_width() as int,
            old(color_attachment).spec_height() as int,
        ) ==> frame_of(final(color_attachment), final(depth_attachment)) == frame_of(
            old(color_attachment),
            old(depth_attachment),
        ),
{
    proof {
        lemma_screen_beside(
            frame_of(color_attachment, depth_attachment),
            *shader,
            *uniforms,
            *texture_storage,
            wireframe,
            backend,
            *vertices,
        );
    }
    if wireframe {
        draw_edge(
            color_attachment,
            depth_attachment,
            shader,
            uniforms,
            texture_storage,
            &vertices[0],
            &vertices[1],
        );
        draw_edge(
            color_attachment,
            depth_attachment,
            shader,
            uniforms,
            texture_storage,
            &vertices[1],
            &vertices[2],
        );
        draw_edge(
            color_attachment,
            depth_attachment,
            shader,
            uniforms,
            texture_storage,
            &vertices[2],
            &vertices[0],
        );
    } else {
        match backend {
            Backend::Scanline => {
                fill_triangle(
                    color_attachment,
                    depth_attachment,
                    shader,
                    uniforms,
                    texture_storage,
                    vertices,
                );
            },
            Backend::Barycentric => {
                fill_aabb(
                    color_attachment,
                    depth_attachment,
                    shader,
                    uniforms,
                    texture_storage,
                    vertices,
                );
            },
        }
    }
}

/// A screen-space triangle whose vertices lie beyond the same side of the
/// screen writes no pixel, filled by either rasterizer or as a wireframe.
pub proof fn lemma_screen_beside<S: Shader>(
    frame: Frame,
    shader: S,
    uniforms: Uniforms,
    textures: TextureStorage,
    wireframe: bool,
    backend: Backend,
    v: [Vertex; 3],
)
    requires
        0 <= frame.width,
        0 <= frame.height,
    ensures
        beside_screen(v, frame.width, frame.height) ==> spec_rasterize_screen(
            frame,
            shader,
            uniforms,
            textures,
            wireframe,
            backend,
            v,
        ) == frame,
{
    if beside_screen(v, frame.width, frame.height) {
        if wireframe {
            lemma_edge_beside(frame, shader, uniforms, textures, v[0], v[1]);
            lemma_edge_beside(frame, shader, uniforms, textures, v[1], v[2]);
            lemma_edge_beside(frame, shader, uniforms, textures, v[2], v[0]);
        } else {
            lemma_fill_beside_screen(frame, shader, uniforms, textures, v);
            lemma_aabb_beside_screen(frame, shader, uniforms, textures, v);
        }
    }
}

/// A screen-space triangle in which no pixel of the screen lies, be it
/// beside the screen or past one of its corners, is filled by the
/// bounding-box rasterizer without a pixel written.
pub proof fn lemma_screen_missed<S: Shader>(
    frame: Frame,
    shader: S,
    uniforms: Uniforms,
    textures: TextureStorage,
    v: [Vertex; 3],
)
    requires
        misses_screen(v, frame.width, frame.height),
    ensures
        spec_rasterize_screen(frame, shader, uniforms, textures, false, Backend::Barycentric, v)
            == frame,
{
    lemma_aabb_misses_screen(frame, shader, uniforms, textures, v);
}

} // verus!
