//! The line rasterizer of the wireframe mode.
use crate::cpu_renderer::fill::{advance, advance_vertex};
use crate::cpu_renderer::fragment::{frame_of, shade_fragment, spec_fragment, targets_wf, Frame};
use crate::fixed::{sat, trunc_raw, Fixed};
use crate::image::{ColorAttachment, DepthAttachment};
use crate::line::Line;
use crate::math::vector::Vec2;
use crate::renderer::bresenham::Bresenham;
use crate::renderer::clip::{lemma_clip_result_inside, spec_clip};
use crate::shader::{Shader, Uniforms, Vertex};
use crate::texture::TextureStorage;
use vstd::prelude::*;

verus! {

/// The frame after the rest of a line: the traversal `pixels` hands out
/// the pixels, and `vertex` is interpolated along with it.
pub open spec fn spec_line_pixels<S: Shader>(
    frame: Frame,
    shader: S,
    uniforms: Uniforms,
    textures: TextureStorage,
    pixels: Bresenham,
    vertex: Vertex,
    step: Vertex,
) -> Frame
    decreases pixels.remaining(),
    when pixels.wf()
{
    if pixels.spec_done() {
        frame
    } else {
        proof {
            pixels.lemma_advance();
        }
        let (x, y) = pixels.spec_current();
        spec_line_pixels(
            spec_fragment(frame, shader, uniforms, textures, x, y, vertex),
            shader,
            uniforms,
            textures,
            pixels.spec_advance(),
            advance(vertex, step),
            step,
        )
    }
}

/// The last column, or row, of a screen with `size` of them, as a number.
pub open spec fn last_index(size: int) -> Fixed {
    Fixed::of_raw(sat((size - 1) * 65536))
}

/// The corner of the screen opposite to the origin.
pub open spec fn screen_max(frame: Frame) -> Vec2 {
    Vec2 { x: last_index(frame.width), y: last_index(frame.height) }
}

/// The frame after the line is drawn: the part of it on the screen is
/// traversed from its first end, and every pixel goes through the depth
/// test with the vertex interpolated from the start of the line.
pub open spec fn spec_rasterize_line<S: Shader>(
    frame: Frame,
    shader: S,
    uniforms: Uniforms,
    textures: TextureStorage,
    line: Line,
) -> Frame {
    match spec_clip(line.start.position.xy(), line.end.position.xy(), Vec2::spec_zero(), screen_max(frame)) {
        Some((v1, v2)) => spec_line_pixels(
            frame,
            shader,
            uniforms,
            textures,
            Bresenham::spec_start(
                trunc_raw(v1.x@),
                trunc_raw(v1.y@),
                trunc_raw(v2.x@),
                trunc_raw(v2.y@),
            ),
            line.start,
            line.step,
        ),
        None => frame,
    }
}

/// Every pixel that the traversal of a clipped segment hands out lies in
/// the rectangle that the segment was clipped against, rounded toward zero.
pub proof fn lemma_line_in_rectangle(p1: Vec2, p2: Vec2, min: Vec2, max: Vec2)
    ensures
        spec_clip(p1, p2, min, max) is Some ==> {
            let (v1, v2) = spec_clip(p1, p2, min, max)->Some_0;
            let pixels = Bresenham::spec_start(
                trunc_raw(v1.x@),
                trunc_raw(v1.y@),
                trunc_raw(v2.x@),
                trunc_raw(v2.y@),
            ).spec_pixels();
            forall|i: int|
                0 <= i < pixels.len() ==> {
                    let p = #[trigger] pixels[i];
                    &&& trunc_raw(min.x@) <= p.0 <= trunc_raw(max.x@)
                    &&& trunc_raw(min.y@) <= p.1 <= trunc_raw(max.y@)
                }
        },
{
    if spec_clip(p1, p2, min, max) is Some {
        let (v1, v2) = spec_clip(p1, p2, min, max)->Some_0;
        lemma_clip_result_inside(p1, p2, min, max);
        lemma_trunc_monotone(min.x@, v1.x@);
        lemma_trunc_monotone(v1.x@, max.x@);
        lemma_trunc_monotone(min.x@, v2.x@);
        lemma_trunc_monotone(v2.x@, max.x@);
        lemma_trunc_monotone(min.y@, v1.y@);
        lemma_trunc_monotone(v1.y@, max.y@);
        lemma_trunc_monotone(min.y@, v2.y@);
        lemma_trunc_monotone(v2.y@, max.y@);
        let start = Bresenham::spec_start(
            trunc_raw(v1.x@),
            trunc_raw(v1.y@),
            trunc_raw(v2.x@),
            trunc_raw(v2.y@),
        );
        lemma_trunc_range(v1.x@);
        lemma_trunc_range(v1.y@);
        lemma_trunc_range(v2.x@);
        lemma_trunc_range(v2.y@);
        Bresenham::lemma_start(
            trunc_raw(v1.x@),
            trunc_raw(v1.y@),
            trunc_raw(v2.x@),
            trunc_raw(v2.y@),
        );
        start.lemma_pixels_in_rectangle(
            trunc_raw(min.x@),
            trunc_raw(min.y@),
            trunc_raw(max.x@),
            trunc_raw(max.y@),
        );
    }
}

/// Rounding toward zero keeps the order of two numbers.
pub proof fn lemma_trunc_monotone(a: int, b: int)
    requires
        a <= b,
    ensures
        trunc_raw(a) <= trunc_raw(b),
{
    if a >= 0 {
        assert(a / 65536 <= b / 65536) by (nonlinear_arith)
            requires
                0 <= a <= b,
        ;
    } else if b < 0 {
        assert((-b) / 65536 <= (-a) / 65536) by (nonlinear_arith)
            requires
                0 <= -b <= -a,
        ;
    } else {
        assert((-a) / 65536 >= 0 && b / 65536 >= 0) by (nonlinear_arith)
            requires
                a < 0 <= b,
        ;
    }
}

/// A raw value rounded toward zero is an integer of sixteen bits.
pub proof fn lemma_trunc_range(a: int)
    requires
        -2147483648 <= a <= 2147483647,
    ensures
        -32768 <= trunc_raw(a) <= 32767,
{
}

fn last_of(size: u32) -> (r: Fixed)
    ensures
        r == last_index(size as int),
{
    let v: i64 = (size as i64 - 1) * 65536;
    Fixed::from_raw(crate::fixed::saturate(v))
}

/// Rounding toward zero keeps a number between zero and the last index of a
/// screen on the screen.
proof fn lemma_trunc_on_screen(v: Fixed, size: int)
    requires
        0 <= size <= 0xffff_ffff,
        0 <= v@ <= last_index(size)@,
    ensures
        0 <= trunc_raw(v@) < size,
{
    assert(v@ <= (size - 1) * 65536);
    assert(v@ / 65536 <= size - 1) by (nonlinear_arith)
        requires
            0 <= v@ <= (size - 1) * 65536,
    ;
}

/// Draws the part of the line that lies on the screen.
pub fn rasterize_line<S: Shader>(
    line: &Line,
    shader: &S,
    uniforms: &Uniforms,
    texture_storage: &TextureStorage,
    color_attachment: &mut ColorAttachment,
    depth_attachment: &mut DepthAttachment,
)
    requires
        targets_wf(old(color_attachment), old(depth_attachment)),
    ensures
        targets_wf(final(color_attachment), final(depth_attachment)),
        frame_of(final(color_attachment), final(depth_attachment)) == spec_rasterize_line(
            frame_of(old(color_attachment), old(depth_attachment)),
            *shader,
            *uniforms,
            *texture_storage,
            *line,
        ),
        final(color_attachment).spec_width() == old(color_attachment).spec_width(),
        final(color_attachment).spec_height() == old(color_attachment).spec_height(),
{
    let width = color_attachment.width();
    let height = color_attachment.height();
    let min = Vec2::zero();
    let max = Vec2::new(last_of(width), last_of(height));
    let p1 = line.start.position.truncated_to_vec2();
    let p2 = line.end.position.truncated_to_vec2();
    let bresenham = Bresenham::new(&p1, &p2, &min, &max);
    match bresenham {
        Some(start) => {
            let mut iter = start;
            let mut vertex = line.start;
            proof {
                lemma_clip_result_inside(p1, p2, min, max);
                let (v1, v2) = spec_clip(p1, p2, min, max)->Some_0;
                lemma_trunc_on_screen(v1.x, width as int);
                lemma_trunc_on_screen(v1.y, height as int);
                lemma_trunc_on_screen(v2.x, width as int);
                lemma_trunc_on_screen(v2.y, height as int);
            }
            loop
                invariant
                    targets_wf(color_attachment, depth_attachment),
                    color_attachment.spec_width() == old(color_attachment).spec_width() == width,
                    color_attachment.spec_height() == old(color_attachment).spec_height()
                        == height,
                    iter.wf(),
                    0 <= iter.spec_last().0 < width,
                    0 <= iter.spec_last().1 < height,
                    !iter.spec_done() ==> 0 <= iter.spec_current().0 < width,
                    !iter.spec_done() ==> 0 <= iter.spec_current().1 < height,
                    spec_line_pixels(
                        frame_of(color_attachment, depth_attachment),
                        *shader,
                        *uniforms,
                        *texture_storage,
                        iter,
                        vertex,
                        line.step,
                    ) == spec_rasterize_line(
                        frame_of(old(color_attachment), old(depth_attachment)),
                        *shader,
                        *uniforms,
                        *texture_storage,
                        *line,
                    ),
                decreases iter.remaining(),
            {
                proof {
                    if !iter.spec_done() {
                        iter.lemma_advance();
                    }
                }
                match iter.next() {
                    Some((x, y)) => {
                        shade_fragment(
                            color_attachment,
                            depth_attachment,
                            shader,
                            uniforms,
                            texture_storage,
                            x as u32,
                            y as u32,
                            &vertex,
                        );
                        vertex = advance_vertex(&vertex, &line.step);
                    },
                    None => {
                        return ;
                    },
                }
            }
        },
        None => {},
    }
}

} // verus!
