//! Filling a screen-space triangle, row by row.
//!
//! The triangle is split into trapezoids.  The four ends of the edges of a
//! trapezoid are prepared for perspective-correct interpolation; then every
//! row `r` with `top <= r < bottom` that lies on the screen is walked from
//! its left end, one pixel at a time, and every pixel on the screen goes
//! through the depth test.
use crate::cpu_renderer::fragment::{frame_of, shade_fragment, spec_fragment, targets_wf, Frame};
use crate::fixed::{ceil_raw, sat, trunc_raw, Fixed};
use crate::image::{ColorAttachment, DepthAttachment};
use crate::scanline::{
    spec_from_trapezoid, spec_from_triangle, trapezoid, Edge, Scanline, Trapezoid,
};
use crate::shader::{
    interp_attributes, spec_rhw_init, vertex_rhw_init, Shader, Uniforms, Vertex,
};
use crate::texture::TextureStorage;
use vstd::prelude::*;

verus! {

/// The vertex one pixel further along a scanline.
pub open spec fn advance(vertex: Vertex, step: Vertex) -> Vertex {
    Vertex {
        position: vertex.position.plus(step.position),
        attributes: vertex.attributes.zip(step.attributes, |a: Fixed, b: Fixed| a.plus(b)),
    }
}

/// Whether the number `x` names a column of a screen `width` pixels wide.
pub open spec fn on_screen(x: Fixed, width: int) -> bool {
    0 <= x@ < width * 65536
}

/// The frame after the rest of a scanline in row `row`: what is left of it
/// starts at `vertex` and is `width` wide.
pub open spec fn spec_scanline<S: Shader>(
    frame: Frame,
    shader: S,
    uniforms: Uniforms,
    textures: TextureStorage,
    vertex: Vertex,
    step: Vertex,
    width: Fixed,
    row: int,
) -> Frame
    decreases width@ + 65536,
{
    if width@ <= 0 {
        frame
    } else {
        let shaded = if on_screen(vertex.position.x, frame.width) {
            spec_fragment(
                frame,
                shader,
                uniforms,
                textures,
                trunc_raw(vertex.position.x@),
                row,
                vertex,
            )
        } else {
            frame
        };
        spec_scanline(
            shaded,
            shader,
            uniforms,
            textures,
            advance(vertex, step),
            step,
            width.minus(Fixed { raw: 65536 }),
            row,
        )
    }
}

fn sum(a: Fixed, b: Fixed, t: Fixed) -> (r: Fixed)
    ensures
        r == a.plus(b),
{
    a + b
}

/// The vertex one pixel further along a scanline.
pub fn advance_vertex(vertex: &Vertex, step: &Vertex) -> (r: Vertex)
    ensures
        r == advance(*vertex, *step),
{
    let attributes = interp_attributes(&vertex.attributes, &step.attributes, sum, Fixed::zero());
    proof {
        let g = |a: Fixed, b: Fixed| a.plus(b);
        assert(attributes == vertex.attributes.zip(step.attributes, g));
    }
    Vertex { position: vertex.position + step.position, attributes }
}

/// Walks the scanline in row `row` from its left end and sends every pixel
/// that lies on the screen through the depth test.
pub fn draw_scanline<S: Shader>(
    color_attachment: &mut ColorAttachment,
    depth_attachment: &mut DepthAttachment,
    shader: &S,
    uniforms: &Uniforms,
    texture_storage: &TextureStorage,
    scanline: &Scanline,
    row: u32,
)
    requires
        targets_wf(old(color_attachment), old(depth_attachment)),
        row < old(color_attachment).spec_height(),
    ensures
        targets_wf(final(color_attachment), final(depth_attachment)),
        frame_of(final(color_attachment), final(depth_attachment)) == spec_scanline(
            frame_of(old(color_attachment), old(depth_attachment)),
            *shader,
            *uniforms,
            *texture_storage,
            scanline.vertex,
            scanline.step,
            scanline.width,
            row as int,
        ),
        final(color_attachment).spec_width() == old(color_attachment).spec_width(),
        final(color_attachment).spec_height() == old(color_attachment).spec_height(),
{
    let mut vertex = scanline.vertex;
    let mut width = scanline.width;
    let screen_width = color_attachment.width();
    while width.raw > 0
        invariant
            targets_wf(color_attachment, depth_attachment),
            color_attachment.spec_width() == old(color_attachment).spec_width() == screen_width,
            color_attachment.spec_height() == old(color_attachment).spec_height(),
            row < color_attachment.spec_height(),
            spec_scanline(
                frame_of(color_attachment, depth_attachment),
                *shader,
                *uniforms,
                *texture_storage,
                vertex,
                scanline.step,
                width,
                row as int,
            ) == spec_scanline(
                frame_of(old(color_attachment), old(depth_attachment)),
                *shader,
                *uniforms,
                *texture_storage,
                scanline.vertex,
                scanline.step,
                scanline.width,
                row as int,
            ),
        decreases width@ + 65536,
    {
        let x = vertex.position.x;
        if x.raw >= 0 && (x.raw as i64) < (screen_width as i64) * 65536 {
            let column = x.trunc() as u32;
            shade_fragment(
                color_attachment,
                depth_attachment,
                shader,
                uniforms,
                texture_storage,
                column,
                row,
                &vertex,
            );
        }
        width = width - Fixed::one();
        vertex = advance_vertex(&vertex, &scanline.step);
    }
}

/// The trapezoid with the four ends of its edges prepared for
/// perspective-correct interpolation.
pub open spec fn prepared(trap: Trapezoid) -> Trapezoid {
    Trapezoid {
        top: trap.top,
        bottom: trap.bottom,
        left: Edge { v1: spec_rhw_init(trap.left.v1), v2: spec_rhw_init(trap.left.v2) },
        right: Edge { v1: spec_rhw_init(trap.right.v1), v2: spec_rhw_init(trap.right.v2) },
    }
}

/// The first row of the trapezoid that lies on the screen.
pub open spec fn first_row(trap: Trapezoid) -> int {
    if ceil_raw(trap.top@) < 0 {
        0
    } else {
        ceil_raw(trap.top@)
    }
}

/// The last row of the trapezoid that lies on a screen `height` rows high.
pub open spec fn last_row(trap: Trapezoid, height: int) -> int {
    (if ceil_raw(trap.bottom@) < height {
        ceil_raw(trap.bottom@)
    } else {
        height
    }) - 1
}

/// The number that stands for the row `row`.
pub open spec fn row_number(row: int) -> Fixed {
    Fixed::of_raw(sat(row * 65536))
}

/// The frame after the rows from `row` to `last` of a prepared trapezoid.
pub open spec fn spec_rows<S: Shader>(
    frame: Frame,
    shader: S,
    uniforms: Uniforms,
    textures: TextureStorage,
    trap: Trapezoid,
    row: int,
    last: int,
) -> Frame
    decreases last - row + 1,
{
    if row > last {
        frame
    } else {
        let scanline = spec_from_trapezoid(trap, row_number(row));
        spec_rows(
            spec_scanline(
                frame,
                shader,
                uniforms,
                textures,
                scanline.vertex,
                scanline.step,
                scanline.width,
                row,
            ),
            shader,
            uniforms,
            textures,
            trap,
            row + 1,
            last,
        )
    }
}

/// The frame after the trapezoid is filled.
pub open spec fn spec_trapezoid<S: Shader>(
    frame: Frame,
    shader: S,
    uniforms: Uniforms,
    textures: TextureStorage,
    trap: Trapezoid,
) -> Frame {
    spec_rows(
        frame,
        shader,
        uniforms,
        textures,
        prepared(trap),
        first_row(trap),
        last_row(trap, frame.height),
    )
}

/// Fills the rows of the trapezoid that lie on the screen, from the top.
pub fn draw_trapezoid<S: Shader>(
    color_attachment: &mut ColorAttachment,
    depth_attachment: &mut DepthAttachment,
    shader: &S,
    uniforms: &Uniforms,
    texture_storage: &TextureStorage,
    trap: &Trapezoid,
)
    requires
        targets_wf(old(color_attachment), old(depth_attachment)),
    ensures
        targets_wf(final(color_attachment), final(depth_attachment)),
        frame_of(final(color_attachment), final(depth_attachment)) == spec_trapezoid(
            frame_of(old(color_attachment), old(depth_attachment)),
            *shader,
            *uniforms,
            *texture_storage,
            *trap,
        ),
        final(color_attachment).spec_width() == old(color_attachment).spec_width(),
        final(color_attachment).spec_height() == old(color_attachment).spec_height(),
{
    let top: i64 = if trap.top.ceil() < 0 {
        0
    } else {
        trap.top.ceil() as i64
    };
    let height: i64 = color_attachment.height() as i64;
    let bottom: i64 = (if (trap.bottom.ceil() as i64) < height {
        trap.bottom.ceil() as i64
    } else {
        height
    }) - 1;
    let mut ready = *trap;
    vertex_rhw_init(&mut ready.left.v1);
    vertex_rhw_init(&mut ready.left.v2);
    vertex_rhw_init(&mut ready.right.v1);
    vertex_rhw_init(&mut ready.right.v2);
    assert(ready == prepared(*trap));
    let mut row: i64 = top;
    while row <= bottom
        invariant
            targets_wf(color_attachment, depth_attachment),
            color_attachment.spec_width() == old(color_attachment).spec_width(),
            color_attachment.spec_height() == old(color_attachment).spec_height() == height,
            0 <= row,
            bottom < height,
            spec_rows(
                frame_of(color_attachment, depth_attachment),
                *shader,
                *uniforms,
                *texture_storage,
                ready,
                row as int,
                bottom as int,
            ) == spec_rows(
                frame_of(old(color_attachment), old(depth_attachment)),
                *shader,
                *uniforms,
                *texture_storage,
                ready,
                top as int,
                bottom as int,
            ),
        decreases bottom - row + 1,
    {
        let y = if row > 32767 {
            Fixed::max_value()
        } else {
            Fixed::from_int(row as i32)
        };
        assert(y == row_number(row as int));
        let scanline = Scanline::from_trapezoid(&ready, y);
        draw_scanline(
            color_attachment,
            depth_attachment,
            shader,
            uniforms,
            texture_storage,
            &scanline,
            row as u32,
        );
        row += 1;
    }
}

/// The frame after the triangle is filled: its trapezoids, the upper one first.
pub open spec fn spec_fill_triangle<S: Shader>(
    frame: Frame,
    shader: S,
    uniforms: Uniforms,
    textures: TextureStorage,
    vertices: [Vertex; 3],
) -> Frame {
    let traps = spec_from_triangle(vertices);
    let upper = match traps.0 {
        Some(trap) => spec_trapezoid(frame, shader, uniforms, textures, trap),
        None => frame,
    };
    match traps.1 {
        Some(trap) => spec_trapezoid(upper, shader, uniforms, textures, trap),
        None => upper,
    }
}

/// Fills the screen-space triangle `vertices`.  A degenerate triangle leaves
/// the attachments as they are.
pub fn fill_triangle<S: Shader>(
    color_attachment: &mut ColorAttachment,
    depth_attachment: &mut DepthAttachment,
    shader: &S,
    uniforms: &Uniforms,
    texture_storage: &TextureStorage,
    vertices: &[Vertex; 3],
)
    requires
        targets_wf(old(color_attachment), old(depth_attachment)),
    ensures
        targets_wf(final(color_attachment), final(depth_attachment)),
        frame_of(final(color_attachment), final(depth_attachment)) == spec_fill_triangle(
            frame_of(old(color_attachment), old(depth_attachment)),
            *shader,
            *uniforms,
            *texture_storage,
            *vertices,
        ),
        final(color_attachment).spec_width() == old(color_attachment).spec_width(),
        final(color_attachment).spec_height() == old(color_attachment).spec_height(),
{
    let traps = Trapezoid::from_triangle(vertices);
    match traps[0] {
        Some(trap) => {
            draw_trapezoid(
                color_attachment,
                depth_attachment,
                shader,
                uniforms,
                texture_storage,
                &trap,
            );
        },
        None => {},
    }
    match traps[1] {
        Some(trap) => {
            draw_trapezoid(
                color_attachment,
                depth_attachment,
                shader,
                uniforms,
                texture_storage,
                &trap,
            );
        },
        None => {},
    }
}

} // verus!
