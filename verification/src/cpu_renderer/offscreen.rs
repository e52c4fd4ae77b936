//! A triangle that lies beside the screen leaves the frame as it is.
//!
//! The screen holds the columns `0 <= x < width` and the rows
//! `0 <= y <= height - 1`.  A triangle lies beside it when its three
//! vertices lie beyond the same side.
use crate::cpu_renderer::fill::{
    advance, first_row, last_row, on_screen, prepared, row_number, spec_fill_triangle, spec_rows,
    spec_scanline, spec_trapezoid,
};
use crate::cpu_renderer::fragment::Frame;
use crate::fixed::Fixed;
use crate::math::transform::{lemma_lerp_between, spec_lerp};
use crate::scanline::{
    edge_at, edge_parameter, order_by_y, spec_from_trapezoid, spec_from_triangle, Edge, Trapezoid,
};
use crate::shader::{Shader, Uniforms, Vertex};
use crate::texture::TextureStorage;
use vstd::prelude::*;

verus! {

/// Whether the three vertices lie beyond the same side of a screen of
/// `width` by `height` pixels: left of column zero, right of the last
/// column, above row zero, or below the last row.
pub open spec fn beside_screen(v: [Vertex; 3], width: int, height: int) -> bool {
    ||| forall|i: int| 0 <= i < 3 ==> (#[trigger] v[i]).position.x@ < 0
    ||| forall|i: int| 0 <= i < 3 ==> (#[trigger] v[i]).position.x@ >= width * 65536
    ||| forall|i: int| 0 <= i < 3 ==> (#[trigger] v[i]).position.y@ < 0
    ||| forall|i: int| 0 <= i < 3 ==> (#[trigger] v[i]).position.y@ > (height - 1) * 65536
}

/// Whether both edges of the trapezoid span its rows: each starts at or
/// above `top` and ends at or below `bottom`.
pub open spec fn spans_rows(trap: Trapezoid) -> bool {
    &&& trap.top@ < trap.bottom@
    &&& trap.left.v1.position.y@ <= trap.top@
    &&& trap.bottom@ <= trap.left.v2.position.y@
    &&& trap.right.v1.position.y@ <= trap.top@
    &&& trap.bottom@ <= trap.right.v2.position.y@
}

/// Whether `p` is one of the three vertices.
pub open spec fn is_corner(p: Vertex, v: [Vertex; 3]) -> bool {
    p == v[0] || p == v[1] || p == v[2]
}

/// Whether the trapezoid is cut from the triangle: the ends of its edges are
/// corners of the triangle, and so are the vertices that give its top and
/// its bottom.
pub open spec fn cut_from(trap: Trapezoid, v: [Vertex; 3]) -> bool {
    &&& spans_rows(trap)
    &&& is_corner(trap.left.v1, v)
    &&& is_corner(trap.left.v2, v)
    &&& is_corner(trap.right.v1, v)
    &&& is_corner(trap.right.v2, v)
    &&& exists|i: int| 0 <= i < 3 && (#[trigger] v[i]).position.y == trap.top
    &&& exists|i: int| 0 <= i < 3 && (#[trigger] v[i]).position.y == trap.bottom
}

/// Every trapezoid of a triangle is cut from it.
pub proof fn lemma_trapezoids_cut_from(v: [Vertex; 3])
    ensures
        spec_from_triangle(v).0 is Some ==> cut_from(spec_from_triangle(v).0->Some_0, v),
        spec_from_triangle(v).1 is Some ==> cut_from(spec_from_triangle(v).1->Some_0, v),
{
    let (a, b, c) = order_by_y(v);
    assert(is_corner(a, v) && is_corner(b, v) && is_corner(c, v));
    assert(a.position.y@ <= b.position.y@ <= c.position.y@);
    let ia = if a == v[0] { 0int } else if a == v[1] { 1int } else { 2int };
    let ib = if b == v[0] { 0int } else if b == v[1] { 1int } else { 2int };
    let ic = if c == v[0] { 0int } else if c == v[1] { 1int } else { 2int };
    assert(v[ia].position.y == a.position.y);
    assert(v[ib].position.y == b.position.y);
    assert(v[ic].position.y == c.position.y);
}

/// Where an edge meets a row between its two ends, its `x` lies between the
/// `x` of its ends.
pub proof fn lemma_edge_between(e: Edge, y: Fixed)
    requires
        e.v1.position.y@ <= y@ <= e.v2.position.y@,
        e.v1.position.y@ < e.v2.position.y@,
    ensures
        e.v1.position.x@ <= e.v2.position.x@ ==> e.v1.position.x@ <= edge_at(e, y).position.x@
            <= e.v2.position.x@,
        e.v2.position.x@ <= e.v1.position.x@ ==> e.v2.position.x@ <= edge_at(e, y).position.x@
            <= e.v1.position.x@,
{
    let t = edge_parameter(e, y);
    let n = y.minus(e.v1.position.y)@;
    let d = e.v2.position.y.minus(e.v1.position.y)@;
    assert(0 <= n <= d && d > 0);
    assert(0 <= n * 65536 <= d * 65536) by (nonlinear_arith)
        requires
            0 <= n <= d,
    ;
    assert(0 <= (n * 65536) / d <= 65536) by (nonlinear_arith)
        requires
            0 <= n * 65536 <= d * 65536,
            d > 0,
    ;
    assert(0 <= t@ <= 65536);
    lemma_lerp_between(e.v1.position.x, e.v2.position.x, t);
    assert(edge_at(e, y).position.x == spec_lerp(e.v1.position.x, e.v2.position.x, t));
}

/// A scanline that ends left of the screen, or starts right of it, and
/// steps by at most one pixel to the right, leaves the frame as it is.
pub proof fn lemma_scanline_beside<S: Shader>(
    frame: Frame,
    shader: S,
    uniforms: Uniforms,
    textures: TextureStorage,
    vertex: Vertex,
    step: Vertex,
    width: Fixed,
    row: int,
)
    requires
        0 <= frame.width,
        width@ > 0 ==> 0 <= step.position.x@ <= 65536,
        vertex.position.x@ + width@ <= 0 || vertex.position.x@ >= frame.width * 65536,
    ensures
        spec_scanline(frame, shader, uniforms, textures, vertex, step, width, row) == frame,
    decreases width@ + 65536,
{
    if width@ > 0 {
        assert(!on_screen(vertex.position.x, frame.width));
        let next = advance(vertex, step);
        let rest = width.minus(Fixed { raw: 65536 });
        assert(next.position.x == vertex.position.x.plus(step.position.x));
        if vertex.position.x@ + width@ <= 0 {
            assert(next.position.x@ + rest@ <= 0);
        } else {
            assert(next.position.x@ >= vertex.position.x@);
        }
        if rest@ > 0 {
            assert(0 <= step.position.x@ <= 65536);
        }
        lemma_scanline_beside(frame, shader, uniforms, textures, next, step, rest, row);
    }
}

/// Preparing a trapezoid for interpolation moves none of its vertices on
/// the screen.
pub proof fn lemma_prepared_keeps_place(trap: Trapezoid)
    ensures
        prepared(trap).top == trap.top,
        prepared(trap).bottom == trap.bottom,
        prepared(trap).left.v1.position.x == trap.left.v1.position.x,
        prepared(trap).left.v1.position.y == trap.left.v1.position.y,
        prepared(trap).left.v2.position.x == trap.left.v2.position.x,
        prepared(trap).left.v2.position.y == trap.left.v2.position.y,
        prepared(trap).right.v1.position.x == trap.right.v1.position.x,
        prepared(trap).right.v1.position.y == trap.right.v1.position.y,
        prepared(trap).right.v2.position.x == trap.right.v2.position.x,
        prepared(trap).right.v2.position.y == trap.right.v2.position.y,
{
}

/// A scanline starts where the left edge meets its row, is as wide as the
/// way to the right edge, and, where it has a width, steps by exactly one
/// pixel.
pub proof fn lemma_scanline_shape(trap: Trapezoid, y: Fixed)
    ensures
        ({
            let scanline = spec_from_trapezoid(trap, y);
            let left = edge_at(trap.left, y).position.x;
            let right = edge_at(trap.right, y).position.x;
            &&& scanline.vertex.position.x == left
            &&& scanline.width == right.minus(left)
            &&& scanline.width@ > 0 ==> scanline.step.position.x@ == 65536
        }),
{
    let scanline = spec_from_trapezoid(trap, y);
    let width = scanline.width;
    if width@ > 0 {
        assert(scanline.step.position.x == width.over(width));
        assert((width@ * 65536) / width@ == 65536) by (nonlinear_arith)
            requires
                width@ > 0,
        ;
    }
}

/// A row whose two edges lie left of the screen, or right of it, leaves the
/// frame as it is.
pub proof fn lemma_row_beside<S: Shader>(
    frame: Frame,
    shader: S,
    uniforms: Uniforms,
    textures: TextureStorage,
    ready: Trapezoid,
    y: Fixed,
    row: int,
)
    requires
        0 <= frame.width,
        ready.left.v1.position.y@ <= y@ <= ready.left.v2.position.y@,
        ready.left.v1.position.y@ < ready.left.v2.position.y@,
        ready.right.v1.position.y@ <= y@ <= ready.right.v2.position.y@,
        ready.right.v1.position.y@ < ready.right.v2.position.y@,
        ({
            ||| (ready.left.v1.position.x@ < 0 && ready.left.v2.position.x@ < 0
                && ready.right.v1.position.x@ < 0 && ready.right.v2.position.x@ < 0)
            ||| (ready.left.v1.position.x@ >= frame.width * 65536 && ready.left.v2.position.x@
                >= frame.width * 65536 && ready.right.v1.position.x@ >= frame.width * 65536
                && ready.right.v2.position.x@ >= frame.width * 65536)
        }),
    ensures
        ({
            let scanline = spec_from_trapezoid(ready, y);
            spec_scanline(
                frame,
                shader,
                uniforms,
                textures,
                scanline.vertex,
                scanline.step,
                scanline.width,
                row,
            ) == frame
        }),
{
    let scanline = spec_from_trapezoid(ready, y);
    let left = edge_at(ready.left, y).position.x;
    let right = edge_at(ready.right, y).position.x;
    lemma_scanline_shape(ready, y);
    lemma_edge_between(ready.left, y);
    lemma_edge_between(ready.right, y);
    let w = frame.width * 65536;
    assert((left@ < 0 && right@ < 0) || (left@ >= w && right@ >= w));
    assert(scanline.vertex.position.x@ + scanline.width@ <= 0 || scanline.vertex.position.x@ >= w);
    lemma_scanline_beside(
        frame,
        shader,
        uniforms,
        textures,
        scanline.vertex,
        scanline.step,
        scanline.width,
        row,
    );
}

/// Rounding a number up gives the first integer that is not below it.
pub proof fn lemma_ceil(a: int, row: int)
    ensures
        crate::fixed::ceil_raw(a) <= row <==> a <= row * 65536,
{
    let c = crate::fixed::ceil_raw(a);
    assert(c * 65536 >= a && (c - 1) * 65536 < a) by (nonlinear_arith)
        requires
            c == (a + 65535) / 65536,
    ;
    if c <= row {
        assert(c * 65536 <= row * 65536) by (nonlinear_arith)
            requires
                c <= row,
        ;
    } else {
        assert((c - 1) * 65536 >= row * 65536) by (nonlinear_arith)
            requires
                c - 1 >= row,
        ;
    }
}

/// The rows of a trapezoid whose edges all lie left of the screen, or all
/// right of it, leave the frame as it is.
pub proof fn lemma_rows_beside<S: Shader>(
    frame: Frame,
    shader: S,
    uniforms: Uniforms,
    textures: TextureStorage,
    trap: Trapezoid,
    row: int,
    last: int,
)
    requires
        0 <= frame.width,
        spans_rows(trap),
        first_row(trap) <= row,
        last <= last_row(trap, frame.height),
        ({
            ||| (trap.left.v1.position.x@ < 0 && trap.left.v2.position.x@ < 0
                && trap.right.v1.position.x@ < 0 && trap.right.v2.position.x@ < 0)
            ||| (trap.left.v1.position.x@ >= frame.width * 65536 && trap.left.v2.position.x@
                >= frame.width * 65536 && trap.right.v1.position.x@ >= frame.width * 65536
                && trap.right.v2.position.x@ >= frame.width * 65536)
        }),
    ensures
        spec_rows(frame, shader, uniforms, textures, prepared(trap), row, last) == frame,
    decreases last - row + 1,
{
    if row <= last {
        lemma_ceil(trap.top@, row);
        lemma_ceil(trap.bottom@, row);
        assert(trap.top@ <= row * 65536 < trap.bottom@);
        assert(row_number(row)@ == row * 65536);
        lemma_prepared_keeps_place(trap);
        lemma_row_beside(frame, shader, uniforms, textures, prepared(trap), row_number(row), row);
        lemma_rows_beside(frame, shader, uniforms, textures, trap, row + 1, last);
    }
}

/// A trapezoid cut from a triangle beside the screen leaves the frame as it is.
pub proof fn lemma_trapezoid_beside<S: Shader>(
    frame: Frame,
    shader: S,
    uniforms: Uniforms,
    textures: TextureStorage,
    trap: Trapezoid,
    v: [Vertex; 3],
)
    requires
        0 <= frame.width,
        0 <= frame.height,
        cut_from(trap, v),
        beside_screen(v, frame.width, frame.height),
    ensures
        spec_trapezoid(frame, shader, uniforms, textures, trap) == frame,
{
    let first = first_row(trap);
    let last = last_row(trap, frame.height);
    if forall|i: int| 0 <= i < 3 ==> (#[trigger] v[i]).position.y@ < 0 {
        assert(trap.bottom@ <= 0);
        lemma_ceil(trap.bottom@, 0);
        assert(last < first);
    } else if forall|i: int| 0 <= i < 3 ==> (#[trigger] v[i]).position.y@ > (frame.height - 1)
        * 65536 {
        assert(trap.top@ > (frame.height - 1) * 65536);
        lemma_ceil(trap.top@, frame.height - 1);
        assert(last < first);
    } else {
        lemma_rows_beside(frame, shader, uniforms, textures, trap, first, last);
    }
}

/// Filling a triangle that lies beside the screen leaves the frame as it
/// is: no colour and no depth is written.
pub proof fn lemma_fill_beside_screen<S: Shader>(
    frame: Frame,
    shader: S,
    uniforms: Uniforms,
    textures: TextureStorage,
    vertices: [Vertex; 3],
)
    requires
        0 <= frame.width,
        0 <= frame.height,
        beside_screen(vertices, frame.width, frame.height),
    ensures
        spec_fill_triangle(frame, shader, uniforms, textures, vertices) == frame,
{
    lemma_trapezoids_cut_from(vertices);
    let traps = spec_from_triangle(vertices);
    if traps.0 is Some {
        lemma_trapezoid_beside(frame, shader, uniforms, textures, traps.0->Some_0, vertices);
    }
    if traps.1 is Some {
        lemma_trapezoid_beside(frame, shader, uniforms, textures, traps.1->Some_0, vertices);
    }
}

} // verus!
