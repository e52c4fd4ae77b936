//! From a screen-space triangle to scanlines: the split into trapezoids, the
//! set-up of one scanline, and the clipping of a triangle at the near plane.
use crate::fixed::{lemma_product_bound, Fixed};
use crate::math::transform::{lerp, spec_lerp};
use crate::math::vector::Vec4;
use crate::shader::{interp_attributes, lerp_vertex, spec_lerp_vertex, Vertex};
use std::ops::Neg;
use vstd::prelude::*;

verus! {

/// An edge of a trapezoid, from its upper vertex `v1` to its lower vertex `v2`.
#[derive(Clone, Copy, Debug)]
pub struct Edge {
    pub v1: Vertex,
    pub v2: Vertex,
}

/// The part of a triangle between two horizontal lines: the rows from `top`
/// to `bottom`, bounded by the edges `left` and `right`.
#[derive(Clone, Copy, Debug)]
pub struct Trapezoid {
    pub top: Fixed,
    pub bottom: Fixed,
    pub left: Edge,
    pub right: Edge,
}

/// The three vertices in the order of their `y`; vertices with the same `y`
/// keep their order.
pub open spec fn order_by_y(v: [Vertex; 3]) -> (Vertex, Vertex, Vertex) {
    let (a, b) = if v[0].position.y@ > v[1].position.y@ {
        (v[1], v[0])
    } else {
        (v[0], v[1])
    };
    let c = v[2];
    if b.position.y@ > c.position.y@ {
        if a.position.y@ > c.position.y@ {
            (c, a, b)
        } else {
            (a, c, b)
        }
    } else {
        (a, b, c)
    }
}

/// Whether the triangle has no area by the rule of the rasterizer: its
/// vertices share their `x`, or they share their `y`.
pub open spec fn is_degenerate(v: [Vertex; 3]) -> bool {
    ||| (v[0].position.x == v[1].position.x && v[0].position.x == v[2].position.x)
    ||| (v[0].position.y == v[1].position.y && v[0].position.y == v[2].position.y)
}

/// Whether two of the vertices, in the order of their `y`, share their `y`.
pub open spec fn has_flat_side(v: [Vertex; 3]) -> bool {
    let (a, b, c) = order_by_y(v);
    a.position.y == b.position.y || b.position.y == c.position.y
}

/// Whether the long edge from `a` to `c` passes to the right of `b`, for
/// `a`, `b`, `c` in the order of their `y`.  The test is exact: it compares
/// `(c.x - a.x) * (b.y - a.y)` with `(b.x - a.x) * (c.y - a.y)` on the raw
/// values.
pub open spec fn long_edge_on_right(a: Vertex, b: Vertex, c: Vertex) -> bool {
    (c.position.x@ - a.position.x@) * (b.position.y@ - a.position.y@) > (b.position.x@
        - a.position.x@) * (c.position.y@ - a.position.y@)
}

/// The trapezoid from `top` to `bottom` between two edges.
pub open spec fn trapezoid(top: Fixed, bottom: Fixed, l1: Vertex, l2: Vertex, r1: Vertex, r2: Vertex) -> Trapezoid {
    Trapezoid { top, bottom, left: Edge { v1: l1, v2: l2 }, right: Edge { v1: r1, v2: r2 } }
}

/// The trapezoids of a triangle: none for a degenerate one, one for a
/// triangle with a flat top or a flat bottom, two for any other, split at
/// the `y` of its middle vertex.
pub open spec fn spec_from_triangle(v: [Vertex; 3]) -> (Option<Trapezoid>, Option<Trapezoid>) {
    let (a, b, c) = order_by_y(v);
    if is_degenerate(v) {
        (None, None)
    } else if a.position.y == b.position.y {
        let (l, r) = if a.position.x@ > b.position.x@ {
            (b, a)
        } else {
            (a, b)
        };
        (Some(trapezoid(l.position.y, c.position.y, l, c, r, c)), None)
    } else if b.position.y == c.position.y {
        let (l, r) = if b.position.x@ > c.position.x@ {
            (c, b)
        } else {
            (b, c)
        };
        (Some(trapezoid(a.position.y, r.position.y, a, l, a, r)), None)
    } else if long_edge_on_right(a, b, c) {
        (
            Some(trapezoid(a.position.y, b.position.y, a, b, a, c)),
            Some(trapezoid(b.position.y, c.position.y, b, c, a, c)),
        )
    } else {
        (
            Some(trapezoid(a.position.y, b.position.y, a, c, a, b)),
            Some(trapezoid(b.position.y, c.position.y, a, c, b, c)),
        )
    }
}

/// The exact product of two differences of raw values.
fn diff_product(a1: Fixed, a0: Fixed, b1: Fixed, b0: Fixed) -> (p: i128)
    ensures
        p == (a1@ - a0@) * (b1@ - b0@),
{
    let a: i128 = a1.raw as i128 - a0.raw as i128;
    let b: i128 = b1.raw as i128 - b0.raw as i128;
    proof {
        lemma_product_bound(a as int, b as int, 0x1_0000_0000, 0x1_0000_0000);
    }
    a * b
}

impl Trapezoid {
    /// Splits the triangle into its trapezoids.  The result is
    /// `[None, None]` exactly for a degenerate triangle, `[Some, None]`
    /// exactly for one that is not degenerate and has a flat side, and
    /// `[Some, Some]` for every other.
    pub fn from_triangle(vertices: &[Vertex; 3]) -> (r: [Option<Trapezoid>; 2])
        ensures
            r[0] == spec_from_triangle(*vertices).0,
            r[1] == spec_from_triangle(*vertices).1,
            (r[0] is None && r[1] is None) <==> is_degenerate(*vertices),
            (r[0] is Some && r[1] is None) <==> !is_degenerate(*vertices) && has_flat_side(
                *vertices,
            ),
            (r[0] is Some && r[1] is Some) <==> !is_degenerate(*vertices) && !has_flat_side(
                *vertices,
            ),
    {
        let (a, b) = if vertices[0].position.y.raw > vertices[1].position.y.raw {
            (vertices[1], vertices[0])
        } else {
            (vertices[0], vertices[1])
        };
        let c = vertices[2];
        let (a, b, c) = if b.position.y.raw > c.position.y.raw {
            if a.position.y.raw > c.position.y.raw {
                (c, a, b)
            } else {
                (a, c, b)
            }
        } else {
            (a, b, c)
        };
        assert((a, b, c) == order_by_y(*vertices));

        if (a.position.x == b.position.x && a.position.x == c.position.x) || (a.position.y
            == b.position.y && a.position.y == c.position.y) {
            return [None, None];
        }
        if a.position.y == b.position.y {
            let (l, r) = if a.position.x.raw > b.position.x.raw {
                (b, a)
            } else {
                (a, b)
            };
            let trap = Trapezoid {
                top: l.position.y,
                bottom: c.position.y,
                left: Edge { v1: l, v2: c },
                right: Edge { v1: r, v2: c },
            };
            return [Some(trap), None];
        }
        if b.position.y == c.position.y {
            let (l, r) = if b.position.x.raw > c.position.x.raw {
                (c, b)
            } else {
                (b, c)
            };
            let trap = Trapezoid {
                top: a.position.y,
                bottom: r.position.y,
                left: Edge { v1: a, v2: l },
                right: Edge { v1: a, v2: r },
            };
            return [Some(trap), None];
        }
        let long_side = diff_product(c.position.x, a.position.x, b.position.y, a.position.y);
        let short_side = diff_product(b.position.x, a.position.x, c.position.y, a.position.y);
        if long_side > short_side {
            let trap1 = Trapezoid {
                top: a.position.y,
                bottom: b.position.y,
                left: Edge { v1: a, v2: b },
                right: Edge { v1: a, v2: c },
            };
            let trap2 = Trapezoid {
                top: b.position.y,
                bottom: c.position.y,
                left: Edge { v1: b, v2: c },
                right: Edge { v1: a, v2: c },
            };
            [Some(trap1), Some(trap2)]
        } else {
            let trap1 = Trapezoid {
                top: a.position.y,
                bottom: b.position.y,
                left: Edge { v1: a, v2: c },
                right: Edge { v1: a, v2: b },
            };
            let trap2 = Trapezoid {
                top: b.position.y,
                bottom: c.position.y,
                left: Edge { v1: a, v2: c },
                right: Edge { v1: b, v2: c },
            };
            [Some(trap1), Some(trap2)]
        }
    }
}

/// One row of a trapezoid: the vertex at its left end, what is added to it
/// from one pixel to the next, the row, and the width that is left.
#[derive(Clone, Copy, Debug)]
pub struct Scanline {
    pub vertex: Vertex,
    pub step: Vertex,
    pub y: Fixed,
    pub width: Fixed,
}

/// How far along the edge the row `y` lies: zero at the upper vertex, one at
/// the lower.
pub open spec fn edge_parameter(e: Edge, y: Fixed) -> Fixed {
    y.minus(e.v1.position.y).over(e.v2.position.y.minus(e.v1.position.y))
}

/// The vertex where the edge meets the row `y`.
pub open spec fn edge_at(e: Edge, y: Fixed) -> Vertex {
    spec_lerp_vertex(e.v1, e.v2, edge_parameter(e, y))
}

/// The difference of two vertices divided by `width`, position and
/// attributes alike: the change from one pixel to the next along a run of
/// `width` pixels.
pub open spec fn spec_step(left: Vertex, right: Vertex, width: Fixed) -> Vertex {
    Vertex {
        position: right.position.minus(left.position).divided(width),
        attributes: left.attributes.zip(
            right.attributes,
            |a: Fixed, b: Fixed| b.minus(a).over(width),
        ),
    }
}

/// The scanline of the trapezoid at the row `y`.
pub open spec fn spec_from_trapezoid(trap: Trapezoid, y: Fixed) -> Scanline {
    let left = edge_at(trap.left, y);
    let right = edge_at(trap.right, y);
    let width = right.position.x.minus(left.position.x);
    Scanline { vertex: left, step: spec_step(left, right, width), y, width }
}

/// `(b - a) / width`.
pub fn step_between(a: Fixed, b: Fixed, width: Fixed) -> (r: Fixed)
    ensures
        r == b.minus(a).over(width),
{
    (b - a) / width
}

/// The change from `left` to `right` per pixel along a run of `width` pixels.
pub fn vertex_step(left: &Vertex, right: &Vertex, width: Fixed) -> (r: Vertex)
    ensures
        r == spec_step(*left, *right, width),
{
    let position = (right.position - left.position) / width;
    let attributes = interp_attributes(&left.attributes, &right.attributes, step_between, width);
    proof {
        let g = |a: Fixed, b: Fixed| b.minus(a).over(width);
        assert(attributes == left.attributes.zip(right.attributes, g));
    }
    Vertex { position, attributes }
}

impl Scanline {
    /// The scanline of `trap` at the row `init_y`: both edges are
    /// interpolated to the row, and the step divides their difference by the
    /// width between them.
    pub fn from_trapezoid(trap: &Trapezoid, init_y: Fixed) -> (r: Scanline)
        ensures
            r == spec_from_trapezoid(*trap, init_y),
    {
        let t1 = (init_y - trap.left.v1.position.y) / (trap.left.v2.position.y
            - trap.left.v1.position.y);
        let t2 = (init_y - trap.right.v1.position.y) / (trap.right.v2.position.y
            - trap.right.v1.position.y);
        let vertex_left = lerp_vertex(&trap.left.v1, &trap.left.v2, t1);
        let vertex_right = lerp_vertex(&trap.right.v1, &trap.right.v2, t2);
        let width = vertex_right.position.x - vertex_left.position.x;
        Scanline {
            vertex: vertex_left,
            step: vertex_step(&vertex_left, &vertex_right, width),
            width,
            y: init_y,
        }
    }
}

/// Whether the vertex lies on the near side of the plane `z = plane_z`, where
/// nothing is drawn.
pub open spec fn is_above(v: Vertex, plane_z: Fixed) -> bool {
    v.position.z@ > plane_z@
}

/// Where the edge from `inner` to `out` meets the plane `z = near_plane_z`:
/// its `z` is that of the plane, and its other coordinates and its
/// attributes are blended with the parameter
/// `(near_plane_z - inner.z) / (out.z - inner.z)`.
#[verifier::opaque]
pub open spec fn spec_clip_line(out: Vertex, inner: Vertex, near_plane_z: Fixed) -> Vertex {
    let proportion = near_plane_z.minus(inner.position.z).over(
        out.position.z.minus(inner.position.z),
    );
    let blended = out.position.minus(inner.position).scaled(proportion).plus(inner.position);
    Vertex {
        position: Vec4 { x: blended.x, y: blended.y, z: near_plane_z, w: blended.w },
        attributes: inner.attributes.zip(
            out.attributes,
            |a: Fixed, b: Fixed| spec_lerp(a, b, proportion),
        ),
    }
}

/// The triangle with the vertices `a`, `b`, `c`, in this order.
pub open spec fn spec_face(a: Vertex, b: Vertex, c: Vertex) -> [Vertex; 3] {
    [a, b, c]
}

/// What is left of the triangle behind the plane `z = z`: one triangle where
/// two vertices are cut off, two triangles where one is.  The winding of the
/// triangle is kept.
pub open spec fn spec_clip_at(v: [Vertex; 3], z: Fixed) -> ([Vertex; 3], Option<[Vertex; 3]>) {
    if is_above(v[0], z) {
        if is_above(v[1], z) {
            (spec_face(spec_clip_line(v[0], v[2], z), spec_clip_line(v[1], v[2], z), v[2]), None)
        } else if is_above(v[2], z) {
            (spec_face(spec_clip_line(v[0], v[1], z), v[1], spec_clip_line(v[2], v[1], z)), None)
        } else {
            (
                spec_face(v[1], spec_clip_line(v[0], v[2], z), spec_clip_line(v[0], v[1], z)),
                Some(spec_face(v[1], v[2], spec_clip_line(v[0], v[2], z))),
            )
        }
    } else if is_above(v[1], z) {
        if is_above(v[2], z) {
            (spec_face(v[0], spec_clip_line(v[1], v[0], z), spec_clip_line(v[2], v[0], z)), None)
        } else {
            (
                spec_face(v[0], spec_clip_line(v[1], v[0], z), spec_clip_line(v[1], v[2], z)),
                Some(spec_face(v[0], spec_clip_line(v[1], v[2], z), v[2])),
            )
        }
    } else {
        (
            spec_face(v[0], spec_clip_line(v[2], v[1], z), spec_clip_line(v[2], v[0], z)),
            Some(spec_face(v[0], v[1], spec_clip_line(v[2], v[1], z))),
        )
    }
}

/// What is left of the triangle behind the near plane `z = -near`.
pub open spec fn spec_near_plane_clip(v: [Vertex; 3], near: Fixed) -> ([Vertex; 3], Option<
    [Vertex; 3],
>) {
    spec_clip_at(v, near.negated())
}

/// Number of vertices of the triangle on the near side of the plane `z = z`.
pub open spec fn count_above(v: [Vertex; 3], z: Fixed) -> int {
    (if is_above(v[0], z) { 1int } else { 0 }) + (if is_above(v[1], z) { 1int } else { 0 }) + (if is_above(
        v[2],
        z,
    ) { 1int } else { 0 })
}

/// Where the edge from `inner` to `out` meets the plane `z = near_plane_z`.
/// The cut lies on the plane.
pub fn near_plane_clip_line(out: &Vertex, inner: &Vertex, near_plane_z: Fixed) -> (r: Vertex)
    ensures
        r == spec_clip_line(*out, *inner, near_plane_z),
        r.position.z == near_plane_z,
{
    reveal(spec_clip_line);
    let proportion = (near_plane_z - inner.position.z) / (out.position.z - inner.position.z);
    let blended = proportion * (out.position - inner.position) + inner.position;
    let attributes = interp_attributes(&inner.attributes, &out.attributes, lerp, proportion);
    proof {
        let g = |a: Fixed, b: Fixed| spec_lerp(a, b, proportion);
        assert(attributes == inner.attributes.zip(out.attributes, g));
    }
    Vertex {
        position: Vec4 { x: blended.x, y: blended.y, z: near_plane_z, w: blended.w },
        attributes,
    }
}

fn face(a: Vertex, b: Vertex, c: Vertex) -> (r: [Vertex; 3])
    ensures
        r == spec_face(a, b, c),
{
    let r = [a, b, c];
    assert(r =~= spec_face(a, b, c));
    r
}

fn clip_at(v0: Vertex, v1: Vertex, v2: Vertex, z: Fixed) -> (r: ([Vertex; 3], Option<[Vertex; 3]>))
    ensures
        r == spec_clip_at(spec_face(v0, v1, v2), z),
{
    if v0.position.z.raw > z.raw {
        if v1.position.z.raw > z.raw {
            let new_vertex1 = near_plane_clip_line(&v0, &v2, z);
            let new_vertex2 = near_plane_clip_line(&v1, &v2, z);
            (face(new_vertex1, new_vertex2, v2), None)
        } else if v2.position.z.raw > z.raw {
            let new_vertex1 = near_plane_clip_line(&v0, &v1, z);
            let new_vertex2 = near_plane_clip_line(&v2, &v1, z);
            (face(new_vertex1, v1, new_vertex2), None)
        } else {
            let new_vertex1 = near_plane_clip_line(&v0, &v1, z);
            let new_vertex2 = near_plane_clip_line(&v0, &v2, z);
            (face(v1, new_vertex2, new_vertex1), Some(face(v1, v2, new_vertex2)))
        }
    } else if v1.position.z.raw > z.raw {
        if v2.position.z.raw > z.raw {
            let new_vertex1 = near_plane_clip_line(&v1, &v0, z);
            let new_vertex2 = near_plane_clip_line(&v2, &v0, z);
            (face(v0, new_vertex1, new_vertex2), None)
        } else {
            let new_vertex1 = near_plane_clip_line(&v1, &v2, z);
            let new_vertex2 = near_plane_clip_line(&v1, &v0, z);
            (face(v0, new_vertex2, new_vertex1), Some(face(v0, new_vertex1, v2)))
        }
    } else {
        let new_vertex1 = near_plane_clip_line(&v2, &v0, z);
        let new_vertex2 = near_plane_clip_line(&v2, &v1, z);
        (face(v0, new_vertex2, new_vertex1), Some(face(v0, v1, new_vertex2)))
    }
}

/// Cuts the triangle at the near plane `z = -near`, for a triangle with a
/// vertex on either side of it.  A vertex with `z > -near` is cut off; two
/// triangles come back exactly where one vertex is cut off.
pub fn near_plane_clip(vertices: &[Vertex; 3], near: Fixed) -> (r: ([Vertex; 3], Option<
    [Vertex; 3],
>))
    requires
        1 <= count_above(*vertices, near.negated()) <= 2,
    ensures
        r == spec_near_plane_clip(*vertices, near),
        r.1 is Some <==> count_above(*vertices, near.negated()) == 1,
{
    assert(*vertices =~= spec_face(vertices[0], vertices[1], vertices[2]));
    clip_at(vertices[0], vertices[1], vertices[2], near.neg())
}

/// The cut of an edge lies on the plane.
pub proof fn lemma_cut_on_plane(out: Vertex, inner: Vertex, plane: Fixed)
    ensures
        spec_clip_line(out, inner, plane).position.z == plane,
        !is_above(spec_clip_line(out, inner, plane), plane),
{
    reveal(spec_clip_line);
}

/// What is left of a triangle that is cut at the near plane lies behind
/// the plane: none of its vertices has `z > -near`, so that it is never cut
/// again.
pub proof fn lemma_clipped_not_above(v: [Vertex; 3], near: Fixed)
    requires
        1 <= count_above(v, near.negated()) <= 2,
    ensures
        count_above(spec_near_plane_clip(v, near).0, near.negated()) == 0,
        spec_near_plane_clip(v, near).1 is Some ==> count_above(
            spec_near_plane_clip(v, near).1->Some_0,
            near.negated(),
        ) == 0,
{
    let z = near.negated();
    lemma_cut_on_plane(v[0], v[1], z);
    lemma_cut_on_plane(v[0], v[2], z);
    lemma_cut_on_plane(v[1], v[0], z);
    lemma_cut_on_plane(v[1], v[2], z);
    lemma_cut_on_plane(v[2], v[0], z);
    lemma_cut_on_plane(v[2], v[1], z);
}

/// The quadrilateral that is left of a triangle with one vertex cut off:
/// its corners in the order in which the triangle is wound, from the vertex
/// that both pieces of the cut share.
pub open spec fn spec_cut_quad(v: [Vertex; 3], z: Fixed) -> (Vertex, Vertex, Vertex, Vertex) {
    if is_above(v[0], z) {
        (v[1], v[2], spec_clip_line(v[0], v[2], z), spec_clip_line(v[0], v[1], z))
    } else if is_above(v[1], z) {
        (v[0], spec_clip_line(v[1], v[0], z), spec_clip_line(v[1], v[2], z), v[2])
    } else {
        (v[0], v[1], spec_clip_line(v[2], v[1], z), spec_clip_line(v[2], v[0], z))
    }
}

/// Whether `corner` is a vertex of the triangle that lies behind the plane,
/// or lies on the plane.
pub open spec fn is_kept_or_on_plane(corner: Vertex, v: [Vertex; 3], z: Fixed) -> bool {
    ||| corner.position.z == z
    ||| (corner == v[0] || corner == v[1] || corner == v[2]) && !is_above(corner, z)
}

/// Where one vertex is cut off, the two triangles that are left are the two
/// halves of a quadrilateral, parted along the diagonal from its first
/// corner to its third.  No corner lies in front of the plane: each is a
/// vertex of the triangle that is kept, or lies on the plane.
pub proof fn lemma_one_cut_leaves_a_quad(v: [Vertex; 3], near: Fixed)
    requires
        count_above(v, near.negated()) == 1,
    ensures
        ({
            let q = spec_cut_quad(v, near.negated());
            let cut = spec_near_plane_clip(v, near);
            let halves = (spec_face(q.0, q.1, q.2), spec_face(q.0, q.2, q.3));
            &&& cut.1 is Some
            &&& (cut.0 == halves.0 && cut.1->Some_0 == halves.1) || (cut.0 == halves.1
                && cut.1->Some_0 == halves.0)
            &&& !is_above(q.0, near.negated()) && !is_above(q.1, near.negated())
            &&& !is_above(q.2, near.negated()) && !is_above(q.3, near.negated())
            &&& is_kept_or_on_plane(q.0, v, near.negated())
            &&& is_kept_or_on_plane(q.1, v, near.negated())
            &&& is_kept_or_on_plane(q.2, v, near.negated())
            &&& is_kept_or_on_plane(q.3, v, near.negated())
        }),
{
    let z = near.negated();
    lemma_cut_on_plane(v[0], v[1], z);
    lemma_cut_on_plane(v[0], v[2], z);
    lemma_cut_on_plane(v[1], v[0], z);
    lemma_cut_on_plane(v[1], v[2], z);
    lemma_cut_on_plane(v[2], v[0], z);
    lemma_cut_on_plane(v[2], v[1], z);
}

} // verus!
