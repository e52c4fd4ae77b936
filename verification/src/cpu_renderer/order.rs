//! The order in which fragments are drawn.
//!
//! A fill is a list of fragments, each of which goes through the depth
//! test.  Two fragments at different pixels, or at different depths, can be
//! drawn in either order; so two triangles whose fragments differ in depth
//! wherever they meet give the same frame in either order, and a triangle
//! leaves alone every pixel where a nearer fragment was drawn before.
use crate::cpu_renderer::fill::{
    advance, first_row, last_row, on_screen, prepared, row_number, spec_fill_triangle, spec_rows,
    spec_scanline, spec_trapezoid,
};
use crate::cpu_renderer::fragment::{fragment_attributes, fragment_depth, Frame};
use crate::fixed::{trunc_raw, Fixed};
use crate::image::{byte_index, cell_index, lemma_index_in_range};
use crate::math::vector::Vec4;
use crate::scanline::{spec_from_trapezoid, spec_from_triangle, Trapezoid};
use crate::shader::{Shader, Uniforms, Vertex};
use crate::texture::TextureStorage;
use vstd::prelude::*;

verus! {

/// A fragment: a pixel, a depth and a colour.
pub struct Fragment {
    pub x: int,
    pub y: int,
    pub z: Fixed,
    pub color: Vec4,
}

impl Frame {
    /// The frame after the fragment went through the depth test.
    pub open spec fn apply(self, fragment: Fragment) -> Frame {
        self.put_tested(fragment.x, fragment.y, fragment.z, fragment.color)
    }

    /// The frame after the fragments went through the depth test, one after
    /// the other.
    pub open spec fn apply_all(self, fragments: Seq<Fragment>) -> Frame
        decreases fragments.len(),
    {
        if fragments.len() == 0 {
            self
        } else {
            self.apply(fragments.first()).apply_all(fragments.drop_first())
        }
    }

    /// Whether the fragment lies on the frame.
    pub open spec fn holds(self, fragment: Fragment) -> bool {
        0 <= fragment.x < self.width && 0 <= fragment.y < self.height
    }

    /// Whether every one of the fragments lies on the frame.
    pub open spec fn holds_all(self, fragments: Seq<Fragment>) -> bool {
        forall|i: int| 0 <= i < fragments.len() ==> self.holds(#[trigger] fragments[i])
    }
}

/// Whether the two fragments lie at one pixel.
pub open spec fn same_pixel(p: Fragment, q: Fragment) -> bool {
    p.x == q.x && p.y == q.y
}

/// Whether the two fragments can be drawn in either order: they lie at
/// different pixels, or at different depths.
pub open spec fn independent(p: Fragment, q: Fragment) -> bool {
    !same_pixel(p, q) || p.z@ != q.z@
}

/// Whether every fragment of the one list is independent of every fragment
/// of the other.
pub open spec fn all_independent(a: Seq<Fragment>, b: Seq<Fragment>) -> bool {
    forall|i: int, j: int|
        0 <= i < a.len() && 0 <= j < b.len() ==> independent(#[trigger] a[i], #[trigger] b[j])
}

/// Different pixels of a frame have different places in its attachments.
pub proof fn lemma_pixels_apart(w: int, h: int, x1: int, y1: int, x2: int, y2: int)
    requires
        0 <= x1 < w,
        0 <= y1 < h,
        0 <= x2 < w,
        0 <= y2 < h,
        x1 != x2 || y1 != y2,
    ensures
        cell_index(w, x1, y1) != cell_index(w, x2, y2),
        byte_index(w, x1, y1) + 3 <= byte_index(w, x2, y2) || byte_index(w, x2, y2) + 3
            <= byte_index(w, x1, y1),
{
    if y1 < y2 {
        assert(y1 * w + w <= y2 * w) by (nonlinear_arith)
            requires
                y1 + 1 <= y2,
                0 <= w,
        ;
    } else if y2 < y1 {
        assert(y2 * w + w <= y1 * w) by (nonlinear_arith)
            requires
                y2 + 1 <= y1,
                0 <= w,
        ;
    }
}

/// A fragment on a well-formed frame leaves it well-formed and of its size.
pub proof fn lemma_apply_keeps_frame(frame: Frame, p: Fragment)
    requires
        frame.wf(),
        frame.holds(p),
    ensures
        frame.apply(p).wf(),
        frame.apply(p).width == frame.width,
        frame.apply(p).height == frame.height,
{
    lemma_index_in_range(frame.width, frame.height, p.x, p.y);
}

/// Fragments on a well-formed frame leave it well-formed and of its size.
pub proof fn lemma_apply_all_keeps_frame(frame: Frame, fragments: Seq<Fragment>)
    requires
        frame.wf(),
        frame.holds_all(fragments),
    ensures
        frame.apply_all(fragments).wf(),
        frame.apply_all(fragments).width == frame.width,
        frame.apply_all(fragments).height == frame.height,
    decreases fragments.len(),
{
    if fragments.len() > 0 {
        lemma_apply_keeps_frame(frame, fragments.first());
        let next = frame.apply(fragments.first());
        assert forall|i: int| 0 <= i < fragments.drop_first().len() implies next.holds(
            #[trigger] fragments.drop_first()[i],
        ) by {
            assert(fragments.drop_first()[i] == fragments[i + 1]);
        }
        lemma_apply_all_keeps_frame(next, fragments.drop_first());
    }
}

/// Drawing one list of fragments after another is drawing the two in a row.
pub proof fn lemma_apply_all_concat(frame: Frame, a: Seq<Fragment>, b: Seq<Fragment>)
    ensures
        frame.apply_all(a + b) == frame.apply_all(a).apply_all(b),
    decreases a.len(),
{
    if a.len() == 0 {
        assert(a + b =~= b);
    } else {
        assert((a + b).first() == a.first());
        assert((a + b).drop_first() =~= a.drop_first() + b);
        lemma_apply_all_concat(frame.apply(a.first()), a.drop_first(), b);
    }
}

/// Two independent fragments give the same frame in either order.
pub proof fn lemma_pair_in_either_order(frame: Frame, p: Fragment, q: Fragment)
    requires
        frame.wf(),
        frame.holds(p),
        frame.holds(q),
        independent(p, q),
    ensures
        frame.apply(p).apply(q) == frame.apply(q).apply(p),
{
    lemma_index_in_range(frame.width, frame.height, p.x, p.y);
    lemma_index_in_range(frame.width, frame.height, q.x, q.y);
    let pq = frame.apply(p).apply(q);
    let qp = frame.apply(q).apply(p);
    if !same_pixel(p, q) {
        lemma_pixels_apart(frame.width, frame.height, p.x, p.y, q.x, q.y);
    }
    assert(pq.color =~= qp.color);
    assert(pq.depth =~= qp.depth);
}

/// A fragment that is independent of every fragment of a list can be drawn
/// before the list or after it.
pub proof fn lemma_move_behind(frame: Frame, p: Fragment, b: Seq<Fragment>)
    requires
        frame.wf(),
        frame.holds(p),
        frame.holds_all(b),
        forall|j: int| 0 <= j < b.len() ==> independent(p, #[trigger] b[j]),
    ensures
        frame.apply(p).apply_all(b) == frame.apply_all(b).apply(p),
    decreases b.len(),
{
    if b.len() > 0 {
        let q = b.first();
        let rest = b.drop_first();
        assert(independent(p, b[0]));
        lemma_pair_in_either_order(frame, p, q);
        lemma_apply_keeps_frame(frame, q);
        assert forall|j: int| 0 <= j < rest.len() implies frame.apply(q).holds(
            #[trigger] rest[j],
        ) && independent(p, rest[j]) by {
            assert(rest[j] == b[j + 1]);
        }
        lemma_move_behind(frame.apply(q), p, rest);
    }
}

/// Two lists of fragments that are independent of each other give the same
/// frame in either order.
pub proof fn lemma_lists_in_either_order(frame: Frame, a: Seq<Fragment>, b: Seq<Fragment>)
    requires
        frame.wf(),
        frame.holds_all(a),
        frame.holds_all(b),
        all_independent(a, b),
    ensures
        frame.apply_all(a).apply_all(b) == frame.apply_all(b).apply_all(a),
    decreases a.len(),
{
    if a.len() > 0 {
        let p = a.first();
        let rest = a.drop_first();
        lemma_apply_keeps_frame(frame, p);
        let next = frame.apply(p);
        assert forall|i: int| 0 <= i < rest.len() implies next.holds(#[trigger] rest[i]) by {
            assert(rest[i] == a[i + 1]);
        }
        assert(next.holds_all(b));
        assert forall|i: int, j: int| 0 <= i < rest.len() && 0 <= j < b.len() implies independent(
            #[trigger] rest[i],
            #[trigger] b[j],
        ) by {
            assert(rest[i] == a[i + 1]);
        }
        lemma_lists_in_either_order(next, rest, b);
        assert forall|j: int| 0 <= j < b.len() implies independent(p, #[trigger] b[j]) by {
            assert(independent(a[0], b[j]));
        }
        lemma_move_behind(frame, p, b);
        lemma_apply_all_keeps_frame(frame, b);
    }
}

/// Drawing never lowers a stored depth.
pub proof fn lemma_depth_never_falls(frame: Frame, fragments: Seq<Fragment>, x: int, y: int)
    requires
        frame.wf(),
        frame.holds_all(fragments),
        0 <= x < frame.width,
        0 <= y < frame.height,
    ensures
        frame.apply_all(fragments).depth_at(x, y)@ >= frame.depth_at(x, y)@,
    decreases fragments.len(),
{
    if fragments.len() > 0 {
        let p = fragments.first();
        lemma_apply_keeps_frame(frame, p);
        lemma_index_in_range(frame.width, frame.height, p.x, p.y);
        lemma_index_in_range(frame.width, frame.height, x, y);
        if p.x != x || p.y != y {
            lemma_pixels_apart(frame.width, frame.height, p.x, p.y, x, y);
        }
        let next = frame.apply(p);
        assert(next.depth_at(x, y)@ >= frame.depth_at(x, y)@);
        assert forall|i: int| 0 <= i < fragments.drop_first().len() implies next.holds(
            #[trigger] fragments.drop_first()[i],
        ) by {
            assert(fragments.drop_first()[i] == fragments[i + 1]);
        }
        lemma_depth_never_falls(next, fragments.drop_first(), x, y);
    }
}

/// After a list of fragments is drawn, the depth stored at the pixel of
/// each of them is at least its own.
pub proof fn lemma_depth_covers(frame: Frame, fragments: Seq<Fragment>, i: int)
    requires
        frame.wf(),
        frame.holds_all(fragments),
        0 <= i < fragments.len(),
    ensures
        frame.apply_all(fragments).depth_at(fragments[i].x, fragments[i].y)@ >= fragments[i].z@,
    decreases fragments.len(),
{
    let p = fragments.first();
    let rest = fragments.drop_first();
    lemma_apply_keeps_frame(frame, p);
    let next = frame.apply(p);
    assert forall|k: int| 0 <= k < rest.len() implies next.holds(#[trigger] rest[k]) by {
        assert(rest[k] == fragments[k + 1]);
    }
    if i == 0 {
        lemma_index_in_range(frame.width, frame.height, p.x, p.y);
        assert(next.depth_at(p.x, p.y)@ >= p.z@);
        lemma_depth_never_falls(next, rest, p.x, p.y);
    } else {
        assert(rest[i - 1] == fragments[i]);
        lemma_depth_covers(next, rest, i - 1);
    }
}

/// Fragments that are farther, at a pixel, than what is stored there leave
/// the pixel and its depth as they are.
pub proof fn lemma_farther_leave_pixel(frame: Frame, fragments: Seq<Fragment>, x: int, y: int)
    requires
        frame.wf(),
        frame.holds_all(fragments),
        0 <= x < frame.width,
        0 <= y < frame.height,
        forall|j: int|
            0 <= j < fragments.len() && (#[trigger] fragments[j]).x == x && fragments[j].y == y
                ==> fragments[j].z@ < frame.depth_at(x, y)@,
    ensures
        frame.apply_all(fragments).pixel(x, y) == frame.pixel(x, y),
        frame.apply_all(fragments).depth_at(x, y) == frame.depth_at(x, y),
    decreases fragments.len(),
{
    if fragments.len() > 0 {
        let p = fragments.first();
        let rest = fragments.drop_first();
        lemma_apply_keeps_frame(frame, p);
        lemma_index_in_range(frame.width, frame.height, p.x, p.y);
        lemma_index_in_range(frame.width, frame.height, x, y);
        let next = frame.apply(p);
        if p.x != x || p.y != y {
            lemma_pixels_apart(frame.width, frame.height, p.x, p.y, x, y);
        } else {
            assert(fragments[0].z@ < frame.depth_at(x, y)@);
        }
        assert(next.pixel(x, y) == frame.pixel(x, y));
        assert(next.depth_at(x, y) == frame.depth_at(x, y));
        assert forall|k: int| 0 <= k < rest.len() implies next.holds(#[trigger] rest[k]) by {
            assert(rest[k] == fragments[k + 1]);
        }
        assert forall|j: int|
            0 <= j < rest.len() && (#[trigger] rest[j]).x == x && rest[j].y == y implies rest[j].z@
            < next.depth_at(x, y)@ by {
            assert(rest[j] == fragments[j + 1]);
        }
        lemma_farther_leave_pixel(next, rest, x, y);
    }
}

/// The fragment of `vertex` at the pixel `(x, y)`.
pub open spec fn fragment_of<S: Shader>(
    shader: S,
    uniforms: Uniforms,
    textures: TextureStorage,
    x: int,
    y: int,
    vertex: Vertex,
) -> Fragment {
    Fragment {
        x,
        y,
        z: fragment_depth(vertex),
        color: shader.pixel_shading(fragment_attributes(vertex), uniforms, textures),
    }
}

/// The fragments of the rest of a scanline on a screen `screen_width`
/// pixels wide, from left to right.
pub open spec fn scanline_fragments<S: Shader>(
    shader: S,
    uniforms: Uniforms,
    textures: TextureStorage,
    screen_width: int,
    vertex: Vertex,
    step: Vertex,
    width: Fixed,
    row: int,
) -> Seq<Fragment>
    decreases width@ + 65536,
{
    if width@ <= 0 {
        Seq::empty()
    } else {
        let rest = scanline_fragments(
            shader,
            uniforms,
            textures,
            screen_width,
            advance(vertex, step),
            step,
            width.minus(Fixed { raw: 65536 }),
            row,
        );
        if on_screen(vertex.position.x, screen_width) {
            seq![
                fragment_of(shader, uniforms, textures, trunc_raw(vertex.position.x@), row, vertex),
            ] + rest
        } else {
            rest
        }
    }
}

/// The fragments of the rows from `row` to `last` of a prepared trapezoid,
/// from the top.
pub open spec fn rows_fragments<S: Shader>(
    shader: S,
    uniforms: Uniforms,
    textures: TextureStorage,
    screen_width: int,
    trap: Trapezoid,
    row: int,
    last: int,
) -> Seq<Fragment>
    decreases last - row + 1,
{
    if row > last {
        Seq::empty()
    } else {
        let scanline = spec_from_trapezoid(trap, row_number(row));
        scanline_fragments(
            shader,
            uniforms,
            textures,
            screen_width,
            scanline.vertex,
            scanline.step,
            scanline.width,
            row,
        ) + rows_fragments(shader, uniforms, textures, screen_width, trap, row + 1, last)
    }
}

/// The fragments of a trapezoid on a screen of the given size.
pub open spec fn trapezoid_fragments<S: Shader>(
    shader: S,
    uniforms: Uniforms,
    textures: TextureStorage,
    screen_width: int,
    screen_height: int,
    trap: Trapezoid,
) -> Seq<Fragment> {
    rows_fragments(
        shader,
        uniforms,
        textures,
        screen_width,
        prepared(trap),
        first_row(trap),
        last_row(trap, screen_height),
    )
}

/// The fragments of a filled triangle on a screen of the given size, in the
/// order in which they are drawn.
#[verifier::opaque]
pub open spec fn triangle_fragments<S: Shader>(
    shader: S,
    uniforms: Uniforms,
    textures: TextureStorage,
    screen_width: int,
    screen_height: int,
    v: [Vertex; 3],
) -> Seq<Fragment> {
    let traps = spec_from_triangle(v);
    optional_fragments(shader, uniforms, textures, screen_width, screen_height, traps.0)
        + optional_fragments(shader, uniforms, textures, screen_width, screen_height, traps.1)
}

/// Drawing a scanline is drawing its fragments, and they lie on the frame.
pub proof fn lemma_scanline_is_fragments<S: Shader>(
    frame: Frame,
    shader: S,
    uniforms: Uniforms,
    textures: TextureStorage,
    vertex: Vertex,
    step: Vertex,
    width: Fixed,
    row: int,
)
    requires
        frame.wf(),
        0 <= row < frame.height,
    ensures
        spec_scanline(frame, shader, uniforms, textures, vertex, step, width, row)
            == frame.apply_all(
            scanline_fragments(shader, uniforms, textures, frame.width, vertex, step, width, row),
        ),
        frame.holds_all(
            scanline_fragments(shader, uniforms, textures, frame.width, vertex, step, width, row),
        ),
    decreases width@ + 65536,
{
    if width@ > 0 {
        let next_vertex = advance(vertex, step);
        let rest_width = width.minus(Fixed { raw: 65536 });
        let rest = scanline_fragments(
            shader,
            uniforms,
            textures,
            frame.width,
            next_vertex,
            step,
            rest_width,
            row,
        );
        let all = scanline_fragments(
            shader,
            uniforms,
            textures,
            frame.width,
            vertex,
            step,
            width,
            row,
        );
        if on_screen(vertex.position.x, frame.width) {
            let x = trunc_raw(vertex.position.x@);
            assert(0 <= x < frame.width) by {
                assert(vertex.position.x@ / 65536 < frame.width) by (nonlinear_arith)
                    requires
                        0 <= vertex.position.x@ < frame.width * 65536,
                ;
            }
            let p = fragment_of(shader, uniforms, textures, x, row, vertex);
            lemma_apply_keeps_frame(frame, p);
            let shaded = frame.apply(p);
            lemma_scanline_is_fragments(
                shaded,
                shader,
                uniforms,
                textures,
                next_vertex,
                step,
                rest_width,
                row,
            );
            assert(all == seq![p] + rest);
            assert(all.first() == p);
            assert(all.drop_first() =~= rest);
            assert forall|i: int| 0 <= i < all.len() implies frame.holds(#[trigger] all[i]) by {
                if i > 0 {
                    assert(all[i] == rest[i - 1]);
                    assert(shaded.holds(rest[i - 1]));
                }
            }
        } else {
            lemma_scanline_is_fragments(
                frame,
                shader,
                uniforms,
                textures,
                next_vertex,
                step,
                rest_width,
                row,
            );
        }
    }
}

/// Drawing the rows of a trapezoid is drawing their fragments, and they lie
/// on the frame.
pub proof fn lemma_rows_is_fragments<S: Shader>(
    frame: Frame,
    shader: S,
    uniforms: Uniforms,
    textures: TextureStorage,
    trap: Trapezoid,
    row: int,
    last: int,
)
    requires
        frame.wf(),
        0 <= row,
        last < frame.height,
    ensures
        spec_rows(frame, shader, uniforms, textures, trap, row, last) == frame.apply_all(
            rows_fragments(shader, uniforms, textures, frame.width, trap, row, last),
        ),
        frame.holds_all(rows_fragments(shader, uniforms, textures, frame.width, trap, row, last)),
    decreases last - row + 1,
{
    if row <= last {
        let scanline = spec_from_trapezoid(trap, row_number(row));
        let first = scanline_fragments(
            shader,
            uniforms,
            textures,
            frame.width,
            scanline.vertex,
            scanline.step,
            scanline.width,
            row,
        );
        let rest = rows_fragments(shader, uniforms, textures, frame.width, trap, row + 1, last);
        lemma_scanline_is_fragments(
            frame,
            shader,
            uniforms,
            textures,
            scanline.vertex,
            scanline.step,
            scanline.width,
            row,
        );
        lemma_apply_all_keeps_frame(frame, first);
        let after = frame.apply_all(first);
        lemma_rows_is_fragments(after, shader, uniforms, textures, trap, row + 1, last);
        lemma_apply_all_concat(frame, first, rest);
        assert forall|i: int| 0 <= i < (first + rest).len() implies frame.holds(
            #[trigger] (first + rest)[i],
        ) by {
            if i >= first.len() {
                assert((first + rest)[i] == rest[i - first.len()]);
                assert(after.holds(rest[i - first.len()]));
            } else {
                assert((first + rest)[i] == first[i]);
            }
        }
    }
}

/// The fragments of the trapezoid, if there is one.
pub open spec fn optional_fragments<S: Shader>(
    shader: S,
    uniforms: Uniforms,
    textures: TextureStorage,
    screen_width: int,
    screen_height: int,
    trap: Option<Trapezoid>,
) -> Seq<Fragment> {
    match trap {
        Some(trap) => trapezoid_fragments(
            shader,
            uniforms,
            textures,
            screen_width,
            screen_height,
            trap,
        ),
        None => Seq::empty(),
    }
}

/// The frame after the trapezoid, if there is one, is filled.
pub open spec fn spec_optional_trapezoid<S: Shader>(
    frame: Frame,
    shader: S,
    uniforms: Uniforms,
    textures: TextureStorage,
    trap: Option<Trapezoid>,
) -> Frame {
    match trap {
        Some(trap) => spec_trapezoid(frame, shader, uniforms, textures, trap),
        None => frame,
    }
}

/// Filling a trapezoid is drawing its fragments, and they lie on the frame.
pub proof fn lemma_trapezoid_is_fragments<S: Shader>(
    frame: Frame,
    shader: S,
    uniforms: Uniforms,
    textures: TextureStorage,
    trap: Option<Trapezoid>,
)
    requires
        frame.wf(),
    ensures
        spec_optional_trapezoid(frame, shader, uniforms, textures, trap) == frame.apply_all(
            optional_fragments(shader, uniforms, textures, frame.width, frame.height, trap),
        ),
        frame.holds_all(
            optional_fragments(shader, uniforms, textures, frame.width, frame.height, trap),
        ),
{
    match trap {
        Some(t) => {
            lemma_rows_is_fragments(
                frame,
                shader,
                uniforms,
                textures,
                prepared(t),
                first_row(t),
                last_row(t, frame.height),
            );
        },
        None => {},
    }
}

/// Filling two trapezoids, where there are any, is drawing their fragments,
/// and they lie on the frame.
pub proof fn lemma_trapezoids_are_fragments<S: Shader>(
    frame: Frame,
    shader: S,
    uniforms: Uniforms,
    textures: TextureStorage,
    upper: Option<Trapezoid>,
    lower: Option<Trapezoid>,
)
    requires
        frame.wf(),
    ensures
        ({
            let fragments = optional_fragments(
                shader,
                uniforms,
                textures,
                frame.width,
                frame.height,
                upper,
            ) + optional_fragments(shader, uniforms, textures, frame.width, frame.height, lower);
            &&& spec_optional_trapezoid(
                spec_optional_trapezoid(frame, shader, uniforms, textures, upper),
                shader,
                uniforms,
                textures,
                lower,
            ) == frame.apply_all(fragments)
            &&& frame.holds_all(fragments)
        }),
{
    let first = optional_fragments(shader, uniforms, textures, frame.width, frame.height, upper);
    let second = optional_fragments(shader, uniforms, textures, frame.width, frame.height, lower);
    lemma_trapezoid_is_fragments(frame, shader, uniforms, textures, upper);
    lemma_apply_all_keeps_frame(frame, first);
    let after = frame.apply_all(first);
    lemma_trapezoid_is_fragments(after, shader, uniforms, textures, lower);
    lemma_apply_all_concat(frame, first, second);
    assert forall|i: int| 0 <= i < (first + second).len() implies frame.holds(
        #[trigger] (first + second)[i],
    ) by {
        if i >= first.len() {
            assert((first + second)[i] == second[i - first.len()]);
            assert(after.holds(second[i - first.len()]));
        } else {
            assert((first + second)[i] == first[i]);
        }
    }
}

/// Filling a triangle is drawing its fragments, and they lie on the frame.
pub proof fn lemma_fill_is_fragments<S: Shader>(
    frame: Frame,
    shader: S,
    uniforms: Uniforms,
    textures: TextureStorage,
    v: [Vertex; 3],
)
    requires
        frame.wf(),
    ensures
        spec_fill_triangle(frame, shader, uniforms, textures, v) == frame.apply_all(
            triangle_fragments(shader, uniforms, textures, frame.width, frame.height, v),
        ),
        frame.holds_all(
            triangle_fragments(shader, uniforms, textures, frame.width, frame.height, v),
        ),
{
    reveal(triangle_fragments);
    let traps = spec_from_triangle(v);
    lemma_trapezoids_are_fragments(frame, shader, uniforms, textures, traps.0, traps.1);
}

/// Two triangles whose fragments differ in depth wherever they fall on one
/// pixel give the same frame in whichever order they are filled.
pub proof fn lemma_triangles_in_either_order<S: Shader>(
    frame: Frame,
    shader: S,
    uniforms: Uniforms,
    textures: TextureStorage,
    a: [Vertex; 3],
    b: [Vertex; 3],
)
    requires
        frame.wf(),
        all_independent(
            triangle_fragments(shader, uniforms, textures, frame.width, frame.height, a),
            triangle_fragments(shader, uniforms, textures, frame.width, frame.height, b),
        ),
    ensures
        spec_fill_triangle(
            spec_fill_triangle(frame, shader, uniforms, textures, a),
            shader,
            uniforms,
            textures,
            b,
        ) == spec_fill_triangle(
            spec_fill_triangle(frame, shader, uniforms, textures, b),
            shader,
            uniforms,
            textures,
            a,
        ),
{
    let of_a = triangle_fragments(shader, uniforms, textures, frame.width, frame.height, a);
    let of_b = triangle_fragments(shader, uniforms, textures, frame.width, frame.height, b);
    lemma_fill_is_fragments(frame, shader, uniforms, textures, a);
    lemma_fill_is_fragments(frame, shader, uniforms, textures, b);
    lemma_apply_all_keeps_frame(frame, of_a);
    lemma_apply_all_keeps_frame(frame, of_b);
    lemma_fill_is_fragments(frame.apply_all(of_a), shader, uniforms, textures, b);
    lemma_fill_is_fragments(frame.apply_all(of_b), shader, uniforms, textures, a);
    lemma_lists_in_either_order(frame, of_a, of_b);
}

/// Where a list of fragments that was drawn has a fragment, a list drawn
/// after it whose fragments there are all farther changes neither the pixel
/// nor its depth.
pub proof fn lemma_nearer_list_stays(frame: Frame, near: Seq<Fragment>, far: Seq<Fragment>, i: int)
    requires
        frame.wf(),
        frame.holds_all(near),
        frame.holds_all(far),
        0 <= i < near.len(),
        forall|j: int|
            0 <= j < far.len() && same_pixel(#[trigger] far[j], near[i]) ==> far[j].z@ < near[i].z@,
    ensures
        frame.apply_all(near).apply_all(far).pixel(near[i].x, near[i].y) == frame.apply_all(
            near,
        ).pixel(near[i].x, near[i].y),
        frame.apply_all(near).apply_all(far).depth_at(near[i].x, near[i].y) == frame.apply_all(
            near,
        ).depth_at(near[i].x, near[i].y),
{
    let p = near[i];
    lemma_apply_all_keeps_frame(frame, near);
    let first = frame.apply_all(near);
    lemma_depth_covers(frame, near, i);
    assert(frame.holds(near[i]));
    assert forall|j: int|
        0 <= j < far.len() && (#[trigger] far[j]).x == p.x && far[j].y == p.y implies far[j].z@
        < first.depth_at(p.x, p.y)@ by {
        assert(same_pixel(far[j], near[i]));
    }
    lemma_farther_leave_pixel(first, far, p.x, p.y);
}

/// Where a triangle that was filled has a fragment, a triangle filled after
/// it whose fragments there are all farther changes neither the pixel nor
/// its depth: the nearer triangle stays in front.
pub proof fn lemma_nearer_triangle_stays<S: Shader>(
    frame: Frame,
    shader: S,
    uniforms: Uniforms,
    textures: TextureStorage,
    near: [Vertex; 3],
    far: [Vertex; 3],
    i: int,
)
    requires
        frame.wf(),
        0 <= i < triangle_fragments(
            shader,
            uniforms,
            textures,
            frame.width,
            frame.height,
            near,
        ).len(),
        ({
            let of_near = triangle_fragments(
                shader,
                uniforms,
                textures,
                frame.width,
                frame.height,
                near,
            );
            let of_far = triangle_fragments(
                shader,
                uniforms,
                textures,
                frame.width,
                frame.height,
                far,
            );
            forall|j: int|
                0 <= j < of_far.len() && same_pixel(#[trigger] of_far[j], of_near[i])
                    ==> of_far[j].z@ < of_near[i].z@
        }),
    ensures
        ({
            let p = triangle_fragments(
                shader,
                uniforms,
                textures,
                frame.width,
                frame.height,
                near,
            )[i];
            let first = spec_fill_triangle(frame, shader, uniforms, textures, near);
            let second = spec_fill_triangle(first, shader, uniforms, textures, far);
            &&& second.pixel(p.x, p.y) == first.pixel(p.x, p.y)
            &&& second.depth_at(p.x, p.y) == first.depth_at(p.x, p.y)
        }),
{
    let of_near = triangle_fragments(shader, uniforms, textures, frame.width, frame.height, near);
    let of_far = triangle_fragments(shader, uniforms, textures, frame.width, frame.height, far);
    lemma_fill_is_fragments(frame, shader, uniforms, textures, near);
    lemma_apply_all_keeps_frame(frame, of_near);
    lemma_fill_is_fragments(frame.apply_all(of_near), shader, uniforms, textures, far);
    lemma_nearer_list_stays(frame, of_near, of_far, i);
}

} // verus!
