//! Clipping of a segment against an axis-aligned rectangle, after Cohen and
//! Sutherland.
//!
//! Each end of the segment gets an outcode that says on which sides of the
//! rectangle it lies.  While one end is outside, and the two ends do not lie
//! beyond the same side, the end with the larger outcode is moved along the
//! segment onto the side that its highest bit names.
use crate::fixed::{lemma_product_bound, sat, saturate_i128, trunc_div, trunc_div_i128, Fixed};
use crate::math::vector::Vec2;
use vstd::prelude::*;

verus! {

/// Outcode of a point inside the rectangle.
pub const INSIDE: u8 = 0;

/// Outcode bit of a point left of the rectangle.
pub const LEFT: u8 = 1;

/// Outcode bit of a point right of the rectangle.
pub const RIGHT: u8 = 2;

/// Outcode bit of a point whose `y` is below the smallest `y` of the rectangle.
pub const BOTTOM: u8 = 4;

/// Outcode bit of a point whose `y` is above the largest `y` of the rectangle.
pub const TOP: u8 = 8;

/// The horizontal part of an outcode: 1 left of the rectangle, 2 right of it.
pub open spec fn horizontal_code(p: Vec2, min: Vec2, max: Vec2) -> int {
    if p.x@ < min.x@ {
        1
    } else if p.x@ > max.x@ {
        2
    } else {
        0
    }
}

/// The vertical part of an outcode: 4 before the rectangle, 8 beyond it.
pub open spec fn vertical_code(p: Vec2, min: Vec2, max: Vec2) -> int {
    if p.y@ < min.y@ {
        4
    } else if p.y@ > max.y@ {
        8
    } else {
        0
    }
}

/// The outcode of `p`: the sum of its two parts, which share no bit.
pub open spec fn spec_outcode(p: Vec2, min: Vec2, max: Vec2) -> int {
    horizontal_code(p, min, max) + vertical_code(p, min, max)
}

/// Whether `p` lies in the rectangle, its border included.
pub open spec fn inside(p: Vec2, min: Vec2, max: Vec2) -> bool {
    min.x@ <= p.x@ <= max.x@ && min.y@ <= p.y@ <= max.y@
}

/// Whether the two points lie beyond the same side of the rectangle, that
/// is, whether their outcodes share a bit.
pub open spec fn share_outside(p1: Vec2, p2: Vec2, min: Vec2, max: Vec2) -> bool {
    ||| (horizontal_code(p1, min, max) != 0 && horizontal_code(p1, min, max) == horizontal_code(
        p2,
        min,
        max,
    ))
    ||| (vertical_code(p1, min, max) != 0 && vertical_code(p1, min, max) == vertical_code(
        p2,
        min,
        max,
    ))
}

/// Where the line through `(a1, c1)` and `(a2, c2)` meets `c = bound`: the
/// raw `a` there, `a1 + (a2 - a1) * (bound - c1) / (c2 - c1)`, with the exact
/// product divided once and rounded toward zero.  For `c1 == c2` it is `a1`.
pub open spec fn cross_at_raw(a1: int, a2: int, c1: int, c2: int, bound: int) -> int {
    sat(a1 + trunc_div((a2 - a1) * (bound - c1), c2 - c1))
}

/// Where the segment from `pt1` to `pt2` meets the side of the rectangle
/// that the highest bit of `outcode` names.
pub open spec fn clip_point(pt1: Vec2, pt2: Vec2, min: Vec2, max: Vec2, outcode: int) -> Vec2 {
    if outcode >= 8 {
        Vec2 { x: Fixed::of_raw(cross_at_raw(pt1.x@, pt2.x@, pt1.y@, pt2.y@, max.y@)), y: max.y }
    } else if outcode >= 4 {
        Vec2 { x: Fixed::of_raw(cross_at_raw(pt1.x@, pt2.x@, pt1.y@, pt2.y@, min.y@)), y: min.y }
    } else if outcode >= 2 {
        Vec2 { x: max.x, y: Fixed::of_raw(cross_at_raw(pt1.y@, pt2.y@, pt1.x@, pt2.x@, max.x@)) }
    } else {
        Vec2 { x: min.x, y: Fixed::of_raw(cross_at_raw(pt1.y@, pt2.y@, pt1.x@, pt2.x@, min.x@)) }
    }
}

/// Distance between two raw values.
pub open spec fn gap(a: int, b: int) -> int {
    if a <= b {
        b - a
    } else {
        a - b
    }
}

/// Sum of the horizontal and the vertical distance of two points, in raw units.
pub open spec fn span(p1: Vec2, p2: Vec2) -> int {
    gap(p1.x@, p2.x@) + gap(p1.y@, p2.y@)
}

/// The larger of the two outcodes: the end with it is moved next.
pub open spec fn chosen_code(pt1: Vec2, pt2: Vec2, min: Vec2, max: Vec2) -> int {
    if spec_outcode(pt2, min, max) > spec_outcode(pt1, min, max) {
        spec_outcode(pt2, min, max)
    } else {
        spec_outcode(pt1, min, max)
    }
}

/// Whether the rectangle holds no point at all.
pub open spec fn is_empty_rect(min: Vec2, max: Vec2) -> bool {
    min.x@ > max.x@ || min.y@ > max.y@
}

/// The part of the segment from `pt1` to `pt2` that the algorithm keeps.
/// Nothing is kept in a rectangle that holds no point.
pub open spec fn spec_clip(pt1: Vec2, pt2: Vec2, min: Vec2, max: Vec2) -> Option<(Vec2, Vec2)>
    decreases span(pt1, pt2),
{
    if is_empty_rect(min, max) || share_outside(pt1, pt2, min, max) {
        None
    } else if spec_outcode(pt1, min, max) == 0 && spec_outcode(pt2, min, max) == 0 {
        Some((pt1, pt2))
    } else {
        let outcode = chosen_code(pt1, pt2, min, max);
        let p = clip_point(pt1, pt2, min, max, outcode);
        proof {
            lemma_clip_step(pt1, pt2, min, max);
        }
        if outcode == spec_outcode(pt1, min, max) {
            spec_clip(p, pt2, min, max)
        } else {
            spec_clip(pt1, p, min, max)
        }
    }
}

/// Between two different levels `c1` and `c2` that enclose `bound`, the
/// crossing lies between `a1` and `a2`.
pub proof fn lemma_cross_between(a1: int, a2: int, c1: int, c2: int, bound: int)
    requires
        -2147483648 <= a1 <= 2147483647,
        -2147483648 <= a2 <= 2147483647,
        c1 != c2,
        c1 <= bound <= c2 || c2 <= bound <= c1,
    ensures
        a1 <= a2 ==> a1 <= cross_at_raw(a1, a2, c1, c2, bound) <= a2,
        a2 <= a1 ==> a2 <= cross_at_raw(a1, a2, c1, c2, bound) <= a1,
{
    let d = a2 - a1;
    let n = bound - c1;
    let m = c2 - c1;
    let an = if n < 0 { -n } else { n };
    let am = if m < 0 { -m } else { m };
    let ad = if d < 0 { -d } else { d };
    assert(0 <= an <= am && am > 0);
    assert(0 <= ad * an <= ad * am) by (nonlinear_arith)
        requires
            0 <= an <= am,
            0 <= ad,
    ;
    assert(0 <= (ad * an) / am <= ad) by (nonlinear_arith)
        requires
            0 <= ad * an <= ad * am,
            am > 0,
    ;
    // the product has the sign of `d`, because `n` and `m` agree in sign
    if m > 0 {
        assert(n >= 0);
        if d >= 0 {
            assert(d * n == ad * an);
            assert(d * n >= 0);
        } else {
            assert(d * n == -(ad * an)) by (nonlinear_arith)
                requires
                    ad == -d,
                    an == n,
            ;
        }
    } else {
        assert(n <= 0);
        if d >= 0 {
            assert(d * n == -(ad * an)) by (nonlinear_arith)
                requires
                    ad == d,
                    an == -n,
            ;
        } else {
            assert(d * n == ad * an) by (nonlinear_arith)
                requires
                    ad == -d,
                    an == -n,
            ;
        }
    }
    let q = trunc_div(d * n, m);
    if d >= 0 {
        assert(q == (ad * an) / am);
    } else {
        assert(q == -((ad * an) / am));
    }
}

/// One step of the algorithm moves an end onto a side of the rectangle and
/// brings the two ends closer together.
pub proof fn lemma_clip_step(pt1: Vec2, pt2: Vec2, min: Vec2, max: Vec2)
    requires
        !is_empty_rect(min, max),
        !share_outside(pt1, pt2, min, max),
        spec_outcode(pt1, min, max) != 0 || spec_outcode(pt2, min, max) != 0,
    ensures
        ({
            let outcode = chosen_code(pt1, pt2, min, max);
            let p = clip_point(pt1, pt2, min, max, outcode);
            if outcode == spec_outcode(pt1, min, max) {
                span(p, pt2) < span(pt1, pt2) && within_box(p, pt1, pt2)
            } else {
                span(pt1, p) < span(pt1, pt2) && within_box(p, pt1, pt2)
            }
        }),
{
    let outcode = chosen_code(pt1, pt2, min, max);
    if outcode >= 8 {
        lemma_cross_between(pt1.x@, pt2.x@, pt1.y@, pt2.y@, max.y@);
    } else if outcode >= 4 {
        lemma_cross_between(pt1.x@, pt2.x@, pt1.y@, pt2.y@, min.y@);
    } else if outcode >= 2 {
        lemma_cross_between(pt1.y@, pt2.y@, pt1.x@, pt2.x@, max.x@);
    } else {
        lemma_cross_between(pt1.y@, pt2.y@, pt1.x@, pt2.x@, min.x@);
    }
}

/// Whether `p` lies in the smallest axis-aligned box that holds `a` and `b`.
pub open spec fn within_box(p: Vec2, a: Vec2, b: Vec2) -> bool {
    &&& (a.x@ <= p.x@ <= b.x@ || b.x@ <= p.x@ <= a.x@)
    &&& (a.y@ <= p.y@ <= b.y@ || b.y@ <= p.y@ <= a.y@)
}

/// What the algorithm keeps of a segment lies in the rectangle and in the
/// box of the segment's two ends.
pub proof fn lemma_clip_result_inside(pt1: Vec2, pt2: Vec2, min: Vec2, max: Vec2)
    ensures
        spec_clip(pt1, pt2, min, max) is Some ==> {
            let (q1, q2) = spec_clip(pt1, pt2, min, max)->Some_0;
            &&& inside(q1, min, max)
            &&& inside(q2, min, max)
            &&& within_box(q1, pt1, pt2)
            &&& within_box(q2, pt1, pt2)
        },
    decreases span(pt1, pt2),
{
    if is_empty_rect(min, max) || share_outside(pt1, pt2, min, max) {
    } else if spec_outcode(pt1, min, max) == 0 && spec_outcode(pt2, min, max) == 0 {
    } else {
        let outcode = chosen_code(pt1, pt2, min, max);
        let p = clip_point(pt1, pt2, min, max, outcode);
        lemma_clip_step(pt1, pt2, min, max);
        if outcode == spec_outcode(pt1, min, max) {
            lemma_clip_result_inside(p, pt2, min, max);
        } else {
            lemma_clip_result_inside(pt1, p, min, max);
        }
    }
}

/// A segment whose two ends lie in the rectangle is kept as it is, and one
/// whose ends lie beyond the same side is dropped.
pub proof fn lemma_clip_trivial(p1: Vec2, p2: Vec2, min: Vec2, max: Vec2)
    ensures
        inside(p1, min, max) && inside(p2, min, max) ==> spec_clip(p1, p2, min, max) == Some(
            (p1, p2),
        ),
        share_outside(p1, p2, min, max) ==> spec_clip(p1, p2, min, max) is None,
{
}

/// Clipping what was kept changes nothing.
pub proof fn lemma_clip_idempotent(p1: Vec2, p2: Vec2, min: Vec2, max: Vec2)
    ensures
        spec_clip(p1, p2, min, max) is Some ==> {
            let (q1, q2) = spec_clip(p1, p2, min, max)->Some_0;
            spec_clip(q1, q2, min, max) == Some((q1, q2))
        },
{
    lemma_clip_result_inside(p1, p2, min, max);
    if spec_clip(p1, p2, min, max) is Some {
        let (q1, q2) = spec_clip(p1, p2, min, max)->Some_0;
        lemma_clip_trivial(q1, q2, min, max);
    }
}

/// The outcode of `p` for the rectangle from `min` to `max`.
pub fn compute_outcode(p: &Vec2, min: &Vec2, max: &Vec2) -> (r: u8)
    ensures
        r == spec_outcode(*p, *min, *max),
{
    let h: u8 = if p.x.raw < min.x.raw {
        LEFT
    } else if p.x.raw > max.x.raw {
        RIGHT
    } else {
        INSIDE
    };
    let v: u8 = if p.y.raw < min.y.raw {
        BOTTOM
    } else if p.y.raw > max.y.raw {
        TOP
    } else {
        INSIDE
    };
    assert(h | v == h + v) by (bit_vector)
        requires
            h == 0 || h == 1 || h == 2,
            v == 0 || v == 4 || v == 8,
    ;
    h | v
}

/// Where the line through `(a1, c1)` and `(a2, c2)` meets `c = bound`.
pub fn cross_at(a1: Fixed, a2: Fixed, c1: Fixed, c2: Fixed, bound: Fixed) -> (r: Fixed)
    ensures
        r@ == cross_at_raw(a1@, a2@, c1@, c2@, bound@),
{
    let d: i128 = a2.raw as i128 - a1.raw as i128;
    let n: i128 = bound.raw as i128 - c1.raw as i128;
    let m: i128 = c2.raw as i128 - c1.raw as i128;
    proof {
        lemma_product_bound(d as int, n as int, 0x1_0000_0000, 0x1_0000_0000);
    }
    let q: i128 = if m == 0 {
        0
    } else {
        let q = trunc_div_i128(d * n, m);
        proof {
            lemma_trunc_div_bound(d * n, m as int);
        }
        q
    };
    Fixed::from_raw(saturate_i128(a1.raw as i128 + q))
}

/// A quotient rounded toward zero is no larger in size than the dividend.
pub proof fn lemma_trunc_div_bound(n: int, d: int)
    requires
        d != 0,
    ensures
        n >= 0 ==> 0 <= trunc_div(n, d) <= n || -n <= trunc_div(n, d) <= 0,
        n < 0 ==> 0 <= trunc_div(n, d) <= -n || n <= trunc_div(n, d) <= 0,
{
    let an = if n < 0 { -n } else { n };
    let ad = if d < 0 { -d } else { d };
    assert(0 <= an / ad <= an) by (nonlinear_arith)
        requires
            an >= 0,
            ad > 0,
    ;
}

/// Clips the segment from `p1` to `p2` against the rectangle from
/// `rect_min` to `rect_max`.  A segment with both ends in the rectangle comes
/// back unchanged; one whose ends lie beyond the same side gives `None`, as
/// does every segment where the rectangle holds no point; of any other, what
/// comes back lies in the rectangle.
pub fn cohen_sutherland_line_clip(p1: &Vec2, p2: &Vec2, rect_min: &Vec2, rect_max: &Vec2) -> (r:
    Option<(Vec2, Vec2)>)
    ensures
        r == spec_clip(*p1, *p2, *rect_min, *rect_max),
        inside(*p1, *rect_min, *rect_max) && inside(*p2, *rect_min, *rect_max) ==> r == Some(
            (*p1, *p2),
        ),
        share_outside(*p1, *p2, *rect_min, *rect_max) ==> r is None,
        r is Some ==> {
            let (q1, q2) = r->Some_0;
            &&& inside(q1, *rect_min, *rect_max)
            &&& inside(q2, *rect_min, *rect_max)
            &&& within_box(q1, *p1, *p2)
            &&& within_box(q2, *p1, *p2)
        },
{
    let mut pt1 = *p1;
    let mut pt2 = *p2;
    let mut outcode1 = compute_outcode(&pt1, rect_min, rect_max);
    let mut outcode2 = compute_outcode(&pt2, rect_min, rect_max);
    proof {
        lemma_clip_trivial(*p1, *p2, *rect_min, *rect_max);
    }
    if rect_min.x.raw > rect_max.x.raw || rect_min.y.raw > rect_max.y.raw {
        return None;
    }
    loop
        invariant
            !is_empty_rect(*rect_min, *rect_max),
            outcode1 == spec_outcode(pt1, *rect_min, *rect_max),
            outcode2 == spec_outcode(pt2, *rect_min, *rect_max),
            spec_clip(pt1, pt2, *rect_min, *rect_max) == spec_clip(*p1, *p2, *rect_min, *rect_max),
        decreases span(pt1, pt2),
    {
        proof {
            lemma_codes(pt1, pt2, *rect_min, *rect_max, outcode1, outcode2);
            lemma_clip_result_inside(*p1, *p2, *rect_min, *rect_max);
        }
        if outcode1 & outcode2 != 0 {
            return None;
        } else if outcode1 | outcode2 == 0 {
            return Some((pt1, pt2));
        }
        let outcode = if outcode2 > outcode1 {
            outcode2
        } else {
            outcode1
        };
        proof {
            lemma_clip_step(pt1, pt2, *rect_min, *rect_max);
            lemma_bits(outcode);
        }
        let p = if outcode & TOP != 0 {
            Vec2 { x: cross_at(pt1.x, pt2.x, pt1.y, pt2.y, rect_max.y), y: rect_max.y }
        } else if outcode & BOTTOM != 0 {
            Vec2 { x: cross_at(pt1.x, pt2.x, pt1.y, pt2.y, rect_min.y), y: rect_min.y }
        } else if outcode & RIGHT != 0 {
            Vec2 { x: rect_max.x, y: cross_at(pt1.y, pt2.y, pt1.x, pt2.x, rect_max.x) }
        } else {
            Vec2 { x: rect_min.x, y: cross_at(pt1.y, pt2.y, pt1.x, pt2.x, rect_min.x) }
        };
        assert(p == clip_point(pt1, pt2, *rect_min, *rect_max, outcode as int));
        if outcode == outcode1 {
            pt1 = p;
            outcode1 = compute_outcode(&pt1, rect_min, rect_max);
        } else {
            pt2 = p;
            outcode2 = compute_outcode(&pt2, rect_min, rect_max);
        }
    }
}

/// How the bitwise tests on two outcodes read on the points.
proof fn lemma_codes(pt1: Vec2, pt2: Vec2, min: Vec2, max: Vec2, c1: u8, c2: u8)
    requires
        c1 == spec_outcode(pt1, min, max),
        c2 == spec_outcode(pt2, min, max),
    ensures
        (c1 & c2 != 0) == share_outside(pt1, pt2, min, max),
        (c1 | c2 == 0) == (c1 == 0 && c2 == 0),
{
    let h1 = horizontal_code(pt1, min, max) as u8;
    let v1 = vertical_code(pt1, min, max) as u8;
    let h2 = horizontal_code(pt2, min, max) as u8;
    let v2 = vertical_code(pt2, min, max) as u8;
    assert(h1 | v1 == h1 + v1 && h2 | v2 == h2 + v2) by (bit_vector)
        requires
            h1 == 0 || h1 == 1 || h1 == 2,
            v1 == 0 || v1 == 4 || v1 == 8,
            h2 == 0 || h2 == 1 || h2 == 2,
            v2 == 0 || v2 == 4 || v2 == 8,
    ;
    assert((((h1 | v1) & (h2 | v2)) != 0) == ((h1 != 0 && h1 == h2) || (v1 != 0 && v1 == v2)))
        by (bit_vector)
        requires
            h1 == 0 || h1 == 1 || h1 == 2,
            v1 == 0 || v1 == 4 || v1 == 8,
            h2 == 0 || h2 == 1 || h2 == 2,
            v2 == 0 || v2 == 4 || v2 == 8,
    ;
    assert((c1 | c2 == 0) == (c1 == 0 && c2 == 0)) by (bit_vector);
}

/// How the bitwise tests on one outcode read on its value.
proof fn lemma_bits(c: u8)
    requires
        c <= 10,
    ensures
        (c & 8 != 0) == (c >= 8),
        c < 8 ==> (c & 4 != 0) == (c >= 4),
        c < 4 ==> (c & 2 != 0) == (c >= 2),
{
    assert(c <= 10 ==> (c & 8 != 0) == (c >= 8)) by (bit_vector);
    assert(c < 8 ==> (c & 4 != 0) == (c >= 4)) by (bit_vector);
    assert(c < 4 ==> (c & 2 != 0) == (c >= 2)) by (bit_vector);
}

} // verus!
