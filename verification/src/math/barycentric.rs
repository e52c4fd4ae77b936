//! Barycentric coordinates of a point of the plane in a triangle.
//!
//! The three weights are ratios of edge functions.  The edge functions are
//! formed exactly, on the raw values, so whether a point lies in the
//! triangle is decided without rounding; only the weights are rounded.
use crate::fixed::{lemma_product_bound, sat, saturate_i128, trunc_div, trunc_div_i128, Fixed};
use crate::math::vector::Vec2;
use vstd::prelude::*;

verus! {

/// The edge function of `p` for the edge from `a` to `b`:
/// `(a - p) x (b - p)` on the raw values, twice the signed area of the
/// triangle `p`, `a`, `b`, times a positive scale.
pub open spec fn edge_raw(a: Vec2, b: Vec2, p: Vec2) -> int {
    (a.x@ - p.x@) * (b.y@ - p.y@) - (a.y@ - p.y@) * (b.x@ - p.x@)
}

/// Twice the signed area of the triangle, on the same scale as the edge
/// functions.
pub open spec fn area_raw(v: [Vec2; 3], p: Vec2) -> int {
    edge_raw(v[1], v[2], p) + edge_raw(v[2], v[0], p) + edge_raw(v[0], v[1], p)
}

/// The raw weight `w / area`, rounded toward zero; zero for a triangle
/// without area.
pub open spec fn weight_raw(w: int, area: int) -> int {
    sat(trunc_div(w * 65536, area))
}

/// Whether `p` lies in the triangle, its border included: the triangle has
/// an area, and none of the three edge functions has the opposite sign.
pub open spec fn in_triangle(v: [Vec2; 3], p: Vec2) -> bool {
    let area = area_raw(v, p);
    let a = edge_raw(v[1], v[2], p);
    let b = edge_raw(v[2], v[0], p);
    let c = edge_raw(v[0], v[1], p);
    ||| (area > 0 && a >= 0 && b >= 0 && c >= 0)
    ||| (area < 0 && a <= 0 && b <= 0 && c <= 0)
}

/// The barycentric coordinates of a point in a triangle.
#[derive(Clone, Copy, Debug)]
pub struct Barycentric {
    alpha: Fixed,
    beta: Fixed,
    gamma: Fixed,
    valid: bool,
}

fn edge(a: &Vec2, b: &Vec2, p: &Vec2) -> (r: i128)
    ensures
        r == edge_raw(*a, *b, *p),
        -0x2_0000_0000_0000_0000 <= r <= 0x2_0000_0000_0000_0000,
{
    let ax: i128 = a.x.raw as i128 - p.x.raw as i128;
    let ay: i128 = a.y.raw as i128 - p.y.raw as i128;
    let bx: i128 = b.x.raw as i128 - p.x.raw as i128;
    let by: i128 = b.y.raw as i128 - p.y.raw as i128;
    proof {
        lemma_product_bound(ax as int, by as int, 0x1_0000_0000, 0x1_0000_0000);
        lemma_product_bound(ay as int, bx as int, 0x1_0000_0000, 0x1_0000_0000);
    }
    ax * by - ay * bx
}

fn weight(w: i128, area: i128) -> (r: Fixed)
    requires
        -0x2_0000_0000_0000_0000 <= w <= 0x2_0000_0000_0000_0000,
        -0x8_0000_0000_0000_0000 <= area <= 0x8_0000_0000_0000_0000,
    ensures
        r@ == weight_raw(w as int, area as int),
{
    if area == 0 {
        Fixed::zero()
    } else {
        Fixed::from_raw(saturate_i128(trunc_div_i128(w * 65536, area)))
    }
}

impl Barycentric {
    /// The weight of the first vertex.
    pub closed spec fn spec_alpha(&self) -> Fixed {
        self.alpha
    }

    /// The weight of the second vertex.
    pub closed spec fn spec_beta(&self) -> Fixed {
        self.beta
    }

    /// The weight of the third vertex.
    pub closed spec fn spec_gamma(&self) -> Fixed {
        self.gamma
    }

    /// Whether the point lies in the triangle.
    pub closed spec fn spec_valid(&self) -> bool {
        self.valid
    }

    /// The coordinates of `p` in the triangle `vertices`: the weight of a
    /// vertex is the edge function of the opposite edge over the sum of the
    /// three.
    pub fn new(p: &Vec2, vertices: &[Vec2; 3]) -> (r: Barycentric)
        ensures
            r.spec_alpha()@ == weight_raw(
                edge_raw(vertices[1], vertices[2], *p),
                area_raw(*vertices, *p),
            ),
            r.spec_beta()@ == weight_raw(
                edge_raw(vertices[2], vertices[0], *p),
                area_raw(*vertices, *p),
            ),
            r.spec_gamma()@ == weight_raw(
                edge_raw(vertices[0], vertices[1], *p),
                area_raw(*vertices, *p),
            ),
            r.spec_valid() == in_triangle(*vertices, *p),
    {
        let a = edge(&vertices[1], &vertices[2], p);
        let b = edge(&vertices[2], &vertices[0], p);
        let c = edge(&vertices[0], &vertices[1], p);
        let area: i128 = a + b + c;
        Barycentric {
            alpha: weight(a, area),
            beta: weight(b, area),
            gamma: weight(c, area),
            valid: (area > 0 && a >= 0 && b >= 0 && c >= 0) || (area < 0 && a <= 0 && b <= 0 && c
                <= 0),
        }
    }

    /// Whether the point lies in the triangle, that is, whether none of its
    /// weights is negative.  In a triangle without area no point lies.
    pub fn is_valid(&self) -> (r: bool)
        ensures
            r == self.spec_valid(),
    {
        self.valid
    }

    pub fn alpha(&self) -> (r: Fixed)
        ensures
            r == self.spec_alpha(),
    {
        self.alpha
    }

    pub fn beta(&self) -> (r: Fixed)
        ensures
            r == self.spec_beta(),
    {
        self.beta
    }

    pub fn gamma(&self) -> (r: Fixed)
        ensures
            r == self.spec_gamma(),
    {
        self.gamma
    }
}

} // verus!
