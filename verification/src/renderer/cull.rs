//! Face culling.
//!
//! The facing of a triangle is the sign of `n . view_dir`, where
//! `n = (p1 - p0) x (p2 - p1)`.  It is computed exactly, on the raw values,
//! so that no rounding can turn a face around.
use crate::fixed::lemma_product_bound;
use crate::math::vector::Vec3;
use vstd::prelude::*;

verus! {

/// Which faces are dropped.
#[derive(Clone, Copy, Debug, PartialEq, Eq, Structural)]
pub enum FaceCull {
    Front,
    Back,
    /// No face is dropped.
    Nothing,
}

/// Which winding marks the front of a face.
#[derive(Clone, Copy, Debug, PartialEq, Eq, Structural)]
pub enum FrontFace {
    CW,
    CCW,
}

/// `((p1 - p0) x (p2 - p1)) . view_dir` over the raw values: twice the signed
/// area of the triangle as seen along `view_dir`, times a positive scale.
#[verifier::opaque]
pub open spec fn facing(p0: Vec3, p1: Vec3, p2: Vec3, view_dir: Vec3) -> int {
    let ux = p1.x@ - p0.x@;
    let uy = p1.y@ - p0.y@;
    let uz = p1.z@ - p0.z@;
    let vx = p2.x@ - p1.x@;
    let vy = p2.y@ - p1.y@;
    let vz = p2.z@ - p1.z@;
    (uy * vz - uz * vy) * view_dir.x@ + (uz * vx - ux * vz) * view_dir.y@ + (ux * vy - uy * vx)
        * view_dir.z@
}

/// Whether the triangle shows its front.
pub open spec fn is_front_face(p0: Vec3, p1: Vec3, p2: Vec3, view_dir: Vec3, face: FrontFace) -> bool {
    match face {
        FrontFace::CW => facing(p0, p1, p2, view_dir) > 0,
        FrontFace::CCW => facing(p0, p1, p2, view_dir) <= 0,
    }
}

/// Whether the triangle is dropped.
pub open spec fn spec_should_cull(
    p0: Vec3,
    p1: Vec3,
    p2: Vec3,
    view_dir: Vec3,
    face: FrontFace,
    cull: FaceCull,
) -> bool {
    match cull {
        FaceCull::Front => is_front_face(p0, p1, p2, view_dir, face),
        FaceCull::Back => !is_front_face(p0, p1, p2, view_dir, face),
        FaceCull::Nothing => false,
    }
}

/// The exact difference of two raw values.
fn wide_diff(a: crate::fixed::Fixed, b: crate::fixed::Fixed) -> (d: i128)
    ensures
        d == a@ - b@,
        -0x1_0000_0000 <= d <= 0x1_0000_0000,
{
    a.raw as i128 - b.raw as i128
}

/// `a * d - b * c` for differences of raw values.
fn wide_det(a: i128, d: i128, b: i128, c: i128) -> (r: i128)
    requires
        -0x1_0000_0000 <= a <= 0x1_0000_0000,
        -0x1_0000_0000 <= b <= 0x1_0000_0000,
        -0x1_0000_0000 <= c <= 0x1_0000_0000,
        -0x1_0000_0000 <= d <= 0x1_0000_0000,
    ensures
        r == a * d - b * c,
        -0x2_0000_0000_0000_0000 <= r <= 0x2_0000_0000_0000_0000,
{
    proof {
        lemma_product_bound(a as int, d as int, 0x1_0000_0000, 0x1_0000_0000);
        lemma_product_bound(b as int, c as int, 0x1_0000_0000, 0x1_0000_0000);
    }
    a * d - b * c
}

/// `n * k` for a component of the normal and a raw value.
fn wide_scale(n: i128, k: crate::fixed::Fixed) -> (r: i128)
    requires
        -0x2_0000_0000_0000_0000 <= n <= 0x2_0000_0000_0000_0000,
    ensures
        r == n * k@,
        -0x1_0000_0000_0000_0000_0000_0000 <= r <= 0x1_0000_0000_0000_0000_0000_0000,
{
    proof {
        lemma_product_bound(n as int, k@, 0x2_0000_0000_0000_0000, 0x8000_0000);
    }
    n * (k.raw as i128)
}

/// Whether the triangle `positions` is dropped, for the viewing direction
/// `view_dir`, the winding `face` that marks the front, and the mode `cull`.
/// With clockwise fronts a face is a front iff `facing` is positive; with
/// counter-clockwise fronts iff it is not.
pub fn should_cull(positions: &[Vec3; 3], view_dir: &Vec3, face: FrontFace, cull: FaceCull) -> (r:
    bool)
    ensures
        r == spec_should_cull(positions[0], positions[1], positions[2], *view_dir, face, cull),
{
    let p0 = positions[0];
    let p1 = positions[1];
    let p2 = positions[2];
    proof {
        reveal(facing);
    }
    let ux = wide_diff(p1.x, p0.x);
    let uy = wide_diff(p1.y, p0.y);
    let uz = wide_diff(p1.z, p0.z);
    let vx = wide_diff(p2.x, p1.x);
    let vy = wide_diff(p2.y, p1.y);
    let vz = wide_diff(p2.z, p1.z);
    let nx = wide_det(uy, vz, uz, vy);
    let ny = wide_det(uz, vx, ux, vz);
    let nz = wide_det(ux, vy, uy, vx);
    let d: i128 = wide_scale(nx, view_dir.x) + wide_scale(ny, view_dir.y) + wide_scale(
        nz,
        view_dir.z,
    );
    let is_front = match face {
        FrontFace::CW => d > 0,
        FrontFace::CCW => d <= 0,
    };
    match cull {
        FaceCull::Front => is_front,
        FaceCull::Back => !is_front,
        FaceCull::Nothing => false,
    }
}

/// Exchanging two vertices of a triangle negates its facing.
pub proof fn lemma_swap_negates_facing(p0: Vec3, p1: Vec3, p2: Vec3, view_dir: Vec3)
    ensures
        facing(p1, p0, p2, view_dir) == -facing(p0, p1, p2, view_dir),
        facing(p0, p2, p1, view_dir) == -facing(p0, p1, p2, view_dir),
        facing(p2, p1, p0, view_dir) == -facing(p0, p1, p2, view_dir),
{
    reveal(facing);
    let (ax, ay, az) = (p0.x@, p0.y@, p0.z@);
    let (bx, by, bz) = (p1.x@, p1.y@, p1.z@);
    let (cx, cy, cz) = (p2.x@, p2.y@, p2.z@);
    let (wx, wy, wz) = (view_dir.x@, view_dir.y@, view_dir.z@);
    lemma_cross_of_swap(bx - ax, by - ay, cx - bx, cy - by, wz);
    lemma_cross_of_swap(by - ay, bz - az, cy - by, cz - bz, wx);
    lemma_cross_of_swap(bz - az, bx - ax, cz - bz, cx - bx, wy);
}

/// For edge vectors `u = p1 - p0` and `v = p2 - p1`, each of the three
/// exchanges of two vertices turns the component `u1 * v2 - u2 * v1` of the
/// normal, times any `w`, into its negative.
proof fn lemma_cross_of_swap(u1: int, u2: int, v1: int, v2: int, w: int)
    ensures
        ((-u1) * (u2 + v2) - (-u2) * (u1 + v1)) * w == -((u1 * v2 - u2 * v1) * w),
        ((u1 + v1) * (-v2) - (u2 + v2) * (-v1)) * w == -((u1 * v2 - u2 * v1) * w),
        ((-v1) * (-u2) - (-v2) * (-u1)) * w == -((u1 * v2 - u2 * v1) * w),
{
    assert(((-u1) * (u2 + v2) - (-u2) * (u1 + v1)) == -(u1 * v2 - u2 * v1)) by (nonlinear_arith);
    assert(((u1 + v1) * (-v2) - (u2 + v2) * (-v1)) == -(u1 * v2 - u2 * v1)) by (nonlinear_arith);
    assert(((-v1) * (-u2) - (-v2) * (-u1)) == -(u1 * v2 - u2 * v1)) by (nonlinear_arith);
    assert((-(u1 * v2 - u2 * v1)) * w == -((u1 * v2 - u2 * v1) * w)) by (nonlinear_arith);
}

/// Exchanging two vertices of a triangle turns the decision of
/// [`should_cull`] around, for either winding and for culling of fronts or
/// of backs, unless the triangle is seen edge-on (its facing is zero).
pub proof fn lemma_swap_flips_cull(
    p0: Vec3,
    p1: Vec3,
    p2: Vec3,
    view_dir: Vec3,
    face: FrontFace,
    cull: FaceCull,
)
    requires
        cull != FaceCull::Nothing,
        facing(p0, p1, p2, view_dir) != 0,
    ensures
        spec_should_cull(p1, p0, p2, view_dir, face, cull) == !spec_should_cull(
            p0,
            p1,
            p2,
            view_dir,
            face,
            cull,
        ),
        spec_should_cull(p0, p2, p1, view_dir, face, cull) == !spec_should_cull(
            p0,
            p1,
            p2,
            view_dir,
            face,
            cull,
        ),
        spec_should_cull(p2, p1, p0, view_dir, face, cull) == !spec_should_cull(
            p0,
            p1,
            p2,
            view_dir,
            face,
            cull,
        ),
{
    lemma_swap_negates_facing(p0, p1, p2, view_dir);
}

} // verus!
