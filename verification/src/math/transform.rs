//! Builders of the usual affine transforms, and a few helpers on vectors.
use crate::fixed::Fixed;
use crate::math::matrix::Mat4;
use crate::math::trig::{spec_cos, spec_sin};
use crate::math::vector::Vec3;
use std::ops::Neg;
use vstd::prelude::*;

verus! {

/// `a + (b - a) * t`.
pub open spec fn spec_lerp(a: Fixed, b: Fixed, t: Fixed) -> Fixed {
    a.plus(b.minus(a).times(t))
}

/// Linear blend of two numbers: `a` at `t = 0`, `b` at `t = 1`.
pub fn lerp(a: Fixed, b: Fixed, t: Fixed) -> (r: Fixed)
    ensures
        r == spec_lerp(a, b, t),
{
    a + (b - a) * t
}

/// For a parameter between zero and one the blend lies between its two ends.
pub proof fn lemma_lerp_between(a: Fixed, b: Fixed, t: Fixed)
    requires
        0 <= t@ <= 65536,
    ensures
        a@ <= b@ ==> a@ <= spec_lerp(a, b, t)@ <= b@,
        b@ <= a@ ==> b@ <= spec_lerp(a, b, t)@ <= a@,
{
    let d = b.minus(a)@;
    let p = d * t@;
    if a@ <= b@ {
        assert(0 <= d <= b@ - a@);
        assert(0 <= p <= d * 65536) by (nonlinear_arith)
            requires
                0 <= d,
                0 <= t@ <= 65536,
                p == d * t@,
        ;
        assert(0 <= p / 65536 <= d) by (nonlinear_arith)
            requires
                0 <= p <= d * 65536,
        ;
    } else {
        assert(a@ - b@ >= -d >= 0);
        assert(0 <= -p <= (-d) * 65536) by (nonlinear_arith)
            requires
                0 <= -d,
                0 <= t@ <= 65536,
                p == d * t@,
        ;
        assert(0 <= (-p) / 65536 <= -d) by (nonlinear_arith)
            requires
                0 <= -p <= (-d) * 65536,
        ;
    }
}

/// The mirror image of `v` about the direction `normal`:
/// `2 * (v . normal) * normal - v`.
pub open spec fn spec_reflect(v: Vec3, normal: Vec3) -> Vec3 {
    normal.scaled(Fixed { raw: 131072 }.times(v.spec_dot(normal))).minus(v)
}

pub fn reflect(v: &Vec3, normal: &Vec3) -> (r: Vec3)
    ensures
        r == spec_reflect(*v, *normal),
{
    Fixed::from_raw(131072) * v.dot(normal) * *normal - *v
}

/// The matrix that moves a point by `offset`.
pub open spec fn spec_translate(offset: Vec3) -> Mat4 {
    let o = Fixed { raw: 65536 };
    let z = Fixed { raw: 0 };
    Mat4 { data: [o, z, z, offset.x, z, o, z, offset.y, z, z, o, offset.z, z, z, z, o] }
}

pub fn create_translate(offset: &Vec3) -> (r: Mat4)
    ensures
        r == spec_translate(*offset),
{
    let o = Fixed::one();
    let z = Fixed::zero();
    let r = Mat4 { data: [o, z, z, offset.x, z, o, z, offset.y, z, z, o, offset.z, z, z, z, o] };
    assert(r.data =~= spec_translate(*offset).data);
    r
}

/// The matrix that scales each axis by the matching component of `scale`.
pub open spec fn spec_scale(scale: Vec3) -> Mat4 {
    let o = Fixed { raw: 65536 };
    let z = Fixed { raw: 0 };
    Mat4 { data: [scale.x, z, z, z, z, scale.y, z, z, z, z, scale.z, z, z, z, z, o] }
}

pub fn create_scale(scale: &Vec3) -> (r: Mat4)
    ensures
        r == spec_scale(*scale),
{
    let o = Fixed::one();
    let z = Fixed::zero();
    let r = Mat4 { data: [scale.x, z, z, z, z, scale.y, z, z, z, z, scale.z, z, z, z, z, o] };
    assert(r.data =~= spec_scale(*scale).data);
    r
}

/// Rotation about the x axis by `angle`, right-handed.
pub open spec fn spec_rotate_x(angle: Fixed) -> Mat4 {
    let c = spec_cos(angle);
    let s = spec_sin(angle);
    let o = Fixed { raw: 65536 };
    let z = Fixed { raw: 0 };
    Mat4 { data: [o, z, z, z, z, c, s.negated(), z, z, s, c, z, z, z, z, o] }
}

/// Rotation about the y axis by `angle`, right-handed.
pub open spec fn spec_rotate_y(angle: Fixed) -> Mat4 {
    let c = spec_cos(angle);
    let s = spec_sin(angle);
    let o = Fixed { raw: 65536 };
    let z = Fixed { raw: 0 };
    Mat4 { data: [c, z, s, z, z, o, z, z, s.negated(), z, c, z, z, z, z, o] }
}

/// Rotation about the z axis by `angle`, right-handed.
pub open spec fn spec_rotate_z(angle: Fixed) -> Mat4 {
    let c = spec_cos(angle);
    let s = spec_sin(angle);
    let o = Fixed { raw: 65536 };
    let z = Fixed { raw: 0 };
    Mat4 { data: [c, s.negated(), z, z, s, c, z, z, z, z, o, z, z, z, z, o] }
}

/// Rotation about x, then y, then z: `Rz * Ry * Rx`.
pub open spec fn spec_rotate_xyz(rotation: Vec3) -> Mat4 {
    spec_rotate_z(rotation.z).times(spec_rotate_y(rotation.y)).times(spec_rotate_x(rotation.x))
}

pub fn create_eular_rotate_x(angle: Fixed) -> (r: Mat4)
    ensures
        r == spec_rotate_x(angle),
{
    let c = angle.cos();
    let s = angle.sin();
    let o = Fixed::one();
    let z = Fixed::zero();
    let r = Mat4 { data: [o, z, z, z, z, c, s.neg(), z, z, s, c, z, z, z, z, o] };
    assert(r.data =~= spec_rotate_x(angle).data);
    r
}

pub fn create_eular_rotate_y(angle: Fixed) -> (r: Mat4)
    ensures
        r == spec_rotate_y(angle),
{
    let c = angle.cos();
    let s = angle.sin();
    let o = Fixed::one();
    let z = Fixed::zero();
    let r = Mat4 { data: [c, z, s, z, z, o, z, z, s.neg(), z, c, z, z, z, z, o] };
    assert(r.data =~= spec_rotate_y(angle).data);
    r
}

pub fn create_eular_rotate_z(angle: Fixed) -> (r: Mat4)
    ensures
        r == spec_rotate_z(angle),
{
    let c = angle.cos();
    let s = angle.sin();
    let o = Fixed::one();
    let z = Fixed::zero();
    let r = Mat4 { data: [c, s.neg(), z, z, s, c, z, z, z, z, o, z, z, z, z, o] };
    assert(r.data =~= spec_rotate_z(angle).data);
    r
}

pub fn create_eular_rotate_xyz(rotation: &Vec3) -> (r: Mat4)
    ensures
        r == spec_rotate_xyz(*rotation),
{
    create_eular_rotate_z(rotation.z) * create_eular_rotate_y(rotation.y) * create_eular_rotate_x(
        rotation.x,
    )
}

/// Rodrigues' formula for `v` turned by `rotation` about the unit vector
/// `axis`: `cos * v + (axis . v) * axis * (1 - cos) + sin * (axis x v)`.
pub open spec fn spec_rodrigues(rotation: Fixed, v: Vec3, axis: Vec3) -> Vec3 {
    let c = spec_cos(rotation);
    let s = spec_sin(rotation);
    v.scaled(c).plus(axis.scaled(axis.spec_dot(v)).scaled(Fixed { raw: 65536 }.minus(c))).plus(
        axis.spec_cross(v).scaled(s),
    )
}

/// `axis` is expected to have length one.
pub fn rotate_by_axis_rodrigues(rotation: Fixed, v: &Vec3, axis: &Vec3) -> (r: Vec3)
    ensures
        r == spec_rodrigues(rotation, *v, *axis),
{
    let c = rotation.cos();
    let s = rotation.sin();
    c * *v + axis.dot(v) * *axis * (Fixed::one() - c) + s * axis.cross(v)
}

} // verus!
