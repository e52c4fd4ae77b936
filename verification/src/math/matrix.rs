//! Square matrices of two, three and four dimensions, stored row by row.
//!
//! `get(x, y)` is the entry in column `x` of row `y`.  A product entry is an
//! exact sum of products, rounded once.  A matrix whose determinant rounds to
//! zero has no inverse.
use crate::fixed::{
    det2, dot2, dot3, dot4, lemma_product_bound, sat, saturate_i128, spec_det2, spec_dot2, spec_dot3,
    spec_dot4, trunc_div, trunc_div_i128, Fixed,
};
use crate::math::vector::{Vec2, Vec3, Vec4};
use std::ops::Neg;
use vstd::prelude::*;

verus! {

/// A two by two matrix; `data[x + y * 2]` is the entry in column `x` of row `y`.
#[derive(Clone, Copy, Debug)]
pub struct Mat2 {
    pub data: [Fixed; 4],
}

impl Mat2 {
    /// The entry in column `x` of row `y`.
    pub open spec fn spec_get(self, x: int, y: int) -> Fixed {
        self.data[x + y * 2]
    }

    /// The matrix of zeros.
    pub open spec fn spec_zeros() -> Mat2 {
        Mat2 { data: [
            Fixed { raw: 0 }, Fixed { raw: 0 },
            Fixed { raw: 0 }, Fixed { raw: 0 },
        ] }
    }

    /// The matrix of ones.
    pub open spec fn spec_ones() -> Mat2 {
        Mat2 { data: [
            Fixed { raw: 65536 }, Fixed { raw: 65536 },
            Fixed { raw: 65536 }, Fixed { raw: 65536 },
        ] }
    }

    /// The identity matrix.
    pub open spec fn spec_identity() -> Mat2 {
        Mat2 { data: [
            Fixed { raw: 65536 }, Fixed { raw: 0 },
            Fixed { raw: 0 }, Fixed { raw: 65536 },
        ] }
    }

    /// Rows and columns exchanged.
    pub open spec fn spec_transpose(self) -> Mat2 {
        Mat2 { data: [
            self.data[0], self.data[2],
            self.data[1], self.data[3],
        ] }
    }

    /// The matrix whose columns are the rows of `data`.
    pub open spec fn spec_from_col(data: [Fixed; 4]) -> Mat2 {
        Mat2 { data: [
            data[0], data[2],
            data[1], data[3],
        ] }
    }

    /// Row `y` of `self` times column `x` of `rhs`: the exact sum of
    /// products, rounded once.
    pub open spec fn product_entry(self, rhs: Mat2, x: int, y: int) -> Fixed {
        spec_dot2(self.spec_get(0, y), rhs.spec_get(x, 0), self.spec_get(1, y), rhs.spec_get(x, 1))
    }

    /// The matrix product.
    pub open spec fn times(self, rhs: Mat2) -> Mat2 {
        Mat2 { data: [
            self.product_entry(rhs, 0, 0), self.product_entry(rhs, 1, 0),
            self.product_entry(rhs, 0, 1), self.product_entry(rhs, 1, 1),
        ] }
    }

    /// Every entry multiplied by `k`.
    pub open spec fn scaled(self, k: Fixed) -> Mat2 {
        Mat2 { data: [
            self.data[0].times(k), self.data[1].times(k),
            self.data[2].times(k), self.data[3].times(k),
        ] }
    }

    /// Every entry divided by `k`.
    pub open spec fn divided(self, k: Fixed) -> Mat2 {
        Mat2 { data: [
            self.data[0].over(k), self.data[1].over(k),
            self.data[2].over(k), self.data[3].over(k),
        ] }
    }

    /// Row `y` times the column vector `v`.
    pub open spec fn row_dot(self, v: Vec2, y: int) -> Fixed {
        spec_dot2(self.spec_get(0, y), v.x, self.spec_get(1, y), v.y)
    }

    /// The matrix applied to the column vector `v`.
    pub open spec fn apply(self, v: Vec2) -> Vec2 {
        Vec2 { x: self.row_dot(v, 0), y: self.row_dot(v, 1) }
    }

    pub fn from_row(data: &[Fixed; 4]) -> (r: Mat2)
        ensures
            r.data == *data,
    {
        Mat2 { data: *data }
    }

    pub fn from_col(data: &[Fixed; 4]) -> (r: Mat2)
        ensures
            r == Mat2::spec_from_col(*data),
    {
        let r = Mat2 { data: [
            data[0], data[2],
            data[1], data[3],
        ] };
        assert(r.data =~= Mat2::spec_from_col(*data).data);
        r
    }

    pub fn zeros() -> (r: Mat2)
        ensures
            r == Mat2::spec_zeros(),
    {
        let z = Fixed::zero();
        let r = Mat2 { data: [
            z, z,
            z, z,
        ] };
        assert(r.data =~= Mat2::spec_zeros().data);
        r
    }

    pub fn ones() -> (r: Mat2)
        ensures
            r == Mat2::spec_ones(),
    {
        let o = Fixed::one();
        let r = Mat2 { data: [
            o, o,
            o, o,
        ] };
        assert(r.data =~= Mat2::spec_ones().data);
        r
    }

    pub fn identity() -> (r: Mat2)
        ensures
            r == Mat2::spec_identity(),
    {
        let z = Fixed::zero();
        let o = Fixed::one();
        let r = Mat2 { data: [
            o, z,
            z, o,
        ] };
        assert(r.data =~= Mat2::spec_identity().data);
        r
    }

    pub fn get(&self, x: usize, y: usize) -> (r: Fixed)
        requires
            x < 2,
            y < 2,
        ensures
            r == self.spec_get(x as int, y as int),
    {
        self.data[x + y * 2]
    }

    pub fn set(&mut self, x: usize, y: usize, value: Fixed)
        requires
            x < 2,
            y < 2,
        ensures
            final(self).data@ == old(self).data@.update(x + y * 2, value),
    {
        self.data[x + y * 2] = value;
    }

    pub fn transpose(&self) -> (r: Mat2)
        ensures
            r == self.spec_transpose(),
    {
        let r = Mat2 { data: [
            self.data[0], self.data[2],
            self.data[1], self.data[3],
        ] };
        assert(r.data =~= self.spec_transpose().data);
        r
    }

    /// Row `y` of `self` times column `x` of `rhs`.
    pub fn mul_entry(&self, rhs: &Mat2, x: usize, y: usize) -> (r: Fixed)
        requires
            x < 2,
            y < 2,
        ensures
            r == self.product_entry(*rhs, x as int, y as int),
    {
        dot2(self.data[0 + y * 2], rhs.data[x + 0], self.data[1 + y * 2], rhs.data[x + 2])
    }
}

impl std::ops::Mul for Mat2 {
    type Output = Mat2;

    fn mul(self, rhs: Mat2) -> (r: Mat2) {
        let r = Mat2 { data: [
            self.mul_entry(&rhs, 0, 0), self.mul_entry(&rhs, 1, 0),
            self.mul_entry(&rhs, 0, 1), self.mul_entry(&rhs, 1, 1),
        ] };
        assert(r.data =~= self.times(rhs).data);
        r
    }
}

impl vstd::std_specs::ops::MulSpecImpl for Mat2 {
    open spec fn obeys_mul_spec() -> bool {
        true
    }

    open spec fn mul_req(self, rhs: Mat2) -> bool {
        true
    }

    open spec fn mul_spec(self, rhs: Mat2) -> Mat2 {
        self.times(rhs)
    }
}

impl std::ops::Mul<Fixed> for Mat2 {
    type Output = Mat2;

    fn mul(self, rhs: Fixed) -> (r: Mat2) {
        let r = Mat2 { data: [
            self.data[0] * rhs, self.data[1] * rhs,
            self.data[2] * rhs, self.data[3] * rhs,
        ] };
        assert(r.data =~= self.scaled(rhs).data);
        r
    }
}

impl vstd::std_specs::ops::MulSpecImpl<Fixed> for Mat2 {
    open spec fn obeys_mul_spec() -> bool {
        true
    }

    open spec fn mul_req(self, rhs: Fixed) -> bool {
        true
    }

    open spec fn mul_spec(self, rhs: Fixed) -> Mat2 {
        self.scaled(rhs)
    }
}

/// Every entry is divided by `rhs`; a zero `rhs` saturates the entries.
impl std::ops::Div<Fixed> for Mat2 {
    type Output = Mat2;

    fn div(self, rhs: Fixed) -> (r: Mat2) {
        let r = Mat2 { data: [
            self.data[0] / rhs, self.data[1] / rhs,
            self.data[2] / rhs, self.data[3] / rhs,
        ] };
        assert(r.data =~= self.divided(rhs).data);
        r
    }
}

impl vstd::std_specs::ops::DivSpecImpl<Fixed> for Mat2 {
    open spec fn obeys_div_spec() -> bool {
        true
    }

    open spec fn div_req(self, rhs: Fixed) -> bool {
        true
    }

    open spec fn div_spec(self, rhs: Fixed) -> Mat2 {
        self.divided(rhs)
    }
}

impl std::ops::Mul<Vec2> for Mat2 {
    type Output = Vec2;

    fn mul(self, rhs: Vec2) -> (r: Vec2) {
        Vec2 {
            x: dot2(self.data[0], rhs.x, self.data[1], rhs.y),
            y: dot2(self.data[2], rhs.x, self.data[3], rhs.y),
        }
    }
}

impl vstd::std_specs::ops::MulSpecImpl<Vec2> for Mat2 {
    open spec fn obeys_mul_spec() -> bool {
        true
    }

    open spec fn mul_req(self, rhs: Vec2) -> bool {
        true
    }

    open spec fn mul_spec(self, rhs: Vec2) -> Vec2 {
        self.apply(rhs)
    }
}

impl PartialEq for Mat2 {
    fn eq(&self, other: &Mat2) -> (r: bool) {
        let mut i: usize = 0;
        while i < 4
            invariant
                0 <= i <= 4,
                forall|k: int| 0 <= k < i ==> self.data[k] == other.data[k],
            decreases 4 - i,
        {
            if self.data[i] != other.data[i] {
                return false;
            }
            i += 1;
        }
        assert(self.data =~= other.data);
        true
    }
}

impl vstd::std_specs::cmp::PartialEqSpecImpl for Mat2 {
    open spec fn obeys_eq_spec() -> bool {
        true
    }

    open spec fn eq_spec(&self, other: &Mat2) -> bool {
        self.data == other.data
    }
}

/// A three by three matrix; `data[x + y * 3]` is the entry in column `x` of row `y`.
#[derive(Clone, Copy, Debug)]
pub struct Mat3 {
    pub data: [Fixed; 9],
}

impl Mat3 {
    /// The entry in column `x` of row `y`.
    pub open spec fn spec_get(self, x: int, y: int) -> Fixed {
        self.data[x + y * 3]
    }

    /// The matrix of zeros.
    pub open spec fn spec_zeros() -> Mat3 {
        Mat3 { data: [
            Fixed { raw: 0 }, Fixed { raw: 0 }, Fixed { raw: 0 },
            Fixed { raw: 0 }, Fixed { raw: 0 }, Fixed { raw: 0 },
            Fixed { raw: 0 }, Fixed { raw: 0 }, Fixed { raw: 0 },
        ] }
    }

    /// The matrix of ones.
    pub open spec fn spec_ones() -> Mat3 {
        Mat3 { data: [
            Fixed { raw: 65536 }, Fixed { raw: 65536 }, Fixed { raw: 65536 },
            Fixed { raw: 65536 }, Fixed { raw: 65536 }, Fixed { raw: 65536 },
            Fixed { raw: 65536 }, Fixed { raw: 65536 }, Fixed { raw: 65536 },
        ] }
    }

    /// The identity matrix.
    pub open spec fn spec_identity() -> Mat3 {
        Mat3 { data: [
            Fixed { raw: 65536 }, Fixed { raw: 0 }, Fixed { raw: 0 },
            Fixed { raw: 0 }, Fixed { raw: 65536 }, Fixed { raw: 0 },
            Fixed { raw: 0 }, Fixed { raw: 0 }, Fixed { raw: 65536 },
        ] }
    }

    /// Rows and columns exchanged.
    pub open spec fn spec_transpose(self) -> Mat3 {
        Mat3 { data: [
            self.data[0], self.data[3], self.data[6],
            self.data[1], self.data[4], self.data[7],
            self.data[2], self.data[5], self.data[8],
        ] }
    }

    /// The matrix whose columns are the rows of `data`.
    pub open spec fn spec_from_col(data: [Fixed; 9]) -> Mat3 {
        Mat3 { data: [
            data[0], data[3], data[6],
            data[1], data[4], data[7],
            data[2], data[5], data[8],
        ] }
    }

    /// Row `y` of `self` times column `x` of `rhs`: the exact sum of
    /// products, rounded once.
    pub open spec fn product_entry(self, rhs: Mat3, x: int, y: int) -> Fixed {
        spec_dot3(self.spec_get(0, y), rhs.spec_get(x, 0), self.spec_get(1, y), rhs.spec_get(x, 1), self.spec_get(2, y), rhs.spec_get(x, 2))
    }

    /// The matrix product.
    pub open spec fn times(self, rhs: Mat3) -> Mat3 {
        Mat3 { data: [
            self.product_entry(rhs, 0, 0), self.product_entry(rhs, 1, 0),
            self.product_entry(rhs, 2, 0), self.product_entry(rhs, 0, 1),
            self.product_entry(rhs, 1, 1), self.product_entry(rhs, 2, 1),
            self.product_entry(rhs, 0, 2), self.product_entry(rhs, 1, 2),
            self.product_entry(rhs, 2, 2),
        ] }
    }

    /// Every entry multiplied by `k`.
    pub open spec fn scaled(self, k: Fixed) -> Mat3 {
        Mat3 { data: [
            self.data[0].times(k), self.data[1].times(k), self.data[2].times(k),
            self.data[3].times(k), self.data[4].times(k), self.data[5].times(k),
            self.data[6].times(k), self.data[7].times(k), self.data[8].times(k),
        ] }
    }

    /// Every entry divided by `k`.
    pub open spec fn divided(self, k: Fixed) -> Mat3 {
        Mat3 { data: [
            self.data[0].over(k), self.data[1].over(k), self.data[2].over(k),
            self.data[3].over(k), self.data[4].over(k), self.data[5].over(k),
            self.data[6].over(k), self.data[7].over(k), self.data[8].over(k),
        ] }
    }

    /// Row `y` times the column vector `v`.
    pub open spec fn row_dot(self, v: Vec3, y: int) -> Fixed {
        spec_dot3(self.spec_get(0, y), v.x, self.spec_get(1, y), v.y, self.spec_get(2, y), v.z)
    }

    /// The matrix applied to the column vector `v`.
    pub open spec fn apply(self, v: Vec3) -> Vec3 {
        Vec3 { x: self.row_dot(v, 0), y: self.row_dot(v, 1), z: self.row_dot(v, 2) }
    }

    pub fn from_row(data: &[Fixed; 9]) -> (r: Mat3)
        ensures
            r.data == *data,
    {
        Mat3 { data: *data }
    }

    pub fn from_col(data: &[Fixed; 9]) -> (r: Mat3)
        ensures
            r == Mat3::spec_from_col(*data),
    {
        let r = Mat3 { data: [
            data[0], data[3], data[6],
            data[1], data[4], data[7],
            data[2], data[5], data[8],
        ] };
        assert(r.data =~= Mat3::spec_from_col(*data).data);
        r
    }

    pub fn zeros() -> (r: Mat3)
        ensures
            r == Mat3::spec_zeros(),
    {
        let z = Fixed::zero();
        let r = Mat3 { data: [
            z, z, z,
            z, z, z,
            z, z, z,
        ] };
        assert(r.data =~= Mat3::spec_zeros().data);
        r
    }

    pub fn ones() -> (r: Mat3)
        ensures
            r == Mat3::spec_ones(),
    {
        let o = Fixed::one();
        let r = Mat3 { data: [
            o, o, o,
            o, o, o,
            o, o, o,
        ] };
        assert(r.data =~= Mat3::spec_ones().data);
        r
    }

    pub fn identity() -> (r: Mat3)
        ensures
            r == Mat3::spec_identity(),
    {
        let z = Fixed::zero();
        let o = Fixed::one();
        let r = Mat3 { data: [
            o, z, z,
            z, o, z,
            z, z, o,
        ] };
        assert(r.data =~= Mat3::spec_identity().data);
        r
    }

    pub fn get(&self, x: usize, y: usize) -> (r: Fixed)
        requires
            x < 3,
            y < 3,
        ensures
            r == self.spec_get(x as int, y as int),
    {
        self.data[x + y * 3]
    }

    pub fn set(&mut self, x: usize, y: usize, value: Fixed)
        requires
            x < 3,
            y < 3,
        ensures
            final(self).data@ == old(self).data@.update(x + y * 3, value),
    {
        self.data[x + y * 3] = value;
    }

    pub fn transpose(&self) -> (r: Mat3)
        ensures
            r == self.spec_transpose(),
    {
        let r = Mat3 { data: [
            self.data[0], self.data[3], self.data[6],
            self.data[1], self.data[4], self.data[7],
            self.data[2], self.data[5], self.data[8],
        ] };
        assert(r.data =~= self.spec_transpose().data);
        r
    }

    /// Row `y` of `self` times column `x` of `rhs`.
    pub fn mul_entry(&self, rhs: &Mat3, x: usize, y: usize) -> (r: Fixed)
        requires
            x < 3,
            y < 3,
        ensures
            r == self.product_entry(*rhs, x as int, y as int),
    {
        dot3(self.data[0 + y * 3], rhs.data[x + 0], self.data[1 + y * 3], rhs.data[x + 3], self.data[2 + y * 3], rhs.data[x + 6])
    }
}

impl std::ops::Mul for Mat3 {
    type Output = Mat3;

    fn mul(self, rhs: Mat3) -> (r: Mat3) {
        let r = Mat3 { data: [
            self.mul_entry(&rhs, 0, 0), self.mul_entry(&rhs, 1, 0),
            self.mul_entry(&rhs, 2, 0), self.mul_entry(&rhs, 0, 1),
            self.mul_entry(&rhs, 1, 1), self.mul_entry(&rhs, 2, 1),
            self.mul_entry(&rhs, 0, 2), self.mul_entry(&rhs, 1, 2),
            self.mul_entry(&rhs, 2, 2),
        ] };
        assert(r.data =~= self.times(rhs).data);
        r
    }
}

impl vstd::std_specs::ops::MulSpecImpl for Mat3 {
    open spec fn obeys_mul_spec() -> bool {
        true
    }

    open spec fn mul_req(self, rhs: Mat3) -> bool {
        true
    }

    open spec fn mul_spec(self, rhs: Mat3) -> Mat3 {
        self.times(rhs)
    }
}

impl std::ops::Mul<Fixed> for Mat3 {
    type Output = Mat3;

    fn mul(self, rhs: Fixed) -> (r: Mat3) {
        let r = Mat3 { data: [
            self.data[0] * rhs, self.data[1] * rhs, self.data[2] * rhs,
            self.data[3] * rhs, self.data[4] * rhs, self.data[5] * rhs,
            self.data[6] * rhs, self.data[7] * rhs, self.data[8] * rhs,
        ] };
        assert(r.data =~= self.scaled(rhs).data);
        r
    }
}

impl vstd::std_specs::ops::MulSpecImpl<Fixed> for Mat3 {
    open spec fn obeys_mul_spec() -> bool {
        true
    }

    open spec fn mul_req(self, rhs: Fixed) -> bool {
        true
    }

    open spec fn mul_spec(self, rhs: Fixed) -> Mat3 {
        self.scaled(rhs)
    }
}

/// Every entry is divided by `rhs`; a zero `rhs` saturates the entries.
impl std::ops::Div<Fixed> for Mat3 {
    type Output = Mat3;

    fn div(self, rhs: Fixed) -> (r: Mat3) {
        let r = Mat3 { data: [
            self.data[0] / rhs, self.data[1] / rhs, self.data[2] / rhs,
            self.data[3] / rhs, self.data[4] / rhs, self.data[5] / rhs,
            self.data[6] / rhs, self.data[7] / rhs, self.data[8] / rhs,
        ] };
        assert(r.data =~= self.divided(rhs).data);
        r
    }
}

impl vstd::std_specs::ops::DivSpecImpl<Fixed> for Mat3 {
    open spec fn obeys_div_spec() -> bool {
        true
    }

    open spec fn div_req(self, rhs: Fixed) -> bool {
        true
    }

    open spec fn div_spec(self, rhs: Fixed) -> Mat3 {
        self.divided(rhs)
    }
}

impl std::ops::Mul<Vec3> for Mat3 {
    type Output = Vec3;

    fn mul(self, rhs: Vec3) -> (r: Vec3) {
        Vec3 {
            x: dot3(self.data[0], rhs.x, self.data[1], rhs.y, self.data[2], rhs.z),
            y: dot3(self.data[3], rhs.x, self.data[4], rhs.y, self.data[5], rhs.z),
            z: dot3(self.data[6], rhs.x, self.data[7], rhs.y, self.data[8], rhs.z),
        }
    }
}

impl vstd::std_specs::ops::MulSpecImpl<Vec3> for Mat3 {
    open spec fn obeys_mul_spec() -> bool {
        true
    }

    open spec fn mul_req(self, rhs: Vec3) -> bool {
        true
    }

    open spec fn mul_spec(self, rhs: Vec3) -> Vec3 {
        self.apply(rhs)
    }
}

impl PartialEq for Mat3 {
    fn eq(&self, other: &Mat3) -> (r: bool) {
        let mut i: usize = 0;
        while i < 9
            invariant
                0 <= i <= 9,
                forall|k: int| 0 <= k < i ==> self.data[k] == other.data[k],
            decreases 9 - i,
        {
            if self.data[i] != other.data[i] {
                return false;
            }
            i += 1;
        }
        assert(self.data =~= other.data);
        true
    }
}

impl vstd::std_specs::cmp::PartialEqSpecImpl for Mat3 {
    open spec fn obeys_eq_spec() -> bool {
        true
    }

    open spec fn eq_spec(&self, other: &Mat3) -> bool {
        self.data == other.data
    }
}

/// A four by four matrix; `data[x + y * 4]` is the entry in column `x` of row `y`.
#[derive(Clone, Copy, Debug)]
pub struct Mat4 {
    pub data: [Fixed; 16],
}

impl Mat4 {
    /// The entry in column `x` of row `y`.
    pub open spec fn spec_get(self, x: int, y: int) -> Fixed {
        self.data[x + y * 4]
    }

    /// The matrix of zeros.
    pub open spec fn spec_zeros() -> Mat4 {
        Mat4 { data: [
            Fixed { raw: 0 }, Fixed { raw: 0 }, Fixed { raw: 0 }, Fixed { raw: 0 },
            Fixed { raw: 0 }, Fixed { raw: 0 }, Fixed { raw: 0 }, Fixed { raw: 0 },
            Fixed { raw: 0 }, Fixed { raw: 0 }, Fixed { raw: 0 }, Fixed { raw: 0 },
            Fixed { raw: 0 }, Fixed { raw: 0 }, Fixed { raw: 0 }, Fixed { raw: 0 },
        ] }
    }

    /// The matrix of ones.
    pub open spec fn spec_ones() -> Mat4 {
        Mat4 { data: [
            Fixed { raw: 65536 }, Fixed { raw: 65536 }, Fixed { raw: 65536 }, Fixed { raw: 65536 },
            Fixed { raw: 65536 }, Fixed { raw: 65536 }, Fixed { raw: 65536 }, Fixed { raw: 65536 },
            Fixed { raw: 65536 }, Fixed { raw: 65536 }, Fixed { raw: 65536 }, Fixed { raw: 65536 },
            Fixed { raw: 65536 }, Fixed { raw: 65536 }, Fixed { raw: 65536 }, Fixed { raw: 65536 },
        ] }
    }

    /// The identity matrix.
    pub open spec fn spec_identity() -> Mat4 {
        Mat4 { data: [
            Fixed { raw: 65536 }, Fixed { raw: 0 }, Fixed { raw: 0 }, Fixed { raw: 0 },
            Fixed { raw: 0 }, Fixed { raw: 65536 }, Fixed { raw: 0 }, Fixed { raw: 0 },
            Fixed { raw: 0 }, Fixed { raw: 0 }, Fixed { raw: 65536 }, Fixed { raw: 0 },
            Fixed { raw: 0 }, Fixed { raw: 0 }, Fixed { raw: 0 }, Fixed { raw: 65536 },
        ] }
    }

    /// Rows and columns exchanged.
    pub open spec fn spec_transpose(self) -> Mat4 {
        Mat4 { data: [
            self.data[0], self.data[4], self.data[8], self.data[12],
            self.data[1], self.data[5], self.data[9], self.data[13],
            self.data[2], self.data[6], self.data[10], self.data[14],
            self.data[3], self.data[7], self.data[11], self.data[15],
        ] }
    }

    /// The matrix whose columns are the rows of `data`.
    pub open spec fn spec_from_col(data: [Fixed; 16]) -> Mat4 {
        Mat4 { data: [
            data[0], data[4], data[8], data[12],
            data[1], data[5], data[9], data[13],
            data[2], data[6], data[10], data[14],
            data[3], data[7], data[11], data[15],
        ] }
    }

    /// Row `y` of `self` times column `x` of `rhs`: the exact sum of
    /// products, rounded once.
    pub open spec fn product_entry(self, rhs: Mat4, x: int, y: int) -> Fixed {
        spec_dot4(self.spec_get(0, y), rhs.spec_get(x, 0), self.spec_get(1, y), rhs.spec_get(x, 1), self.spec_get(2, y), rhs.spec_get(x, 2), self.spec_get(3, y), rhs.spec_get(x, 3))
    }

    /// The matrix product.
    pub open spec fn times(self, rhs: Mat4) -> Mat4 {
        Mat4 { data: [
            self.product_entry(rhs, 0, 0), self.product_entry(rhs, 1, 0),
            self.product_entry(rhs, 2, 0), self.product_entry(rhs, 3, 0),
            self.product_entry(rhs, 0, 1), self.product_entry(rhs, 1, 1),
            self.product_entry(rhs, 2, 1), self.product_entry(rhs, 3, 1),
            self.product_entry(rhs, 0, 2), self.product_entry(rhs, 1, 2),
            self.product_entry(rhs, 2, 2), self.product_entry(rhs, 3, 2),
            self.product_entry(rhs, 0, 3), self.product_entry(rhs, 1, 3),
            self.product_entry(rhs, 2, 3), self.product_entry(rhs, 3, 3),
        ] }
    }

    /// Every entry multiplied by `k`.
    pub open spec fn scaled(self, k: Fixed) -> Mat4 {
        Mat4 { data: [
            self.data[0].times(k), self.data[1].times(k), self.data[2].times(k), self.data[3].times(k),
            self.data[4].times(k), self.data[5].times(k), self.data[6].times(k), self.data[7].times(k),
            self.data[8].times(k), self.data[9].times(k), self.data[10].times(k), self.data[11].times(k),
            self.data[12].times(k), self.data[13].times(k), self.data[14].times(k), self.data[15].times(k),
        ] }
    }

    /// Every entry divided by `k`.
    pub open spec fn divided(self, k: Fixed) -> Mat4 {
        Mat4 { data: [
            self.data[0].over(k), self.data[1].over(k), self.data[2].over(k), self.data[3].over(k),
            self.data[4].over(k), self.data[5].over(k), self.data[6].over(k), self.data[7].over(k),
            self.data[8].over(k), self.data[9].over(k), self.data[10].over(k), self.data[11].over(k),
            self.data[12].over(k), self.data[13].over(k), self.data[14].over(k), self.data[15].over(k),
        ] }
    }

    /// Row `y` times the column vector `v`.
    pub open spec fn row_dot(self, v: Vec4, y: int) -> Fixed {
        spec_dot4(self.spec_get(0, y), v.x, self.spec_get(1, y), v.y, self.spec_get(2, y), v.z, self.spec_get(3, y), v.w)
    }

    /// The matrix applied to the column vector `v`.
    pub open spec fn apply(self, v: Vec4) -> Vec4 {
        Vec4 { x: self.row_dot(v, 0), y: self.row_dot(v, 1), z: self.row_dot(v, 2), w: self.row_dot(v, 3) }
    }

    pub fn from_row(data: &[Fixed; 16]) -> (r: Mat4)
        ensures
            r.data == *data,
    {
        Mat4 { data: *data }
    }

    pub fn from_col(data: &[Fixed; 16]) -> (r: Mat4)
        ensures
            r == Mat4::spec_from_col(*data),
    {
        let r = Mat4 { data: [
            data[0], data[4], data[8], data[12],
            data[1], data[5], data[9], data[13],
            data[2], data[6], data[10], data[14],
            data[3], data[7], data[11], data[15],
        ] };
        assert(r.data =~= Mat4::spec_from_col(*data).data);
        r
    }

    pub fn zeros() -> (r: Mat4)
        ensures
            r == Mat4::spec_zeros(),
    {
        let z = Fixed::zero();
        let r = Mat4 { data: [
            z, z, z, z,
            z, z, z, z,
            z, z, z, z,
            z, z, z, z,
        ] };
        assert(r.data =~= Mat4::spec_zeros().data);
        r
    }

    pub fn ones() -> (r: Mat4)
        ensures
            r == Mat4::spec_ones(),
    {
        let o = Fixed::one();
        let r = Mat4 { data: [
            o, o, o, o,
            o, o, o, o,
            o, o, o, o,
            o, o, o, o,
        ] };
        assert(r.data =~= Mat4::spec_ones().data);
        r
    }

    pub fn identity() -> (r: Mat4)
        ensures
            r == Mat4::spec_identity(),
    {
        let z = Fixed::zero();
        let o = Fixed::one();
        let r = Mat4 { data: [
            o, z, z, z,
            z, o, z, z,
            z, z, o, z,
            z, z, z, o,
        ] };
        assert(r.data =~= Mat4::spec_identity().data);
        r
    }

    pub fn get(&self, x: usize, y: usize) -> (r: Fixed)
        requires
            x < 4,
            y < 4,
        ensures
            r == self.spec_get(x as int, y as int),
    {
        self.data[x + y * 4]
    }

    pub fn set(&mut self, x: usize, y: usize, value: Fixed)
        requires
            x < 4,
            y < 4,
        ensures
            final(self).data@ == old(self).data@.update(x + y * 4, value),
    {
        self.data[x + y * 4] = value;
    }

    pub fn transpose(&self) -> (r: Mat4)
        ensures
            r == self.spec_transpose(),
    {
        let r = Mat4 { data: [
            self.data[0], self.data[4], self.data[8], self.data[12],
            self.data[1], self.data[5], self.data[9], self.data[13],
            self.data[2], self.data[6], self.data[10], self.data[14],
            self.data[3], self.data[7], self.data[11], self.data[15],
        ] };
        assert(r.data =~= self.spec_transpose().data);
        r
    }

    /// Row `y` of `self` times column `x` of `rhs`.
    pub fn mul_entry(&self, rhs: &Mat4, x: usize, y: usize) -> (r: Fixed)
        requires
            x < 4,
            y < 4,
        ensures
            r == self.product_entry(*rhs, x as int, y as int),
    {
        dot4(self.data[0 + y * 4], rhs.data[x + 0], self.data[1 + y * 4], rhs.data[x + 4], self.data[2 + y * 4], rhs.data[x + 8], self.data[3 + y * 4], rhs.data[x + 12])
    }
}

impl std::ops::Mul for Mat4 {
    type Output = Mat4;

    fn mul(self, rhs: Mat4) -> (r: Mat4) {
        let r = Mat4 { data: [
            self.mul_entry(&rhs, 0, 0), self.mul_entry(&rhs, 1, 0),
            self.mul_entry(&rhs, 2, 0), self.mul_entry(&rhs, 3, 0),
            self.mul_entry(&rhs, 0, 1), self.mul_entry(&rhs, 1, 1),
            self.mul_entry(&rhs, 2, 1), self.mul_entry(&rhs, 3, 1),
            self.mul_entry(&rhs, 0, 2), self.mul_entry(&rhs, 1, 2),
            self.mul_entry(&rhs, 2, 2), self.mul_entry(&rhs, 3, 2),
            self.mul_entry(&rhs, 0, 3), self.mul_entry(&rhs, 1, 3),
            self.mul_entry(&rhs, 2, 3), self.mul_entry(&rhs, 3, 3),
        ] };
        assert(r.data =~= self.times(rhs).data);
        r
    }
}

impl vstd::std_specs::ops::MulSpecImpl for Mat4 {
    open spec fn obeys_mul_spec() -> bool {
        true
    }

    open spec fn mul_req(self, rhs: Mat4) -> bool {
        true
    }

    open spec fn mul_spec(self, rhs: Mat4) -> Mat4 {
        self.times(rhs)
    }
}

impl std::ops::Mul<Fixed> for Mat4 {
    type Output = Mat4;

    fn mul(self, rhs: Fixed) -> (r: Mat4) {
        let r = Mat4 { data: [
            self.data[0] * rhs, self.data[1] * rhs, self.data[2] * rhs, self.data[3] * rhs,
            self.data[4] * rhs, self.data[5] * rhs, self.data[6] * rhs, self.data[7] * rhs,
            self.data[8] * rhs, self.data[9] * rhs, self.data[10] * rhs, self.data[11] * rhs,
            self.data[12] * rhs, self.data[13] * rhs, self.data[14] * rhs, self.data[15] * rhs,
        ] };
        assert(r.data =~= self.scaled(rhs).data);
        r
    }
}

impl vstd::std_specs::ops::MulSpecImpl<Fixed> for Mat4 {
    open spec fn obeys_mul_spec() -> bool {
        true
    }

    open spec fn mul_req(self, rhs: Fixed) -> bool {
        true
    }

    open spec fn mul_spec(self, rhs: Fixed) -> Mat4 {
        self.scaled(rhs)
    }
}

/// Every entry is divided by `rhs`; a zero `rhs` saturates the entries.
impl std::ops::Div<Fixed> for Mat4 {
    type Output = Mat4;

    fn div(self, rhs: Fixed) -> (r: Mat4) {
        let r = Mat4 { data: [
            self.data[0] / rhs, self.data[1] / rhs, self.data[2] / rhs, self.data[3] / rhs,
            self.data[4] / rhs, self.data[5] / rhs, self.data[6] / rhs, self.data[7] / rhs,
            self.data[8] / rhs, self.data[9] / rhs, self.data[10] / rhs, self.data[11] / rhs,
            self.data[12] / rhs, self.data[13] / rhs, self.data[14] / rhs, self.data[15] / rhs,
        ] };
        assert(r.data =~= self.divided(rhs).data);
        r
    }
}

impl vstd::std_specs::ops::DivSpecImpl<Fixed> for Mat4 {
    open spec fn obeys_div_spec() -> bool {
        true
    }

    open spec fn div_req(self, rhs: Fixed) -> bool {
        true
    }

    open spec fn div_spec(self, rhs: Fixed) -> Mat4 {
        self.divided(rhs)
    }
}

impl std::ops::Mul<Vec4> for Mat4 {
    type Output = Vec4;

    fn mul(self, rhs: Vec4) -> (r: Vec4) {
        Vec4 {
            x: dot4(self.data[0], rhs.x, self.data[1], rhs.y, self.data[2], rhs.z, self.data[3], rhs.w),
            y: dot4(self.data[4], rhs.x, self.data[5], rhs.y, self.data[6], rhs.z, self.data[7], rhs.w),
            z: dot4(self.data[8], rhs.x, self.data[9], rhs.y, self.data[10], rhs.z, self.data[11], rhs.w),
            w: dot4(self.data[12], rhs.x, self.data[13], rhs.y, self.data[14], rhs.z, self.data[15], rhs.w),
        }
    }
}

impl vstd::std_specs::ops::MulSpecImpl<Vec4> for Mat4 {
    open spec fn obeys_mul_spec() -> bool {
        true
    }

    open spec fn mul_req(self, rhs: Vec4) -> bool {
        true
    }

    open spec fn mul_spec(self, rhs: Vec4) -> Vec4 {
        self.apply(rhs)
    }
}

impl PartialEq for Mat4 {
    fn eq(&self, other: &Mat4) -> (r: bool) {
        let mut i: usize = 0;
        while i < 16
            invariant
                0 <= i <= 16,
                forall|k: int| 0 <= k < i ==> self.data[k] == other.data[k],
            decreases 16 - i,
        {
            if self.data[i] != other.data[i] {
                return false;
            }
            i += 1;
        }
        assert(self.data =~= other.data);
        true
    }
}

impl vstd::std_specs::cmp::PartialEqSpecImpl for Mat4 {
    open spec fn obeys_eq_spec() -> bool {
        true
    }

    open spec fn eq_spec(&self, other: &Mat4) -> bool {
        self.data == other.data
    }
}

impl Mat2 {
    /// The determinant: the exact difference of the two products, rounded once.
    pub open spec fn spec_det(self) -> Fixed {
        spec_det2(self.spec_get(0, 0), self.spec_get(1, 1), self.spec_get(1, 0), self.spec_get(0, 1))
    }

    /// The inverse, where the determinant does not round to zero: the
    /// adjugate with every entry divided by the determinant.
    pub open spec fn spec_inverse(self) -> Option<Mat2> {
        let d = self.spec_det();
        if d@ == 0 {
            None
        } else {
            Some(
                Mat2 {
                    data: [
                        self.spec_get(1, 1).over(d),
                        self.spec_get(1, 0).negated().over(d),
                        self.spec_get(0, 1).negated().over(d),
                        self.spec_get(0, 0).over(d),
                    ],
                },
            )
        }
    }

    pub fn det(&self) -> (r: Fixed)
        ensures
            r == self.spec_det(),
    {
        det2(self.get(0, 0), self.get(1, 1), self.get(1, 0), self.get(0, 1))
    }

    pub fn inverse(&self) -> (r: Option<Mat2>)
        ensures
            r == self.spec_inverse(),
    {
        let d = self.det();
        if d.raw == 0 {
            return None;
        }
        let m = Mat2 {
            data: [
                self.get(1, 1) / d,
                self.get(1, 0).neg() / d,
                self.get(0, 1).neg() / d,
                self.get(0, 0) / d,
            ],
        };
        assert(m.data =~= self.spec_inverse().unwrap().data);
        Some(m)
    }
}

/// Raw determinant of the three by three matrix with rows `(a, b, c)`,
/// `(d, e, f)`, `(g, h, i)`: the exact sum of the six triple products, scaled
/// back and rounded once.
pub open spec fn det3_raw(a: int, b: int, c: int, d: int, e: int, f: int, g: int, h: int, i: int) -> int {
    sat(
        trunc_div(
            a * e * i + c * d * h + b * f * g - (c * e * g + b * d * i + a * h * f),
            4294967296,
        ),
    )
}

/// The exact product of three raw values.
fn wide_mul3(a: Fixed, b: Fixed, c: Fixed) -> (p: i128)
    ensures
        p == a@ * b@ * c@,
        -0x2000_0000_0000_0000_0000_0000 <= p <= 0x2000_0000_0000_0000_0000_0000,
{
    let x: i128 = a.raw as i128;
    let y: i128 = b.raw as i128;
    let z: i128 = c.raw as i128;
    proof {
        lemma_product_bound(x as int, y as int, 0x8000_0000, 0x8000_0000);
        lemma_product_bound(x * y, z as int, 0x4000_0000_0000_0000, 0x8000_0000);
    }
    x * y * z
}

impl Mat3 {
    /// The determinant, rounded once.
    pub open spec fn spec_det(self) -> Fixed {
        Fixed::of_raw(
            det3_raw(
                self.data[0]@,
                self.data[1]@,
                self.data[2]@,
                self.data[3]@,
                self.data[4]@,
                self.data[5]@,
                self.data[6]@,
                self.data[7]@,
                self.data[8]@,
            ),
        )
    }

    /// The adjugate: the transposed matrix of cofactors, each an exact
    /// difference of two products, rounded once.
    pub open spec fn spec_adjugate(self) -> Mat3 {
        Mat3 {
            data: [
                spec_det2(self.data[4], self.data[8], self.data[5], self.data[7]),
                spec_det2(self.data[2], self.data[7], self.data[1], self.data[8]),
                spec_det2(self.data[1], self.data[5], self.data[2], self.data[4]),
                spec_det2(self.data[5], self.data[6], self.data[3], self.data[8]),
                spec_det2(self.data[0], self.data[8], self.data[2], self.data[6]),
                spec_det2(self.data[2], self.data[3], self.data[0], self.data[5]),
                spec_det2(self.data[3], self.data[7], self.data[4], self.data[6]),
                spec_det2(self.data[1], self.data[6], self.data[0], self.data[7]),
                spec_det2(self.data[0], self.data[4], self.data[1], self.data[3]),
            ],
        }
    }

    /// The inverse, where the determinant does not round to zero: the
    /// adjugate with every entry divided by the determinant.
    pub open spec fn spec_inverse(self) -> Option<Mat3> {
        let d = self.spec_det();
        if d@ == 0 {
            None
        } else {
            Some(self.spec_adjugate().divided(d))
        }
    }

    pub fn det(&self) -> (r: Fixed)
        ensures
            r == self.spec_det(),
    {
        let m = &self.data;
        let plus: i128 = wide_mul3(m[0], m[4], m[8]) + wide_mul3(m[2], m[3], m[7]) + wide_mul3(
            m[1],
            m[5],
            m[6],
        );
        let minus: i128 = wide_mul3(m[2], m[4], m[6]) + wide_mul3(m[1], m[3], m[8]) + wide_mul3(
            m[0],
            m[7],
            m[5],
        );
        Fixed { raw: saturate_i128(trunc_div_i128(plus - minus, 4294967296)) }
    }

    /// The transposed matrix of cofactors.
    pub fn adjugate(&self) -> (r: Mat3)
        ensures
            r == self.spec_adjugate(),
    {
        let m = &self.data;
        let r = Mat3 {
            data: [
                det2(m[4], m[8], m[5], m[7]),
                det2(m[2], m[7], m[1], m[8]),
                det2(m[1], m[5], m[2], m[4]),
                det2(m[5], m[6], m[3], m[8]),
                det2(m[0], m[8], m[2], m[6]),
                det2(m[2], m[3], m[0], m[5]),
                det2(m[3], m[7], m[4], m[6]),
                det2(m[1], m[6], m[0], m[7]),
                det2(m[0], m[4], m[1], m[3]),
            ],
        };
        assert(r.data =~= self.spec_adjugate().data);
        r
    }

    pub fn inverse(&self) -> (r: Option<Mat3>)
        ensures
            r == self.spec_inverse(),
    {
        let d = self.det();
        if d.raw == 0 {
            return None;
        }
        Some(self.adjugate() / d)
    }
}

/// The index in a four by four matrix of index `i` of the three by three
/// matrix that leaves out row or column `skipped`.
pub open spec fn skip_index(i: int, skipped: int) -> int {
    if i >= skipped {
        i + 1
    } else {
        i
    }
}

fn skip(i: usize, skipped: usize) -> (r: usize)
    requires
        i < 3,
    ensures
        r == skip_index(i as int, skipped as int),
        r < 4,
{
    if i >= skipped {
        i + 1
    } else {
        i
    }
}

impl Mat4 {
    /// The upper left three by three block.
    pub open spec fn spec_truncated(self) -> Mat3 {
        Mat3 {
            data: [
                self.data[0],
                self.data[1],
                self.data[2],
                self.data[4],
                self.data[5],
                self.data[6],
                self.data[8],
                self.data[9],
                self.data[10],
            ],
        }
    }

    /// The matrix without column `x` and row `y`.
    pub open spec fn spec_minor(self, x: int, y: int) -> Mat3 {
        Mat3 {
            data: [
                self.spec_get(skip_index(0, x), skip_index(0, y)),
                self.spec_get(skip_index(1, x), skip_index(0, y)),
                self.spec_get(skip_index(2, x), skip_index(0, y)),
                self.spec_get(skip_index(0, x), skip_index(1, y)),
                self.spec_get(skip_index(1, x), skip_index(1, y)),
                self.spec_get(skip_index(2, x), skip_index(1, y)),
                self.spec_get(skip_index(0, x), skip_index(2, y)),
                self.spec_get(skip_index(1, x), skip_index(2, y)),
                self.spec_get(skip_index(2, x), skip_index(2, y)),
            ],
        }
    }

    /// The sign of the cofactor at column `x` and row `y`, as a number.
    pub open spec fn cofactor_sign(x: int, y: int) -> Fixed {
        if (x + y) % 2 == 0 {
            Fixed { raw: 65536 }
        } else {
            Fixed { raw: (-65536i32) }
        }
    }

    /// The minor with every entry multiplied by the sign of its place.
    pub open spec fn spec_cofactor(self, x: int, y: int) -> Mat3 {
        self.spec_minor(x, y).scaled(Mat4::cofactor_sign(x, y))
    }

    /// The determinant, expanded along the first row: the determinants of the
    /// four signed minors times the entries of the row, summed exactly and
    /// rounded once.
    pub open spec fn spec_det(self) -> Fixed {
        spec_dot4(
            self.spec_cofactor(0, 0).spec_det(),
            self.spec_get(0, 0),
            self.spec_cofactor(1, 0).spec_det(),
            self.spec_get(1, 0),
            self.spec_cofactor(2, 0).spec_det(),
            self.spec_get(2, 0),
            self.spec_cofactor(3, 0).spec_det(),
            self.spec_get(3, 0),
        )
    }

    /// The entry in column `x` of row `y` of the inverse: the determinant of
    /// the signed minor at column `y` and row `x`, divided by the determinant.
    pub open spec fn inverse_entry(self, x: int, y: int) -> Fixed {
        self.spec_cofactor(y, x).spec_det().over(self.spec_det())
    }

    /// The inverse, where the determinant does not round to zero.
    pub open spec fn spec_inverse(self) -> Option<Mat4> {
        if self.spec_det()@ == 0 {
            None
        } else {
            Some(
                Mat4 {
                    data: [
                        self.inverse_entry(0, 0),
                        self.inverse_entry(1, 0),
                        self.inverse_entry(2, 0),
                        self.inverse_entry(3, 0),
                        self.inverse_entry(0, 1),
                        self.inverse_entry(1, 1),
                        self.inverse_entry(2, 1),
                        self.inverse_entry(3, 1),
                        self.inverse_entry(0, 2),
                        self.inverse_entry(1, 2),
                        self.inverse_entry(2, 2),
                        self.inverse_entry(3, 2),
                        self.inverse_entry(0, 3),
                        self.inverse_entry(1, 3),
                        self.inverse_entry(2, 3),
                        self.inverse_entry(3, 3),
                    ],
                },
            )
        }
    }

    pub fn truncated_to_mat3(&self) -> (r: Mat3)
        ensures
            r == self.spec_truncated(),
    {
        let m = &self.data;
        let r = Mat3 { data: [m[0], m[1], m[2], m[4], m[5], m[6], m[8], m[9], m[10]] };
        assert(r.data =~= self.spec_truncated().data);
        r
    }

    /// The matrix without column `x` and row `y`.
    pub fn get_algebraic_cofactor(&self, x: usize, y: usize) -> (r: Mat3)
        requires
            x < 4,
            y < 4,
        ensures
            r == self.spec_minor(x as int, y as int),
    {
        let x0 = skip(0, x);
        let x1 = skip(1, x);
        let x2 = skip(2, x);
        let y0 = skip(0, y);
        let y1 = skip(1, y);
        let y2 = skip(2, y);
        let r = Mat3 {
            data: [
                self.get(x0, y0),
                self.get(x1, y0),
                self.get(x2, y0),
                self.get(x0, y1),
                self.get(x1, y1),
                self.get(x2, y1),
                self.get(x0, y2),
                self.get(x1, y2),
                self.get(x2, y2),
            ],
        };
        assert(r.data =~= self.spec_minor(x as int, y as int).data);
        r
    }

    /// The minor with every entry multiplied by the sign of its place.
    pub fn get_cofactor(&self, x: usize, y: usize) -> (r: Mat3)
        requires
            x < 4,
            y < 4,
        ensures
            r == self.spec_cofactor(x as int, y as int),
    {
        let sign = if (x + y) % 2 == 0 {
            Fixed::one()
        } else {
            Fixed::from_raw(-65536)
        };
        self.get_algebraic_cofactor(x, y) * sign
    }

    pub fn det(&self) -> (r: Fixed)
        ensures
            r == self.spec_det(),
    {
        dot4(
            self.get_cofactor(0, 0).det(),
            self.get(0, 0),
            self.get_cofactor(1, 0).det(),
            self.get(1, 0),
            self.get_cofactor(2, 0).det(),
            self.get(2, 0),
            self.get_cofactor(3, 0).det(),
            self.get(3, 0),
        )
    }

    /// The entry in column `x` of row `y` of the inverse, for the
    /// determinant `d`.
    fn inverse_at(&self, d: Fixed, x: usize, y: usize) -> (r: Fixed)
        requires
            x < 4,
            y < 4,
            d == self.spec_det(),
        ensures
            r == self.inverse_entry(x as int, y as int),
    {
        self.get_cofactor(y, x).det() / d
    }

    pub fn inverse(&self) -> (r: Option<Mat4>)
        ensures
            r == self.spec_inverse(),
    {
        let d = self.det();
        if d.raw == 0 {
            return None;
        }
        let m = Mat4 {
            data: [
                self.inverse_at(d, 0, 0),
                self.inverse_at(d, 1, 0),
                self.inverse_at(d, 2, 0),
                self.inverse_at(d, 3, 0),
                self.inverse_at(d, 0, 1),
                self.inverse_at(d, 1, 1),
                self.inverse_at(d, 2, 1),
                self.inverse_at(d, 3, 1),
                self.inverse_at(d, 0, 2),
                self.inverse_at(d, 1, 2),
                self.inverse_at(d, 2, 2),
                self.inverse_at(d, 3, 2),
                self.inverse_at(d, 0, 3),
                self.inverse_at(d, 1, 3),
                self.inverse_at(d, 2, 3),
                self.inverse_at(d, 3, 3),
            ],
        };
        assert(m.data =~= self.spec_inverse().unwrap().data);
        Some(m)
    }
}

/// A sum of products in which one factor is one and the others are zero is
/// the other factor of the one.
pub proof fn lemma_dot_with_unit(v: Fixed)
    ensures
        sat(trunc_div(65536 * v@, 65536)) == v@,
{
    assert((65536 * v@) / 65536 == v@) by (nonlinear_arith);
    assert((-(65536 * v@)) / 65536 == -v@) by (nonlinear_arith);
}

/// The identity matrix leaves every vector as it is.
pub proof fn lemma_identity_apply(v2: Vec2, v3: Vec3, v4: Vec4)
    ensures
        Mat2::spec_identity().apply(v2) == v2,
        Mat3::spec_identity().apply(v3) == v3,
        Mat4::spec_identity().apply(v4) == v4,
{
    lemma_dot_with_unit(v2.x);
    lemma_dot_with_unit(v2.y);
    lemma_dot_with_unit(v3.x);
    lemma_dot_with_unit(v3.y);
    lemma_dot_with_unit(v3.z);
    lemma_dot_with_unit(v4.x);
    lemma_dot_with_unit(v4.y);
    lemma_dot_with_unit(v4.z);
    lemma_dot_with_unit(v4.w);
    let i2 = Mat2::spec_identity();
    assert(i2.data[0]@ * v2.x@ == 65536 * v2.x@) by (nonlinear_arith)
        requires
            i2.data[0]@ == 65536,
    ;
    assert(i2.data[1]@ * v2.y@ == 0) by (nonlinear_arith)
        requires
            i2.data[1]@ == 0,
    ;
    assert(i2.row_dot(v2, 0) == v2.x);
    assert(i2.data[2]@ * v2.x@ == 0) by (nonlinear_arith)
        requires
            i2.data[2]@ == 0,
    ;
    assert(i2.data[3]@ * v2.y@ == 65536 * v2.y@) by (nonlinear_arith)
        requires
            i2.data[3]@ == 65536,
    ;
    assert(i2.row_dot(v2, 1) == v2.y);
    let i3 = Mat3::spec_identity();
    assert(i3.data[0]@ * v3.x@ == 65536 * v3.x@) by (nonlinear_arith)
        requires
            i3.data[0]@ == 65536,
    ;
    assert(i3.data[1]@ * v3.y@ == 0) by (nonlinear_arith)
        requires
            i3.data[1]@ == 0,
    ;
    assert(i3.data[2]@ * v3.z@ == 0) by (nonlinear_arith)
        requires
            i3.data[2]@ == 0,
    ;
    assert(i3.row_dot(v3, 0) == v3.x);
    assert(i3.data[3]@ * v3.x@ == 0) by (nonlinear_arith)
        requires
            i3.data[3]@ == 0,
    ;
    assert(i3.data[4]@ * v3.y@ == 65536 * v3.y@) by (nonlinear_arith)
        requires
            i3.data[4]@ == 65536,
    ;
    assert(i3.data[5]@ * v3.z@ == 0) by (nonlinear_arith)
        requires
            i3.data[5]@ == 0,
    ;
    assert(i3.row_dot(v3, 1) == v3.y);
    assert(i3.data[6]@ * v3.x@ == 0) by (nonlinear_arith)
        requires
            i3.data[6]@ == 0,
    ;
    assert(i3.data[7]@ * v3.y@ == 0) by (nonlinear_arith)
        requires
            i3.data[7]@ == 0,
    ;
    assert(i3.data[8]@ * v3.z@ == 65536 * v3.z@) by (nonlinear_arith)
        requires
            i3.data[8]@ == 65536,
    ;
    assert(i3.row_dot(v3, 2) == v3.z);
    let i4 = Mat4::spec_identity();
    assert(i4.data[0]@ * v4.x@ == 65536 * v4.x@) by (nonlinear_arith)
        requires
            i4.data[0]@ == 65536,
    ;
    assert(i4.data[1]@ * v4.y@ == 0) by (nonlinear_arith)
        requires
            i4.data[1]@ == 0,
    ;
    assert(i4.data[2]@ * v4.z@ == 0) by (nonlinear_arith)
        requires
            i4.data[2]@ == 0,
    ;
    assert(i4.data[3]@ * v4.w@ == 0) by (nonlinear_arith)
        requires
            i4.data[3]@ == 0,
    ;
    assert(i4.row_dot(v4, 0) == v4.x);
    assert(i4.data[4]@ * v4.x@ == 0) by (nonlinear_arith)
        requires
            i4.data[4]@ == 0,
    ;
    assert(i4.data[5]@ * v4.y@ == 65536 * v4.y@) by (nonlinear_arith)
        requires
            i4.data[5]@ == 65536,
    ;
    assert(i4.data[6]@ * v4.z@ == 0) by (nonlinear_arith)
        requires
            i4.data[6]@ == 0,
    ;
    assert(i4.data[7]@ * v4.w@ == 0) by (nonlinear_arith)
        requires
            i4.data[7]@ == 0,
    ;
    assert(i4.row_dot(v4, 1) == v4.y);
    assert(i4.data[8]@ * v4.x@ == 0) by (nonlinear_arith)
        requires
            i4.data[8]@ == 0,
    ;
    assert(i4.data[9]@ * v4.y@ == 0) by (nonlinear_arith)
        requires
            i4.data[9]@ == 0,
    ;
    assert(i4.data[10]@ * v4.z@ == 65536 * v4.z@) by (nonlinear_arith)
        requires
            i4.data[10]@ == 65536,
    ;
    assert(i4.data[11]@ * v4.w@ == 0) by (nonlinear_arith)
        requires
            i4.data[11]@ == 0,
    ;
    assert(i4.row_dot(v4, 2) == v4.z);
    assert(i4.data[12]@ * v4.x@ == 0) by (nonlinear_arith)
        requires
            i4.data[12]@ == 0,
    ;
    assert(i4.data[13]@ * v4.y@ == 0) by (nonlinear_arith)
        requires
            i4.data[13]@ == 0,
    ;
    assert(i4.data[14]@ * v4.z@ == 0) by (nonlinear_arith)
        requires
            i4.data[14]@ == 0,
    ;
    assert(i4.data[15]@ * v4.w@ == 65536 * v4.w@) by (nonlinear_arith)
        requires
            i4.data[15]@ == 65536,
    ;
    assert(i4.row_dot(v4, 3) == v4.w);
}

} // verus!
