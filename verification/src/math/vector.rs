//! Vectors of two, three and four fixed-point components.
//!
//! Arithmetic is componentwise.  Sums of products (`dot`, `cross`,
//! `length_square`) are formed exactly and rounded once.
use crate::fixed::{det2, dot2, dot3, dot4, spec_det2, spec_dot2, spec_dot3, spec_dot4, Fixed};
use std::ops::Neg;
use vstd::prelude::*;

verus! {

/// A vector of two components.
#[derive(Clone, Copy, Debug, PartialEq, Eq, Structural)]
pub struct Vec2 {
    pub x: Fixed,
    pub y: Fixed,
}

impl Vec2 {
    /// Componentwise sum.
    pub open spec fn plus(self, rhs: Vec2) -> Vec2 {
        Vec2 { x: self.x.plus(rhs.x), y: self.y.plus(rhs.y) }
    }

    /// Componentwise difference.
    pub open spec fn minus(self, rhs: Vec2) -> Vec2 {
        Vec2 { x: self.x.minus(rhs.x), y: self.y.minus(rhs.y) }
    }

    /// Componentwise product.
    pub open spec fn times(self, rhs: Vec2) -> Vec2 {
        Vec2 { x: self.x.times(rhs.x), y: self.y.times(rhs.y) }
    }

    /// Componentwise quotient.
    pub open spec fn over(self, rhs: Vec2) -> Vec2 {
        Vec2 { x: self.x.over(rhs.x), y: self.y.over(rhs.y) }
    }

    /// Every component negated.
    pub open spec fn negated(self) -> Vec2 {
        Vec2 { x: self.x.negated(), y: self.y.negated() }
    }

    /// Every component multiplied by `k`.
    pub open spec fn scaled(self, k: Fixed) -> Vec2 {
        Vec2 { x: self.x.times(k), y: self.y.times(k) }
    }

    /// Every component divided by `k`.
    pub open spec fn divided(self, k: Fixed) -> Vec2 {
        Vec2 { x: self.x.over(k), y: self.y.over(k) }
    }

    /// `k` divided by every component.
    pub open spec fn under(self, k: Fixed) -> Vec2 {
        Vec2 { x: k.over(self.x), y: k.over(self.y) }
    }

    /// Dot product, rounded once.
    pub open spec fn spec_dot(self, rhs: Vec2) -> Fixed {
        spec_dot2(self.x, rhs.x, self.y, rhs.y)
    }

    /// Squared length.
    pub open spec fn spec_length_square(self) -> Fixed {
        self.spec_dot(self)
    }

    /// Length, rounded down.
    pub open spec fn spec_length(self) -> Fixed {
        self.spec_length_square().spec_sqrt()
    }

    /// The vector divided by its length.
    pub open spec fn spec_normalize(self) -> Vec2 {
        self.divided(self.spec_length())
    }

    /// The zero vector.
    pub open spec fn spec_zero() -> Vec2 {
        Vec2 { x: Fixed { raw: 0 }, y: Fixed { raw: 0 } }
    }

    /// `f` applied to every component.
    pub open spec fn map(self, f: spec_fn(Fixed) -> Fixed) -> Vec2 {
        Vec2 { x: f(self.x), y: f(self.y) }
    }

    /// `f` applied to every pair of matching components.
    pub open spec fn zip(self, rhs: Vec2, f: spec_fn(Fixed, Fixed) -> Fixed) -> Vec2 {
        Vec2 { x: f(self.x, rhs.x), y: f(self.y, rhs.y) }
    }

    pub fn new(x: Fixed, y: Fixed) -> (r: Vec2)
        ensures
            r == (Vec2 { x: x, y: y }),
    {
        Vec2 { x: x, y: y }
    }

    pub fn zero() -> (r: Vec2)
        ensures
            r == Vec2::spec_zero(),
    {
        Vec2 { x: Fixed::zero(), y: Fixed::zero() }
    }

    pub fn length_square(&self) -> (r: Fixed)
        ensures
            r == self.spec_length_square(),
    {
        dot2(self.x, self.x, self.y, self.y)
    }

    pub fn length(&self) -> (r: Fixed)
        ensures
            r == self.spec_length(),
    {
        self.length_square().sqrt()
    }

    /// Dividing by a zero length saturates every component.
    pub fn normalize(&self) -> (r: Vec2)
        ensures
            r == self.spec_normalize(),
    {
        *self / self.length()
    }

    pub fn dot(&self, rhs: &Vec2) -> (r: Fixed)
        ensures
            r == self.spec_dot(*rhs),
    {
        dot2(self.x, rhs.x, self.y, rhs.y)
    }
}

impl Default for Vec2 {
    fn default() -> (r: Vec2)
        ensures
            r == Vec2::spec_zero(),
    {
        Vec2::zero()
    }
}

impl std::ops::Add for Vec2 {
    type Output = Vec2;

    fn add(self, rhs: Vec2) -> (r: Vec2) {
        Vec2 { x: self.x + rhs.x, y: self.y + rhs.y }
    }
}

impl vstd::std_specs::ops::AddSpecImpl for Vec2 {
    open spec fn obeys_add_spec() -> bool {
        true
    }

    open spec fn add_req(self, rhs: Vec2) -> bool {
        true
    }

    open spec fn add_spec(self, rhs: Vec2) -> Vec2 {
        self.plus(rhs)
    }
}

impl std::ops::Sub for Vec2 {
    type Output = Vec2;

    fn sub(self, rhs: Vec2) -> (r: Vec2) {
        Vec2 { x: self.x - rhs.x, y: self.y - rhs.y }
    }
}

impl vstd::std_specs::ops::SubSpecImpl for Vec2 {
    open spec fn obeys_sub_spec() -> bool {
        true
    }

    open spec fn sub_req(self, rhs: Vec2) -> bool {
        true
    }

    open spec fn sub_spec(self, rhs: Vec2) -> Vec2 {
        self.minus(rhs)
    }
}

impl std::ops::Mul for Vec2 {
    type Output = Vec2;

    fn mul(self, rhs: Vec2) -> (r: Vec2) {
        Vec2 { x: self.x * rhs.x, y: self.y * rhs.y }
    }
}

impl vstd::std_specs::ops::MulSpecImpl for Vec2 {
    open spec fn obeys_mul_spec() -> bool {
        true
    }

    open spec fn mul_req(self, rhs: Vec2) -> bool {
        true
    }

    open spec fn mul_spec(self, rhs: Vec2) -> Vec2 {
        self.times(rhs)
    }
}

impl std::ops::Div for Vec2 {
    type Output = Vec2;

    fn div(self, rhs: Vec2) -> (r: Vec2) {
        Vec2 { x: self.x / rhs.x, y: self.y / rhs.y }
    }
}

impl vstd::std_specs::ops::DivSpecImpl for Vec2 {
    open spec fn obeys_div_spec() -> bool {
        true
    }

    open spec fn div_req(self, rhs: Vec2) -> bool {
        true
    }

    open spec fn div_spec(self, rhs: Vec2) -> Vec2 {
        self.over(rhs)
    }
}

impl std::ops::Neg for Vec2 {
    type Output = Vec2;

    fn neg(self) -> (r: Vec2) {
        Vec2 { x: self.x.neg(), y: self.y.neg() }
    }
}

impl vstd::std_specs::ops::NegSpecImpl for Vec2 {
    open spec fn obeys_neg_spec() -> bool {
        true
    }

    open spec fn neg_req(self) -> bool {
        true
    }

    open spec fn neg_spec(self) -> Vec2 {
        self.negated()
    }
}

impl std::ops::Mul<Fixed> for Vec2 {
    type Output = Vec2;

    fn mul(self, rhs: Fixed) -> (r: Vec2) {
        Vec2 { x: self.x * rhs, y: self.y * rhs }
    }
}

impl vstd::std_specs::ops::MulSpecImpl<Fixed> for Vec2 {
    open spec fn obeys_mul_spec() -> bool {
        true
    }

    open spec fn mul_req(self, rhs: Fixed) -> bool {
        true
    }

    open spec fn mul_spec(self, rhs: Fixed) -> Vec2 {
        self.scaled(rhs)
    }
}

impl std::ops::Mul<Vec2> for Fixed {
    type Output = Vec2;

    fn mul(self, rhs: Vec2) -> (r: Vec2) {
        rhs * self
    }
}

impl vstd::std_specs::ops::MulSpecImpl<Vec2> for Fixed {
    open spec fn obeys_mul_spec() -> bool {
        true
    }

    open spec fn mul_req(self, rhs: Vec2) -> bool {
        true
    }

    open spec fn mul_spec(self, rhs: Vec2) -> Vec2 {
        rhs.scaled(self)
    }
}

impl std::ops::Div<Fixed> for Vec2 {
    type Output = Vec2;

    fn div(self, rhs: Fixed) -> (r: Vec2) {
        Vec2 { x: self.x / rhs, y: self.y / rhs }
    }
}

impl vstd::std_specs::ops::DivSpecImpl<Fixed> for Vec2 {
    open spec fn obeys_div_spec() -> bool {
        true
    }

    open spec fn div_req(self, rhs: Fixed) -> bool {
        true
    }

    open spec fn div_spec(self, rhs: Fixed) -> Vec2 {
        self.divided(rhs)
    }
}

impl std::ops::Div<Vec2> for Fixed {
    type Output = Vec2;

    fn div(self, rhs: Vec2) -> (r: Vec2) {
        Vec2 { x: self / rhs.x, y: self / rhs.y }
    }
}

impl vstd::std_specs::ops::DivSpecImpl<Vec2> for Fixed {
    open spec fn obeys_div_spec() -> bool {
        true
    }

    open spec fn div_req(self, rhs: Vec2) -> bool {
        true
    }

    open spec fn div_spec(self, rhs: Vec2) -> Vec2 {
        rhs.under(self)
    }
}

/// A vector of three components.
#[derive(Clone, Copy, Debug, PartialEq, Eq, Structural)]
pub struct Vec3 {
    pub x: Fixed,
    pub y: Fixed,
    pub z: Fixed,
}

impl Vec3 {
    /// Componentwise sum.
    pub open spec fn plus(self, rhs: Vec3) -> Vec3 {
        Vec3 { x: self.x.plus(rhs.x), y: self.y.plus(rhs.y), z: self.z.plus(rhs.z) }
    }

    /// Componentwise difference.
    pub open spec fn minus(self, rhs: Vec3) -> Vec3 {
        Vec3 { x: self.x.minus(rhs.x), y: self.y.minus(rhs.y), z: self.z.minus(rhs.z) }
    }

    /// Componentwise product.
    pub open spec fn times(self, rhs: Vec3) -> Vec3 {
        Vec3 { x: self.x.times(rhs.x), y: self.y.times(rhs.y), z: self.z.times(rhs.z) }
    }

    /// Componentwise quotient.
    pub open spec fn over(self, rhs: Vec3) -> Vec3 {
        Vec3 { x: self.x.over(rhs.x), y: self.y.over(rhs.y), z: self.z.over(rhs.z) }
    }

    /// Every component negated.
    pub open spec fn negated(self) -> Vec3 {
        Vec3 { x: self.x.negated(), y: self.y.negated(), z: self.z.negated() }
    }

    /// Every component multiplied by `k`.
    pub open spec fn scaled(self, k: Fixed) -> Vec3 {
        Vec3 { x: self.x.times(k), y: self.y.times(k), z: self.z.times(k) }
    }

    /// Every component divided by `k`.
    pub open spec fn divided(self, k: Fixed) -> Vec3 {
        Vec3 { x: self.x.over(k), y: self.y.over(k), z: self.z.over(k) }
    }

    /// `k` divided by every component.
    pub open spec fn under(self, k: Fixed) -> Vec3 {
        Vec3 { x: k.over(self.x), y: k.over(self.y), z: k.over(self.z) }
    }

    /// Dot product, rounded once.
    pub open spec fn spec_dot(self, rhs: Vec3) -> Fixed {
        spec_dot3(self.x, rhs.x, self.y, rhs.y, self.z, rhs.z)
    }

    /// Squared length.
    pub open spec fn spec_length_square(self) -> Fixed {
        self.spec_dot(self)
    }

    /// Length, rounded down.
    pub open spec fn spec_length(self) -> Fixed {
        self.spec_length_square().spec_sqrt()
    }

    /// The vector divided by its length.
    pub open spec fn spec_normalize(self) -> Vec3 {
        self.divided(self.spec_length())
    }

    /// The zero vector.
    pub open spec fn spec_zero() -> Vec3 {
        Vec3 { x: Fixed { raw: 0 }, y: Fixed { raw: 0 }, z: Fixed { raw: 0 } }
    }

    /// `f` applied to every component.
    pub open spec fn map(self, f: spec_fn(Fixed) -> Fixed) -> Vec3 {
        Vec3 { x: f(self.x), y: f(self.y), z: f(self.z) }
    }

    /// `f` applied to every pair of matching components.
    pub open spec fn zip(self, rhs: Vec3, f: spec_fn(Fixed, Fixed) -> Fixed) -> Vec3 {
        Vec3 { x: f(self.x, rhs.x), y: f(self.y, rhs.y), z: f(self.z, rhs.z) }
    }

    pub fn new(x: Fixed, y: Fixed, z: Fixed) -> (r: Vec3)
        ensures
            r == (Vec3 { x: x, y: y, z: z }),
    {
        Vec3 { x: x, y: y, z: z }
    }

    pub fn zero() -> (r: Vec3)
        ensures
            r == Vec3::spec_zero(),
    {
        Vec3 { x: Fixed::zero(), y: Fixed::zero(), z: Fixed::zero() }
    }

    pub fn length_square(&self) -> (r: Fixed)
        ensures
            r == self.spec_length_square(),
    {
        dot3(self.x, self.x, self.y, self.y, self.z, self.z)
    }

    pub fn length(&self) -> (r: Fixed)
        ensures
            r == self.spec_length(),
    {
        self.length_square().sqrt()
    }

    /// Dividing by a zero length saturates every component.
    pub fn normalize(&self) -> (r: Vec3)
        ensures
            r == self.spec_normalize(),
    {
        *self / self.length()
    }

    pub fn dot(&self, rhs: &Vec3) -> (r: Fixed)
        ensures
            r == self.spec_dot(*rhs),
    {
        dot3(self.x, rhs.x, self.y, rhs.y, self.z, rhs.z)
    }
}

impl Default for Vec3 {
    fn default() -> (r: Vec3)
        ensures
            r == Vec3::spec_zero(),
    {
        Vec3::zero()
    }
}

impl std::ops::Add for Vec3 {
    type Output = Vec3;

    fn add(self, rhs: Vec3) -> (r: Vec3) {
        Vec3 { x: self.x + rhs.x, y: self.y + rhs.y, z: self.z + rhs.z }
    }
}

impl vstd::std_specs::ops::AddSpecImpl for Vec3 {
    open spec fn obeys_add_spec() -> bool {
        true
    }

    open spec fn add_req(self, rhs: Vec3) -> bool {
        true
    }

    open spec fn add_spec(self, rhs: Vec3) -> Vec3 {
        self.plus(rhs)
    }
}

impl std::ops::Sub for Vec3 {
    type Output = Vec3;

    fn sub(self, rhs: Vec3) -> (r: Vec3) {
        Vec3 { x: self.x - rhs.x, y: self.y - rhs.y, z: self.z - rhs.z }
    }
}

impl vstd::std_specs::ops::SubSpecImpl for Vec3 {
    open spec fn obeys_sub_spec() -> bool {
        true
    }

    open spec fn sub_req(self, rhs: Vec3) -> bool {
        true
    }

    open spec fn sub_spec(self, rhs: Vec3) -> Vec3 {
        self.minus(rhs)
    }
}

impl std::ops::Mul for Vec3 {
    type Output = Vec3;

    fn mul(self, rhs: Vec3) -> (r: Vec3) {
        Vec3 { x: self.x * rhs.x, y: self.y * rhs.y, z: self.z * rhs.z }
    }
}

impl vstd::std_specs::ops::MulSpecImpl for Vec3 {
    open spec fn obeys_mul_spec() -> bool {
        true
    }

    open spec fn mul_req(self, rhs: Vec3) -> bool {
        true
    }

    open spec fn mul_spec(self, rhs: Vec3) -> Vec3 {
        self.times(rhs)
    }
}

impl std::ops::Div for Vec3 {
    type Output = Vec3;

    fn div(self, rhs: Vec3) -> (r: Vec3) {
        Vec3 { x: self.x / rhs.x, y: self.y / rhs.y, z: self.z / rhs.z }
    }
}

impl vstd::std_specs::ops::DivSpecImpl for Vec3 {
    open spec fn obeys_div_spec() -> bool {
        true
    }

    open spec fn div_req(self, rhs: Vec3) -> bool {
        true
    }

    open spec fn div_spec(self, rhs: Vec3) -> Vec3 {
        self.over(rhs)
    }
}

impl std::ops::Neg for Vec3 {
    type Output = Vec3;

    fn neg(self) -> (r: Vec3) {
        Vec3 { x: self.x.neg(), y: self.y.neg(), z: self.z.neg() }
    }
}

impl vstd::std_specs::ops::NegSpecImpl for Vec3 {
    open spec fn obeys_neg_spec() -> bool {
        true
    }

    open spec fn neg_req(self) -> bool {
        true
    }

    open spec fn neg_spec(self) -> Vec3 {
        self.negated()
    }
}

impl std::ops::Mul<Fixed> for Vec3 {
    type Output = Vec3;

    fn mul(self, rhs: Fixed) -> (r: Vec3) {
        Vec3 { x: self.x * rhs, y: self.y * rhs, z: self.z * rhs }
    }
}

impl vstd::std_specs::ops::MulSpecImpl<Fixed> for Vec3 {
    open spec fn obeys_mul_spec() -> bool {
        true
    }

    open spec fn mul_req(self, rhs: Fixed) -> bool {
        true
    }

    open spec fn mul_spec(self, rhs: Fixed) -> Vec3 {
        self.scaled(rhs)
    }
}

impl std::ops::Mul<Vec3> for Fixed {
    type Output = Vec3;

    fn mul(self, rhs: Vec3) -> (r: Vec3) {
        rhs * self
    }
}

impl vstd::std_specs::ops::MulSpecImpl<Vec3> for Fixed {
    open spec fn obeys_mul_spec() -> bool {
        true
    }

    open spec fn mul_req(self, rhs: Vec3) -> bool {
        true
    }

    open spec fn mul_spec(self, rhs: Vec3) -> Vec3 {
        rhs.scaled(self)
    }
}

impl std::ops::Div<Fixed> for Vec3 {
    type Output = Vec3;

    fn div(self, rhs: Fixed) -> (r: Vec3) {
        Vec3 { x: self.x / rhs, y: self.y / rhs, z: self.z / rhs }
    }
}

impl vstd::std_specs::ops::DivSpecImpl<Fixed> for Vec3 {
    open spec fn obeys_div_spec() -> bool {
        true
    }

    open spec fn div_req(self, rhs: Fixed) -> bool {
        true
    }

    open spec fn div_spec(self, rhs: Fixed) -> Vec3 {
        self.divided(rhs)
    }
}

impl std::ops::Div<Vec3> for Fixed {
    type Output = Vec3;

    fn div(self, rhs: Vec3) -> (r: Vec3) {
        Vec3 { x: self / rhs.x, y: self / rhs.y, z: self / rhs.z }
    }
}

impl vstd::std_specs::ops::DivSpecImpl<Vec3> for Fixed {
    open spec fn obeys_div_spec() -> bool {
        true
    }

    open spec fn div_req(self, rhs: Vec3) -> bool {
        true
    }

    open spec fn div_spec(self, rhs: Vec3) -> Vec3 {
        rhs.under(self)
    }
}

/// A vector of four components.
#[derive(Clone, Copy, Debug, PartialEq, Eq, Structural)]
pub struct Vec4 {
    pub x: Fixed,
    pub y: Fixed,
    pub z: Fixed,
    pub w: Fixed,
}

impl Vec4 {
    /// Componentwise sum.
    pub open spec fn plus(self, rhs: Vec4) -> Vec4 {
        Vec4 { x: self.x.plus(rhs.x), y: self.y.plus(rhs.y), z: self.z.plus(rhs.z), w: self.w.plus(rhs.w) }
    }

    /// Componentwise difference.
    pub open spec fn minus(self, rhs: Vec4) -> Vec4 {
        Vec4 { x: self.x.minus(rhs.x), y: self.y.minus(rhs.y), z: self.z.minus(rhs.z), w: self.w.minus(rhs.w) }
    }

    /// Componentwise product.
    pub open spec fn times(self, rhs: Vec4) -> Vec4 {
        Vec4 { x: self.x.times(rhs.x), y: self.y.times(rhs.y), z: self.z.times(rhs.z), w: self.w.times(rhs.w) }
    }

    /// Componentwise quotient.
    pub open spec fn over(self, rhs: Vec4) -> Vec4 {
        Vec4 { x: self.x.over(rhs.x), y: self.y.over(rhs.y), z: self.z.over(rhs.z), w: self.w.over(rhs.w) }
    }

    /// Every component negated.
    pub open spec fn negated(self) -> Vec4 {
        Vec4 { x: self.x.negated(), y: self.y.negated(), z: self.z.negated(), w: self.w.negated() }
    }

    /// Every component multiplied by `k`.
    pub open spec fn scaled(self, k: Fixed) -> Vec4 {
        Vec4 { x: self.x.times(k), y: self.y.times(k), z: self.z.times(k), w: self.w.times(k) }
    }

    /// Every component divided by `k`.
    pub open spec fn divided(self, k: Fixed) -> Vec4 {
        Vec4 { x: self.x.over(k), y: self.y.over(k), z: self.z.over(k), w: self.w.over(k) }
    }

    /// `k` divided by every component.
    pub open spec fn under(self, k: Fixed) -> Vec4 {
        Vec4 { x: k.over(self.x), y: k.over(self.y), z: k.over(self.z), w: k.over(self.w) }
    }

    /// Dot product, rounded once.
    pub open spec fn spec_dot(self, rhs: Vec4) -> Fixed {
        spec_dot4(self.x, rhs.x, self.y, rhs.y, self.z, rhs.z, self.w, rhs.w)
    }

    /// Squared length.
    pub open spec fn spec_length_square(self) -> Fixed {
        self.spec_dot(self)
    }

    /// Length, rounded down.
    pub open spec fn spec_length(self) -> Fixed {
        self.spec_length_square().spec_sqrt()
    }

    /// The vector divided by its length.
    pub open spec fn spec_normalize(self) -> Vec4 {
        self.divided(self.spec_length())
    }

    /// The zero vector.
    pub open spec fn spec_zero() -> Vec4 {
        Vec4 { x: Fixed { raw: 0 }, y: Fixed { raw: 0 }, z: Fixed { raw: 0 }, w: Fixed { raw: 0 } }
    }

    /// `f` applied to every component.
    pub open spec fn map(self, f: spec_fn(Fixed) -> Fixed) -> Vec4 {
        Vec4 { x: f(self.x), y: f(self.y), z: f(self.z), w: f(self.w) }
    }

    /// `f` applied to every pair of matching components.
    pub open spec fn zip(self, rhs: Vec4, f: spec_fn(Fixed, Fixed) -> Fixed) -> Vec4 {
        Vec4 { x: f(self.x, rhs.x), y: f(self.y, rhs.y), z: f(self.z, rhs.z), w: f(self.w, rhs.w) }
    }

    pub fn new(x: Fixed, y: Fixed, z: Fixed, w: Fixed) -> (r: Vec4)
        ensures
            r == (Vec4 { x: x, y: y, z: z, w: w }),
    {
        Vec4 { x: x, y: y, z: z, w: w }
    }

    pub fn zero() -> (r: Vec4)
        ensures
            r == Vec4::spec_zero(),
    {
        Vec4 { x: Fixed::zero(), y: Fixed::zero(), z: Fixed::zero(), w: Fixed::zero() }
    }

    pub fn length_square(&self) -> (r: Fixed)
        ensures
            r == self.spec_length_square(),
    {
        dot4(self.x, self.x, self.y, self.y, self.z, self.z, self.w, self.w)
    }

    pub fn length(&self) -> (r: Fixed)
        ensures
            r == self.spec_length(),
    {
        self.length_square().sqrt()
    }

    /// Dividing by a zero length saturates every component.
    pub fn normalize(&self) -> (r: Vec4)
        ensures
            r == self.spec_normalize(),
    {
        *self / self.length()
    }

    pub fn dot(&self, rhs: &Vec4) -> (r: Fixed)
        ensures
            r == self.spec_dot(*rhs),
    {
        dot4(self.x, rhs.x, self.y, rhs.y, self.z, rhs.z, self.w, rhs.w)
    }
}

impl Default for Vec4 {
    fn default() -> (r: Vec4)
        ensures
            r == Vec4::spec_zero(),
    {
        Vec4::zero()
    }
}

impl std::ops::Add for Vec4 {
    type Output = Vec4;

    fn add(self, rhs: Vec4) -> (r: Vec4) {
        Vec4 { x: self.x + rhs.x, y: self.y + rhs.y, z: self.z + rhs.z, w: self.w + rhs.w }
    }
}

impl vstd::std_specs::ops::AddSpecImpl for Vec4 {
    open spec fn obeys_add_spec() -> bool {
        true
    }

    open spec fn add_req(self, rhs: Vec4) -> bool {
        true
    }

    open spec fn add_spec(self, rhs: Vec4) -> Vec4 {
        self.plus(rhs)
    }
}

impl std::ops::Sub for Vec4 {
    type Output = Vec4;

    fn sub(self, rhs: Vec4) -> (r: Vec4) {
        Vec4 { x: self.x - rhs.x, y: self.y - rhs.y, z: self.z - rhs.z, w: self.w - rhs.w }
    }
}

impl vstd::std_specs::ops::SubSpecImpl for Vec4 {
    open spec fn obeys_sub_spec() -> bool {
        true
    }

    open spec fn sub_req(self, rhs: Vec4) -> bool {
        true
    }

    open spec fn sub_spec(self, rhs: Vec4) -> Vec4 {
        self.minus(rhs)
    }
}

impl std::ops::Mul for Vec4 {
    type Output = Vec4;

    fn mul(self, rhs: Vec4) -> (r: Vec4) {
        Vec4 { x: self.x * rhs.x, y: self.y * rhs.y, z: self.z * rhs.z, w: self.w * rhs.w }
    }
}

impl vstd::std_specs::ops::MulSpecImpl for Vec4 {
    open spec fn obeys_mul_spec() -> bool {
        true
    }

    open spec fn mul_req(self, rhs: Vec4) -> bool {
        true
    }

    open spec fn mul_spec(self, rhs: Vec4) -> Vec4 {
        self.times(rhs)
    }
}

impl std::ops::Div for Vec4 {
    type Output = Vec4;

    fn div(self, rhs: Vec4) -> (r: Vec4) {
        Vec4 { x: self.x / rhs.x, y: self.y / rhs.y, z: self.z / rhs.z, w: self.w / rhs.w }
    }
}

impl vstd::std_specs::ops::DivSpecImpl for Vec4 {
    open spec fn obeys_div_spec() -> bool {
        true
    }

    open spec fn div_req(self, rhs: Vec4) -> bool {
        true
    }

    open spec fn div_spec(self, rhs: Vec4) -> Vec4 {
        self.over(rhs)
    }
}

impl std::ops::Neg for Vec4 {
    type Output = Vec4;

    fn neg(self) -> (r: Vec4) {
        Vec4 { x: self.x.neg(), y: self.y.neg(), z: self.z.neg(), w: self.w.neg() }
    }
}

impl vstd::std_specs::ops::NegSpecImpl for Vec4 {
    open spec fn obeys_neg_spec() -> bool {
        true
    }

    open spec fn neg_req(self) -> bool {
        true
    }

    open spec fn neg_spec(self) -> Vec4 {
        self.negated()
    }
}

impl std::ops::Mul<Fixed> for Vec4 {
    type Output = Vec4;

    fn mul(self, rhs: Fixed) -> (r: Vec4) {
        Vec4 { x: self.x * rhs, y: self.y * rhs, z: self.z * rhs, w: self.w * rhs }
    }
}

impl vstd::std_specs::ops::MulSpecImpl<Fixed> for Vec4 {
    open spec fn obeys_mul_spec() -> bool {
        true
    }

    open spec fn mul_req(self, rhs: Fixed) -> bool {
        true
    }

    open spec fn mul_spec(self, rhs: Fixed) -> Vec4 {
        self.scaled(rhs)
    }
}

impl std::ops::Mul<Vec4> for Fixed {
    type Output = Vec4;

    fn mul(self, rhs: Vec4) -> (r: Vec4) {
        rhs * self
    }
}

impl vstd::std_specs::ops::MulSpecImpl<Vec4> for Fixed {
    open spec fn obeys_mul_spec() -> bool {
        true
    }

    open spec fn mul_req(self, rhs: Vec4) -> bool {
        true
    }

    open spec fn mul_spec(self, rhs: Vec4) -> Vec4 {
        rhs.scaled(self)
    }
}

impl std::ops::Div<Fixed> for Vec4 {
    type Output = Vec4;

    fn div(self, rhs: Fixed) -> (r: Vec4) {
        Vec4 { x: self.x / rhs, y: self.y / rhs, z: self.z / rhs, w: self.w / rhs }
    }
}

impl vstd::std_specs::ops::DivSpecImpl<Fixed> for Vec4 {
    open spec fn obeys_div_spec() -> bool {
        true
    }

    open spec fn div_req(self, rhs: Fixed) -> bool {
        true
    }

    open spec fn div_spec(self, rhs: Fixed) -> Vec4 {
        self.divided(rhs)
    }
}

impl std::ops::Div<Vec4> for Fixed {
    type Output = Vec4;

    fn div(self, rhs: Vec4) -> (r: Vec4) {
        Vec4 { x: self / rhs.x, y: self / rhs.y, z: self / rhs.z, w: self / rhs.w }
    }
}

impl vstd::std_specs::ops::DivSpecImpl<Vec4> for Fixed {
    open spec fn obeys_div_spec() -> bool {
        true
    }

    open spec fn div_req(self, rhs: Vec4) -> bool {
        true
    }

    open spec fn div_spec(self, rhs: Vec4) -> Vec4 {
        rhs.under(self)
    }
}

impl Vec2 {
    /// The scalar cross product `x * rhs.y - y * rhs.x`, rounded once.
    pub open spec fn spec_cross(self, rhs: Vec2) -> Fixed {
        spec_det2(self.x, rhs.y, self.y, rhs.x)
    }

    pub fn cross(&self, rhs: &Vec2) -> (r: Fixed)
        ensures
            r == self.spec_cross(*rhs),
    {
        det2(self.x, rhs.y, self.y, rhs.x)
    }

    pub fn x_axis() -> (r: Vec2)
        ensures
            r == (Vec2 { x: Fixed { raw: 65536 }, y: Fixed { raw: 0 } }),
    {
        Vec2 { x: Fixed::one(), y: Fixed::zero() }
    }

    pub fn y_axis() -> (r: Vec2)
        ensures
            r == (Vec2 { x: Fixed { raw: 0 }, y: Fixed { raw: 65536 } }),
    {
        Vec2 { x: Fixed::zero(), y: Fixed::one() }
    }
}

impl Vec3 {
    /// The cross product; each component is an exact difference of two
    /// products, rounded once.
    pub open spec fn spec_cross(self, rhs: Vec3) -> Vec3 {
        Vec3 {
            x: spec_det2(self.y, rhs.z, self.z, rhs.y),
            y: spec_det2(self.z, rhs.x, self.x, rhs.z),
            z: spec_det2(self.x, rhs.y, self.y, rhs.x),
        }
    }

    pub fn from_vec2(v: &Vec2, z: Fixed) -> (r: Vec3)
        ensures
            r == (Vec3 { x: v.x, y: v.y, z }),
    {
        Vec3 { x: v.x, y: v.y, z }
    }

    pub fn cross(&self, rhs: &Vec3) -> (r: Vec3)
        ensures
            r == self.spec_cross(*rhs),
    {
        Vec3 {
            x: det2(self.y, rhs.z, self.z, rhs.y),
            y: det2(self.z, rhs.x, self.x, rhs.z),
            z: det2(self.x, rhs.y, self.y, rhs.x),
        }
    }

    pub fn x_axis() -> (r: Vec3)
        ensures
            r == (Vec3 { x: Fixed { raw: 65536 }, y: Fixed { raw: 0 }, z: Fixed { raw: 0 } }),
    {
        Vec3 { x: Fixed::one(), y: Fixed::zero(), z: Fixed::zero() }
    }

    pub fn y_axis() -> (r: Vec3)
        ensures
            r == (Vec3 { x: Fixed { raw: 0 }, y: Fixed { raw: 65536 }, z: Fixed { raw: 0 } }),
    {
        Vec3 { x: Fixed::zero(), y: Fixed::one(), z: Fixed::zero() }
    }

    pub fn z_axis() -> (r: Vec3)
        ensures
            r == (Vec3 { x: Fixed { raw: 0 }, y: Fixed { raw: 0 }, z: Fixed { raw: 65536 } }),
    {
        Vec3 { x: Fixed::zero(), y: Fixed::zero(), z: Fixed::one() }
    }
}

impl Vec4 {
    /// The first three components.
    pub open spec fn xyz(self) -> Vec3 {
        Vec3 { x: self.x, y: self.y, z: self.z }
    }

    /// The first two components.
    pub open spec fn xy(self) -> Vec2 {
        Vec2 { x: self.x, y: self.y }
    }

    pub fn from_vec3(v: &Vec3, w: Fixed) -> (r: Vec4)
        ensures
            r == (Vec4 { x: v.x, y: v.y, z: v.z, w }),
    {
        Vec4 { x: v.x, y: v.y, z: v.z, w }
    }

    pub fn truncated_to_vec3(&self) -> (r: Vec3)
        ensures
            r == self.xyz(),
    {
        Vec3 { x: self.x, y: self.y, z: self.z }
    }

    pub fn truncated_to_vec2(&self) -> (r: Vec2)
        ensures
            r == self.xy(),
    {
        Vec2 { x: self.x, y: self.y }
    }
}

} // verus!
