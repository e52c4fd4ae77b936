//! Quaternions with a scalar part and a vector part.
use crate::fixed::Fixed;
use crate::math::vector::Vec3;
use std::ops::Neg;
use vstd::prelude::*;

verus! {

/// The quaternion `s + v.x i + v.y j + v.z k`.
#[derive(Clone, Copy, Debug, PartialEq, Eq, Structural)]
pub struct Quaternion {
    pub s: Fixed,
    pub v: Vec3,
}

impl Quaternion {
    /// Both parts multiplied by `k`.
    pub open spec fn scaled(self, k: Fixed) -> Quaternion {
        Quaternion { s: k.times(self.s), v: self.v.scaled(k) }
    }

    /// Both parts divided by `k`.
    pub open spec fn divided(self, k: Fixed) -> Quaternion {
        Quaternion { s: self.s.over(k), v: self.v.divided(k) }
    }

    /// Sum, part by part.
    pub open spec fn plus(self, rhs: Quaternion) -> Quaternion {
        Quaternion { s: self.s.plus(rhs.s), v: self.v.plus(rhs.v) }
    }

    /// Both parts negated.
    pub open spec fn negated(self) -> Quaternion {
        Quaternion { s: self.s.negated(), v: self.v.negated() }
    }

    /// Difference: the sum with the negated right side.
    pub open spec fn minus(self, rhs: Quaternion) -> Quaternion {
        self.plus(rhs.negated())
    }

    /// Squared length.
    pub open spec fn spec_length_square(self) -> Fixed {
        self.s.times(self.s).plus(self.v.spec_length_square())
    }

    /// Length, rounded down.
    pub open spec fn spec_length(self) -> Fixed {
        self.spec_length_square().spec_sqrt()
    }

    /// The same scalar part with the negated vector part.
    pub open spec fn spec_conjugate(self) -> Quaternion {
        Quaternion { s: self.s, v: self.v.negated() }
    }

    /// The Hamilton product.
    pub open spec fn spec_mul(self, rhs: Quaternion) -> Quaternion {
        Quaternion {
            s: self.s.times(rhs.s).minus(self.v.spec_dot(rhs.v)),
            v: rhs.v.scaled(self.s).plus(self.v.scaled(rhs.s)).plus(self.v.spec_cross(rhs.v)),
        }
    }

    /// The conjugate divided by the length.
    pub open spec fn spec_inverse(self) -> Quaternion {
        self.spec_conjugate().divided(self.spec_length())
    }

    pub fn length_square(&self) -> (r: Fixed)
        ensures
            r == self.spec_length_square(),
    {
        self.s * self.s + self.v.length_square()
    }

    pub fn length(&self) -> (r: Fixed)
        ensures
            r == self.spec_length(),
    {
        self.length_square().sqrt()
    }

    pub fn conjugate(&self) -> (r: Quaternion)
        ensures
            r == self.spec_conjugate(),
    {
        Quaternion { s: self.s, v: self.v.neg() }
    }

    /// The Hamilton product.
    pub fn mul(&self, rhs: &Quaternion) -> (r: Quaternion)
        ensures
            r == self.spec_mul(*rhs),
    {
        Quaternion {
            s: self.s * rhs.s - self.v.dot(&rhs.v),
            v: self.s * rhs.v + self.v * rhs.s + self.v.cross(&rhs.v),
        }
    }

    /// The conjugate divided by the length; a zero quaternion saturates.
    pub fn inverse(&self) -> (r: Quaternion)
        ensures
            r == self.spec_inverse(),
    {
        self.conjugate() / self.length()
    }
}

impl std::ops::Mul<Fixed> for Quaternion {
    type Output = Quaternion;

    fn mul(self, rhs: Fixed) -> (r: Quaternion) {
        Quaternion { s: rhs * self.s, v: rhs * self.v }
    }
}

impl vstd::std_specs::ops::MulSpecImpl<Fixed> for Quaternion {
    open spec fn obeys_mul_spec() -> bool {
        true
    }

    open spec fn mul_req(self, rhs: Fixed) -> bool {
        true
    }

    open spec fn mul_spec(self, rhs: Fixed) -> Quaternion {
        self.scaled(rhs)
    }
}

impl std::ops::Mul<Quaternion> for Fixed {
    type Output = Quaternion;

    fn mul(self, rhs: Quaternion) -> (r: Quaternion) {
        rhs * self
    }
}

impl vstd::std_specs::ops::MulSpecImpl<Quaternion> for Fixed {
    open spec fn obeys_mul_spec() -> bool {
        true
    }

    open spec fn mul_req(self, rhs: Quaternion) -> bool {
        true
    }

    open spec fn mul_spec(self, rhs: Quaternion) -> Quaternion {
        rhs.scaled(self)
    }
}

impl std::ops::Div<Fixed> for Quaternion {
    type Output = Quaternion;

    fn div(self, rhs: Fixed) -> (r: Quaternion) {
        Quaternion { s: self.s / rhs, v: self.v / rhs }
    }
}

impl vstd::std_specs::ops::DivSpecImpl<Fixed> for Quaternion {
    open spec fn obeys_div_spec() -> bool {
        true
    }

    open spec fn div_req(self, rhs: Fixed) -> bool {
        true
    }

    open spec fn div_spec(self, rhs: Fixed) -> Quaternion {
        self.divided(rhs)
    }
}

impl std::ops::Add for Quaternion {
    type Output = Quaternion;

    fn add(self, rhs: Quaternion) -> (r: Quaternion) {
        Quaternion { s: self.s + rhs.s, v: self.v + rhs.v }
    }
}

impl vstd::std_specs::ops::AddSpecImpl for Quaternion {
    open spec fn obeys_add_spec() -> bool {
        true
    }

    open spec fn add_req(self, rhs: Quaternion) -> bool {
        true
    }

    open spec fn add_spec(self, rhs: Quaternion) -> Quaternion {
        self.plus(rhs)
    }
}

impl std::ops::Neg for Quaternion {
    type Output = Quaternion;

    fn neg(self) -> (r: Quaternion) {
        Quaternion { s: self.s.neg(), v: self.v.neg() }
    }
}

impl vstd::std_specs::ops::NegSpecImpl for Quaternion {
    open spec fn obeys_neg_spec() -> bool {
        true
    }

    open spec fn neg_req(self) -> bool {
        true
    }

    open spec fn neg_spec(self) -> Quaternion {
        self.negated()
    }
}

impl std::ops::Sub for Quaternion {
    type Output = Quaternion;

    fn sub(self, rhs: Quaternion) -> (r: Quaternion) {
        self + rhs.neg()
    }
}

impl vstd::std_specs::ops::SubSpecImpl for Quaternion {
    open spec fn obeys_sub_spec() -> bool {
        true
    }

    open spec fn sub_req(self, rhs: Quaternion) -> bool {
        true
    }

    open spec fn sub_spec(self, rhs: Quaternion) -> Quaternion {
        self.minus(rhs)
    }
}

} // verus!
