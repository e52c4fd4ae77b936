//! Sine, cosine, tangent and arc cosine of fixed-point angles in radians.
//!
//! An angle is first reduced to one turn, then folded into the first
//! quadrant.  Up to an eighth of a turn the sine series is summed; beyond it
//! the cosine series of the complement.  The sine series runs to the ninth
//! power and the cosine series to the eighth; both are evaluated by Horner's
//! rule, so the sine of zero is exactly zero and the cosine of zero exactly
//! one.
use crate::fixed::Fixed;
use std::ops::Neg;
use vstd::prelude::*;

verus! {

/// Raw value of a full turn, `2 * pi`.
pub const TWO_PI_RAW: i32 = 411775;

/// Raw value of half a turn, `pi`.
pub const PI_RAW: i32 = 205887;

/// Raw value of a quarter turn, `pi / 2`.
pub const HALF_PI_RAW: i32 = 102944;

/// Raw value of an eighth of a turn, `pi / 4`.
pub const QUARTER_PI_RAW: i32 = 51472;

/// The raw angle reduced to one turn: at least zero and below `2 * pi`.
pub open spec fn reduce_raw(a: int) -> int {
    a % 411775
}

/// A number clamped to the range from zero to one.
pub open spec fn clamp_unit(v: Fixed) -> Fixed {
    if v@ < 0 {
        Fixed { raw: 0 }
    } else if v@ > 65536 {
        Fixed { raw: 65536 }
    } else {
        v
    }
}

/// `1 - x2 / n * inner`: one step of Horner's rule for either series.
pub open spec fn series_step(x2: Fixed, n: int, inner: Fixed) -> Fixed {
    Fixed { raw: 65536 }.minus(x2.times(inner).over(Fixed::of_raw(n * 65536)))
}

/// The sine series `x - x^3/3! + x^5/5! - x^7/7! + x^9/9!`.
pub open spec fn sin_series(x: Fixed) -> Fixed {
    let x2 = x.times(x);
    let one = Fixed { raw: 65536 };
    x.times(series_step(x2, 6, series_step(x2, 20, series_step(x2, 42, series_step(x2, 72, one)))))
}

/// The cosine series `1 - x^2/2! + x^4/4! - x^6/6! + x^8/8!`.
pub open spec fn cos_series(x: Fixed) -> Fixed {
    let x2 = x.times(x);
    let one = Fixed { raw: 65536 };
    series_step(x2, 2, series_step(x2, 12, series_step(x2, 30, series_step(x2, 56, one))))
}

/// The sine of an angle of the first quadrant, between zero and one.
pub open spec fn sin_quadrant(r: Fixed) -> Fixed {
    if r@ <= 51472 {
        clamp_unit(sin_series(r))
    } else {
        clamp_unit(cos_series(Fixed { raw: 102944 }.minus(r)))
    }
}

/// The sine of a raw angle that is reduced to one turn.
pub open spec fn sin_turn(r: int) -> Fixed {
    if r <= 102944 {
        sin_quadrant(Fixed::of_raw(r))
    } else if r <= 205887 {
        sin_quadrant(Fixed::of_raw(205887 - r))
    } else if r <= 308831 {
        sin_quadrant(Fixed::of_raw(r - 205887)).negated()
    } else {
        sin_quadrant(Fixed::of_raw(411775 - r)).negated()
    }
}

/// The cosine of a raw angle that is reduced to one turn.
pub open spec fn cos_turn(r: int) -> Fixed {
    if r <= 102944 {
        sin_quadrant(Fixed::of_raw(102944 - r))
    } else if r <= 205887 {
        sin_quadrant(Fixed::of_raw(r - 102944)).negated()
    } else if r <= 308831 {
        sin_quadrant(Fixed::of_raw(308831 - r)).negated()
    } else {
        sin_quadrant(Fixed::of_raw(r - 308831))
    }
}

/// Sine of the angle `x`.
pub open spec fn spec_sin(x: Fixed) -> Fixed {
    sin_turn(reduce_raw(x@))
}

/// Cosine of the angle `x`.
pub open spec fn spec_cos(x: Fixed) -> Fixed {
    cos_turn(reduce_raw(x@))
}

/// Tangent of the angle `x`: sine over cosine, saturated where the cosine is zero.
pub open spec fn spec_tan(x: Fixed) -> Fixed {
    spec_sin(x).over(spec_cos(x))
}

fn clamp_to_unit(v: Fixed) -> (r: Fixed)
    ensures
        r == clamp_unit(v),
        0 <= r@ <= 65536,
{
    if v.raw < 0 {
        Fixed::zero()
    } else if v.raw > 65536 {
        Fixed::one()
    } else {
        v
    }
}

fn step(x2: Fixed, n: i32, inner: Fixed) -> (r: Fixed)
    requires
        0 < n < 128,
    ensures
        r == series_step(x2, n as int, inner),
{
    Fixed::one() - x2 * inner / Fixed::from_raw(n * 65536)
}

fn sin_of_quadrant(r: Fixed) -> (s: Fixed)
    ensures
        s == sin_quadrant(r),
        0 <= s@ <= 65536,
{
    let one = Fixed::one();
    if r.raw <= QUARTER_PI_RAW {
        let x2 = r * r;
        clamp_to_unit(r * step(x2, 6, step(x2, 20, step(x2, 42, step(x2, 72, one)))))
    } else {
        let x = Fixed::from_raw(HALF_PI_RAW) - r;
        let x2 = x * x;
        clamp_to_unit(step(x2, 2, step(x2, 12, step(x2, 30, step(x2, 56, one)))))
    }
}

fn reduce(x: Fixed) -> (r: i32)
    ensures
        r == reduce_raw(x@),
        0 <= r < 411775,
{
    let shifted: i64 = x.raw as i64 + 2147818400;
    assert((x.raw as int + 5216 * 411775) % 411775 == x.raw as int % 411775) by (nonlinear_arith);
    (shifted % 411775) as i32
}

impl Fixed {
    /// Sine of the angle `self`, in radians.
    pub fn sin(self) -> (r: Fixed)
        ensures
            r == spec_sin(self),
            -65536 <= r@ <= 65536,
    {
        let r = reduce(self);
        if r <= HALF_PI_RAW {
            sin_of_quadrant(Fixed::from_raw(r))
        } else if r <= PI_RAW {
            sin_of_quadrant(Fixed::from_raw(PI_RAW - r))
        } else if r <= 308831 {
            sin_of_quadrant(Fixed::from_raw(r - PI_RAW)).neg()
        } else {
            sin_of_quadrant(Fixed::from_raw(TWO_PI_RAW - r)).neg()
        }
    }

    /// Cosine of the angle `self`, in radians.
    pub fn cos(self) -> (r: Fixed)
        ensures
            r == spec_cos(self),
            -65536 <= r@ <= 65536,
    {
        let r = reduce(self);
        if r <= HALF_PI_RAW {
            sin_of_quadrant(Fixed::from_raw(HALF_PI_RAW - r))
        } else if r <= PI_RAW {
            sin_of_quadrant(Fixed::from_raw(r - HALF_PI_RAW)).neg()
        } else if r <= 308831 {
            sin_of_quadrant(Fixed::from_raw(308831 - r)).neg()
        } else {
            sin_of_quadrant(Fixed::from_raw(r - 308831))
        }
    }

    /// Tangent of the angle `self`, in radians.
    pub fn tan(self) -> (r: Fixed)
        ensures
            r == spec_tan(self),
    {
        self.sin() / self.cos()
    }
}

/// The arc cosine of a number between zero and one, approximated by
/// `sqrt(1 - x) * (a0 + a1 x + a2 x^2 + a3 x^3)` with the coefficients of
/// Abramowitz and Stegun.
pub open spec fn acos_unit(x: Fixed) -> Fixed {
    let a0 = Fixed { raw: 102939 };
    let a1 = Fixed { raw: (-13901i32) };
    let a2 = Fixed { raw: 4867 };
    let a3 = Fixed { raw: (-1227i32) };
    let poly = a0.plus(x.times(a1.plus(x.times(a2.plus(x.times(a3))))));
    Fixed { raw: 65536 }.minus(x).spec_sqrt().times(poly)
}

/// A number clamped to the range from zero to half a turn.
pub open spec fn clamp_half_turn(v: Fixed) -> Fixed {
    if v@ < 0 {
        Fixed { raw: 0 }
    } else if v@ > 205887 {
        Fixed { raw: 205887 }
    } else {
        v
    }
}

/// Arc cosine of `x`, between zero and `pi`; `x` is taken as one where it is
/// above one and as minus one where it is below.
pub open spec fn spec_acos(x: Fixed) -> Fixed {
    if x@ >= 65536 {
        Fixed { raw: 0 }
    } else if x@ <= -65536 {
        Fixed { raw: 205887 }
    } else if x@ >= 0 {
        clamp_half_turn(acos_unit(x))
    } else {
        clamp_half_turn(Fixed { raw: 205887 }.minus(acos_unit(x.negated())))
    }
}

fn acos_of_unit(x: Fixed) -> (r: Fixed)
    ensures
        r == acos_unit(x),
{
    let a0 = Fixed::from_raw(102939);
    let a1 = Fixed::from_raw(-13901);
    let a2 = Fixed::from_raw(4867);
    let a3 = Fixed::from_raw(-1227);
    let poly = a0 + x * (a1 + x * (a2 + x * a3));
    (Fixed::one() - x).sqrt() * poly
}

fn clamp_to_half_turn(v: Fixed) -> (r: Fixed)
    ensures
        r == clamp_half_turn(v),
        0 <= r@ <= 205887,
{
    if v.raw < 0 {
        Fixed::zero()
    } else if v.raw > PI_RAW {
        Fixed::from_raw(PI_RAW)
    } else {
        v
    }
}

impl Fixed {
    /// Arc cosine of `self`, in radians between zero and `pi`.
    pub fn acos(self) -> (r: Fixed)
        ensures
            r == spec_acos(self),
            0 <= r@ <= 205887,
    {
        if self.raw >= 65536 {
            Fixed::zero()
        } else if self.raw <= -65536 {
            Fixed::from_raw(PI_RAW)
        } else if self.raw >= 0 {
            clamp_to_half_turn(acos_of_unit(self))
        } else {
            clamp_to_half_turn(Fixed::from_raw(PI_RAW) - acos_of_unit(self.neg()))
        }
    }
}

/// The sine of the zero angle is zero and its cosine is one.
pub proof fn lemma_trig_at_zero()
    ensures
        spec_sin(Fixed { raw: 0 })@ == 0,
        spec_cos(Fixed { raw: 0 })@ == 65536,
{
    let zero = Fixed { raw: 0 };
    let one = Fixed { raw: 65536 };
    assert(zero.times(zero) == zero);
    let x2 = zero;
    assert(series_step(x2, 56, one) == one);
    assert(series_step(x2, 30, one) == one);
    assert(series_step(x2, 12, one) == one);
    assert(series_step(x2, 2, one) == one);
    assert(cos_series(zero) == one);
    assert(sin_series(zero) == zero);
}

} // verus!
