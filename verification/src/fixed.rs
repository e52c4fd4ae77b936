//! Signed fixed-point numbers with sixteen fractional bits.
//!
//! Every quantity of the rasterizer (coordinates, depths, colours, matrix
//! entries) is a [`Fixed`].  A value is held as a raw `i32`; the number it
//! stands for is `raw / 65536`.  All operations are total: a result that does
//! not fit is clamped to the largest or smallest representable value, and a
//! product or quotient is rounded toward zero.  The contracts are stated over the raw
//! integers, with the spec functions of this module.
use vstd::prelude::*;
use std::ops::Neg;

verus! {

/// Raw representation of the number one.
pub const ONE_RAW: i32 = 65536;

/// Largest raw value.
pub const MAX_RAW: i32 = 2147483647;

/// Smallest raw value.
pub const MIN_RAW: i32 = i32::MIN;

/// Clamps an integer into the range of raw values.
pub open spec fn sat(v: int) -> int {
    if v > 2147483647 {
        2147483647
    } else if v < -2147483648 {
        -2147483648
    } else {
        v
    }
}

/// Integer quotient rounded toward zero; zero when the divisor is zero.
pub open spec fn trunc_div(n: int, d: int) -> int {
    if d == 0 {
        0
    } else if n >= 0 && d > 0 {
        n / d
    } else if n >= 0 {
        -(n / (-d))
    } else if d > 0 {
        -((-n) / d)
    } else {
        (-n) / (-d)
    }
}

/// The value to which a division by zero saturates: it keeps the sign of the
/// dividend.
pub open spec fn signed_max(n: int) -> int {
    if n > 0 {
        2147483647
    } else if n < 0 {
        -2147483648
    } else {
        0
    }
}

/// Raw sum.
pub open spec fn add_raw(a: int, b: int) -> int {
    sat(a + b)
}

/// Raw difference.
pub open spec fn sub_raw(a: int, b: int) -> int {
    sat(a - b)
}

/// Raw negation.
pub open spec fn neg_raw(a: int) -> int {
    sat(-a)
}

/// Raw product: the exact product, scaled back and rounded toward zero.
pub open spec fn mul_raw(a: int, b: int) -> int {
    sat(trunc_div(a * b, 65536))
}

/// Raw quotient, rounded toward zero.
pub open spec fn div_raw(a: int, b: int) -> int {
    if b == 0 {
        signed_max(a)
    } else {
        sat(trunc_div(a * 65536, b))
    }
}

/// Raw value of `a * b / c`, computed with a single rounding.
pub open spec fn mul_div_raw(a: int, b: int, c: int) -> int {
    if c == 0 {
        signed_max(a * b)
    } else {
        sat(trunc_div(a * b, c))
    }
}

/// Largest integer that is not above the number with raw value `a`.
pub open spec fn floor_raw(a: int) -> int {
    a / 65536
}

/// Smallest integer that is not below the number with raw value `a`.
pub open spec fn ceil_raw(a: int) -> int {
    (a + 65535) / 65536
}

/// The number with raw value `a`, rounded toward zero to an integer.
pub open spec fn trunc_raw(a: int) -> int {
    trunc_div(a, 65536)
}

/// A fixed-point number; `raw` is the number times 65536.
#[derive(Clone, Copy, Debug, PartialEq, Eq, PartialOrd, Ord, Hash, Structural)]
pub struct Fixed {
    pub raw: i32,
}

impl View for Fixed {
    type V = int;

    open spec fn view(&self) -> int {
        self.raw as int
    }
}

/// Clamps a wide intermediate result to a raw value.
pub fn saturate(v: i64) -> (r: i32)
    ensures
        r == sat(v as int),
{
    if v > 2147483647 {
        2147483647
    } else if v < -2147483648 {
        MIN_RAW
    } else {
        v as i32
    }
}

/// Quotient of two wide integers, rounded toward zero.
pub fn trunc_div_i64(n: i64, d: i64) -> (q: i64)
    requires
        d != 0,
        n > i64::MIN,
        d > i64::MIN,
    ensures
        q == trunc_div(n as int, d as int),
        -q <= i64::MAX,
{
    let an: i64 = if n < 0 { -n } else { n };
    let ad: i64 = if d < 0 { -d } else { d };
    let q: i64 = an / ad;
    assert(0 <= q <= an) by (nonlinear_arith)
        requires
            q == an as int / ad as int,
            an >= 0,
            ad > 0,
    ;
    if (n < 0) != (d < 0) {
        -q
    } else {
        q
    }
}

impl Fixed {
    /// The number whose raw value is `v`, for `v` in the range of raw values.
    pub open spec fn of_raw(v: int) -> Fixed {
        Fixed { raw: v as i32 }
    }

    /// Sum, clamped.
    pub open spec fn plus(self, rhs: Fixed) -> Fixed {
        Fixed::of_raw(add_raw(self@, rhs@))
    }

    /// Difference, clamped.
    pub open spec fn minus(self, rhs: Fixed) -> Fixed {
        Fixed::of_raw(sub_raw(self@, rhs@))
    }

    /// Product, rounded toward zero and clamped.
    pub open spec fn times(self, rhs: Fixed) -> Fixed {
        Fixed::of_raw(mul_raw(self@, rhs@))
    }

    /// Quotient, rounded toward zero and clamped.
    pub open spec fn over(self, rhs: Fixed) -> Fixed {
        Fixed::of_raw(div_raw(self@, rhs@))
    }

    /// Negation, clamped.
    pub open spec fn negated(self) -> Fixed {
        Fixed::of_raw(neg_raw(self@))
    }

    /// `self * num / den` with one rounding.
    pub open spec fn spec_mul_div(self, num: Fixed, den: Fixed) -> Fixed {
        Fixed::of_raw(mul_div_raw(self@, num@, den@))
    }

    /// Absolute value.
    pub open spec fn spec_abs(self) -> Fixed {
        if self@ < 0 {
            self.negated()
        } else {
            self
        }
    }

    /// The number with the given raw representation.
    pub fn from_raw(raw: i32) -> (r: Fixed)
        ensures
            r.raw == raw,
    {
        Fixed { raw }
    }

    /// The integer `v`, clamped to the representable range.
    pub fn from_int(v: i32) -> (r: Fixed)
        ensures
            r@ == sat(v as int * 65536),
    {
        Fixed { raw: saturate(v as i64 * 65536) }
    }

    /// The unsigned integer `v`, clamped to the representable range.
    pub fn from_u32(v: u32) -> (r: Fixed)
        ensures
            r@ == sat(v as int * 65536),
    {
        Fixed { raw: saturate(v as i64 * 65536) }
    }

    /// The fraction `num / den`, rounded toward zero.
    pub fn from_ratio(num: i32, den: i32) -> (r: Fixed)
        ensures
            r@ == mul_div_raw(num as int, 65536, den as int),
    {
        if den == 0 {
            let n: i64 = num as i64 * 65536;
            Fixed { raw: if n > 0 { MAX_RAW } else if n < 0 { MIN_RAW } else { 0 } }
        } else {
            Fixed { raw: saturate(trunc_div_i64(num as i64 * 65536, den as i64)) }
        }
    }

    /// Zero.
    pub fn zero() -> (r: Fixed)
        ensures
            r@ == 0,
    {
        Fixed { raw: 0 }
    }

    /// One.
    pub fn one() -> (r: Fixed)
        ensures
            r@ == 65536,
    {
        Fixed { raw: ONE_RAW }
    }

    /// The largest number.
    pub fn max_value() -> (r: Fixed)
        ensures
            r@ == 2147483647,
    {
        Fixed { raw: MAX_RAW }
    }

    /// The smallest number; it marks a cleared depth cell.
    pub fn min_value() -> (r: Fixed)
        ensures
            r@ == -2147483648,
    {
        Fixed { raw: MIN_RAW }
    }

    /// `self * num / den` with a single rounding toward zero.  A zero `den`
    /// gives the largest number with the sign of the product.
    pub fn mul_div(self, num: Fixed, den: Fixed) -> (r: Fixed)
        ensures
            r == self.spec_mul_div(num, den),
    {
        let a: i64 = self.raw as i64;
        let b: i64 = num.raw as i64;
        proof {
            lemma_product_bound(a as int, b as int, 0x8000_0000, 0x8000_0000);
        }
        let p: i64 = a * b;
        if den.raw == 0 {
            Fixed { raw: if p > 0 { MAX_RAW } else if p < 0 { MIN_RAW } else { 0 } }
        } else {
            Fixed { raw: saturate(trunc_div_i64(p, den.raw as i64)) }
        }
    }

    /// Absolute value.
    pub fn abs(self) -> (r: Fixed)
        ensures
            r == self.spec_abs(),
    {
        if self.raw < 0 {
            Fixed { raw: saturate(-(self.raw as i64)) }
        } else {
            self
        }
    }

    /// Largest integer not above `self`.
    pub fn floor(self) -> (r: i32)
        ensures
            r == floor_raw(self@),
            -32768 <= r <= 32767,
    {
        let a: i64 = self.raw as i64 + 2147483648;
        let q: i64 = a / 65536;
        assert(self.raw as int / 65536 == q - 32768) by {
            assert(a == self.raw as int + 32768 * 65536);
            lemma_div_shift(self.raw as int, 32768);
        }
        (q - 32768) as i32
    }

    /// Smallest integer not below `self`.
    pub fn ceil(self) -> (r: i32)
        ensures
            r == ceil_raw(self@),
            -32768 <= r <= 32768,
    {
        let a: i64 = self.raw as i64 + 65535 + 2147483648;
        let q: i64 = a / 65536;
        assert((self.raw as int + 65535) / 65536 == q - 32768) by {
            lemma_div_shift(self.raw as int + 65535, 32768);
        }
        (q - 32768) as i32
    }

    /// `self` rounded toward zero to an integer.
    pub fn trunc(self) -> (r: i32)
        ensures
            r == trunc_raw(self@),
            -32768 <= r <= 32767,
    {
        trunc_div_i64(self.raw as i64, 65536) as i32
    }
}

/// Quotient of two very wide integers, rounded toward zero.
pub fn trunc_div_i128(n: i128, d: i128) -> (q: i128)
    requires
        d != 0,
        n > i128::MIN,
        d > i128::MIN,
    ensures
        q == trunc_div(n as int, d as int),
{
    let an: i128 = if n < 0 { -n } else { n };
    let ad: i128 = if d < 0 { -d } else { d };
    let q: i128 = an / ad;
    assert(0 <= q <= an) by (nonlinear_arith)
        requires
            q == an as int / ad as int,
            an >= 0,
            ad > 0,
    ;
    if (n < 0) != (d < 0) {
        -q
    } else {
        q
    }
}

/// Clamps a very wide intermediate result to a raw value.
pub fn saturate_i128(v: i128) -> (r: i32)
    ensures
        r == sat(v as int),
{
    if v > 2147483647 {
        2147483647
    } else if v < -2147483648 {
        MIN_RAW
    } else {
        v as i32
    }
}

/// Raw value of `a0 * b0 + a1 * b1`, the exact sum rounded once.
pub open spec fn dot2_raw(a0: int, b0: int, a1: int, b1: int) -> int {
    sat(trunc_div(a0 * b0 + a1 * b1, 65536))
}

/// Raw value of `a0 * b0 + a1 * b1 + a2 * b2`, the exact sum rounded once.
pub open spec fn dot3_raw(a0: int, b0: int, a1: int, b1: int, a2: int, b2: int) -> int {
    sat(trunc_div(a0 * b0 + a1 * b1 + a2 * b2, 65536))
}

/// Raw value of `a0 * b0 + a1 * b1 + a2 * b2 + a3 * b3`, the exact sum rounded once.
pub open spec fn dot4_raw(
    a0: int,
    b0: int,
    a1: int,
    b1: int,
    a2: int,
    b2: int,
    a3: int,
    b3: int,
) -> int {
    sat(trunc_div(a0 * b0 + a1 * b1 + a2 * b2 + a3 * b3, 65536))
}

/// Raw value of `a * d - b * c`, the exact difference rounded once.
pub open spec fn det2_raw(a: int, d: int, b: int, c: int) -> int {
    sat(trunc_div(a * d - b * c, 65536))
}

/// `a0 * b0 + a1 * b1`, rounded once.
pub open spec fn spec_dot2(a0: Fixed, b0: Fixed, a1: Fixed, b1: Fixed) -> Fixed {
    Fixed::of_raw(dot2_raw(a0@, b0@, a1@, b1@))
}

/// `a0 * b0 + a1 * b1 + a2 * b2`, rounded once.
pub open spec fn spec_dot3(a0: Fixed, b0: Fixed, a1: Fixed, b1: Fixed, a2: Fixed, b2: Fixed) -> Fixed {
    Fixed::of_raw(dot3_raw(a0@, b0@, a1@, b1@, a2@, b2@))
}

/// `a0 * b0 + a1 * b1 + a2 * b2 + a3 * b3`, rounded once.
pub open spec fn spec_dot4(
    a0: Fixed,
    b0: Fixed,
    a1: Fixed,
    b1: Fixed,
    a2: Fixed,
    b2: Fixed,
    a3: Fixed,
    b3: Fixed,
) -> Fixed {
    Fixed::of_raw(dot4_raw(a0@, b0@, a1@, b1@, a2@, b2@, a3@, b3@))
}

/// `a * d - b * c`, rounded once.
pub open spec fn spec_det2(a: Fixed, d: Fixed, b: Fixed, c: Fixed) -> Fixed {
    Fixed::of_raw(det2_raw(a@, d@, b@, c@))
}

/// The exact product of two raw values, as a wide integer.
pub fn wide_mul(a: Fixed, b: Fixed) -> (p: i128)
    ensures
        p == a@ * b@,
        -0x4000_0000_0000_0000 <= p <= 0x4000_0000_0000_0000,
{
    let x: i128 = a.raw as i128;
    let y: i128 = b.raw as i128;
    proof {
        lemma_product_bound(x as int, y as int, 0x8000_0000, 0x8000_0000);
    }
    x * y
}

/// `a0 * b0 + a1 * b1`, rounded once toward zero and clamped.
pub fn dot2(a0: Fixed, b0: Fixed, a1: Fixed, b1: Fixed) -> (r: Fixed)
    ensures
        r == spec_dot2(a0, b0, a1, b1),
{
    let s: i128 = wide_mul(a0, b0) + wide_mul(a1, b1);
    Fixed { raw: saturate_i128(trunc_div_i128(s, 65536)) }
}

/// `a0 * b0 + a1 * b1 + a2 * b2`, rounded once toward zero and clamped.
pub fn dot3(a0: Fixed, b0: Fixed, a1: Fixed, b1: Fixed, a2: Fixed, b2: Fixed) -> (r: Fixed)
    ensures
        r == spec_dot3(a0, b0, a1, b1, a2, b2),
{
    let s: i128 = wide_mul(a0, b0) + wide_mul(a1, b1) + wide_mul(a2, b2);
    Fixed { raw: saturate_i128(trunc_div_i128(s, 65536)) }
}

/// `a0 * b0 + a1 * b1 + a2 * b2 + a3 * b3`, rounded once toward zero and clamped.
pub fn dot4(
    a0: Fixed,
    b0: Fixed,
    a1: Fixed,
    b1: Fixed,
    a2: Fixed,
    b2: Fixed,
    a3: Fixed,
    b3: Fixed,
) -> (r: Fixed)
    ensures
        r == spec_dot4(a0, b0, a1, b1, a2, b2, a3, b3),
{
    let s: i128 = wide_mul(a0, b0) + wide_mul(a1, b1) + wide_mul(a2, b2) + wide_mul(a3, b3);
    Fixed { raw: saturate_i128(trunc_div_i128(s, 65536)) }
}

/// `a * d - b * c`, rounded once toward zero and clamped.
pub fn det2(a: Fixed, d: Fixed, b: Fixed, c: Fixed) -> (r: Fixed)
    ensures
        r == spec_det2(a, d, b, c),
{
    let s: i128 = wide_mul(a, d) - wide_mul(b, c);
    Fixed { raw: saturate_i128(trunc_div_i128(s, 65536)) }
}

impl std::ops::Add for Fixed {
    type Output = Fixed;

    fn add(self, rhs: Fixed) -> (r: Fixed) {
        Fixed { raw: saturate(self.raw as i64 + rhs.raw as i64) }
    }
}

impl vstd::std_specs::ops::AddSpecImpl for Fixed {
    open spec fn obeys_add_spec() -> bool {
        true
    }

    open spec fn add_req(self, rhs: Fixed) -> bool {
        true
    }

    open spec fn add_spec(self, rhs: Fixed) -> Fixed {
        self.plus(rhs)
    }
}

impl std::ops::Sub for Fixed {
    type Output = Fixed;

    fn sub(self, rhs: Fixed) -> (r: Fixed) {
        Fixed { raw: saturate(self.raw as i64 - rhs.raw as i64) }
    }
}

impl vstd::std_specs::ops::SubSpecImpl for Fixed {
    open spec fn obeys_sub_spec() -> bool {
        true
    }

    open spec fn sub_req(self, rhs: Fixed) -> bool {
        true
    }

    open spec fn sub_spec(self, rhs: Fixed) -> Fixed {
        self.minus(rhs)
    }
}

impl std::ops::Mul for Fixed {
    type Output = Fixed;

    fn mul(self, rhs: Fixed) -> (r: Fixed) {
        let a: i64 = self.raw as i64;
        let b: i64 = rhs.raw as i64;
        proof {
            lemma_product_bound(a as int, b as int, 0x8000_0000, 0x8000_0000);
        }
        Fixed { raw: saturate(trunc_div_i64(a * b, 65536)) }
    }
}

impl vstd::std_specs::ops::MulSpecImpl for Fixed {
    open spec fn obeys_mul_spec() -> bool {
        true
    }

    open spec fn mul_req(self, rhs: Fixed) -> bool {
        true
    }

    open spec fn mul_spec(self, rhs: Fixed) -> Fixed {
        self.times(rhs)
    }
}

/// Dividing by zero gives the largest number with the sign of the dividend,
/// and zero for zero.
impl std::ops::Div for Fixed {
    type Output = Fixed;

    fn div(self, rhs: Fixed) -> (r: Fixed) {
        if rhs.raw == 0 {
            Fixed { raw: if self.raw > 0 { MAX_RAW } else if self.raw < 0 { MIN_RAW } else { 0 } }
        } else {
            Fixed { raw: saturate(trunc_div_i64(self.raw as i64 * 65536, rhs.raw as i64)) }
        }
    }
}

impl vstd::std_specs::ops::DivSpecImpl for Fixed {
    open spec fn obeys_div_spec() -> bool {
        true
    }

    open spec fn div_req(self, rhs: Fixed) -> bool {
        true
    }

    open spec fn div_spec(self, rhs: Fixed) -> Fixed {
        self.over(rhs)
    }
}

impl std::ops::Neg for Fixed {
    type Output = Fixed;

    fn neg(self) -> (r: Fixed) {
        Fixed { raw: saturate(-(self.raw as i64)) }
    }
}

impl vstd::std_specs::ops::NegSpecImpl for Fixed {
    open spec fn obeys_neg_spec() -> bool {
        true
    }

    open spec fn neg_req(self) -> bool {
        true
    }

    open spec fn neg_spec(self) -> Fixed {
        self.negated()
    }
}

impl Default for Fixed {
    fn default() -> (r: Fixed)
        ensures
            r@ == 0,
    {
        Fixed { raw: 0 }
    }
}

/// The product of two bounded integers is bounded by the product of the bounds.
pub proof fn lemma_product_bound(a: int, b: int, ma: int, mb: int)
    requires
        -ma <= a <= ma,
        -mb <= b <= mb,
    ensures
        -(ma * mb) <= a * b <= ma * mb,
{
    assert(-(ma * mb) <= a * b <= ma * mb) by (nonlinear_arith)
        requires
            -ma <= a <= ma,
            -mb <= b <= mb,
    ;
}

/// Adding a multiple of the divisor shifts a floored quotient by that multiple.
pub proof fn lemma_div_shift(a: int, k: int)
    ensures
        (a + k * 65536) / 65536 == a / 65536 + k,
{
    assert((a + k * 65536) / 65536 == a / 65536 + k) by (nonlinear_arith);
}

/// Integer square root: the largest `r` with `r * r <= n`.
pub open spec fn isqrt(n: nat) -> nat
    decreases n,
{
    if n == 0 {
        0
    } else {
        let r = isqrt((n - 1) as nat);
        if (r + 1) * (r + 1) <= n {
            r + 1
        } else {
            r
        }
    }
}

/// `isqrt(n)` is the one number whose square is at most `n` while the square
/// of its successor is above `n`.
pub proof fn lemma_isqrt_bounds(n: nat)
    ensures
        isqrt(n) * isqrt(n) <= n < (isqrt(n) + 1) * (isqrt(n) + 1),
    decreases n,
{
    if n > 0 {
        lemma_isqrt_bounds((n - 1) as nat);
        let r = isqrt((n - 1) as nat);
        let s = isqrt(n);
        assert(r * r <= n - 1 < (r + 1) * (r + 1));
        if (r + 1) * (r + 1) <= n {
            assert(s == r + 1);
            assert((r + 1) * (r + 1) == n);
            assert(n < (r + 1 + 1) * (r + 1 + 1)) by (nonlinear_arith)
                requires
                    (r + 1) * (r + 1) == n,
            ;
            assert(s * s <= n < (s + 1) * (s + 1));
        } else {
            assert(s == r);
            assert(s * s <= n < (s + 1) * (s + 1));
        }
    } else {
        let s = isqrt(n);
        assert(s == 0);
        assert(s * s <= n < (s + 1) * (s + 1)) by (nonlinear_arith)
            requires
                s == 0,
                n == 0,
        ;
    }
}

/// Any number squeezed like the integer square root is the integer square root.
pub proof fn lemma_isqrt_unique(n: nat, r: nat)
    requires
        r * r <= n < (r + 1) * (r + 1),
    ensures
        r == isqrt(n),
{
    lemma_isqrt_bounds(n);
    let s = isqrt(n);
    assert(r == s) by (nonlinear_arith)
        requires
            r * r <= n < (r + 1) * (r + 1),
            s * s <= n < (s + 1) * (s + 1),
    ;
}

/// Raw square root: of a negative number it is zero.
pub open spec fn sqrt_raw(a: int) -> int {
    if a <= 0 {
        0
    } else {
        isqrt((a * 65536) as nat) as int
    }
}

impl Fixed {
    /// Square root, rounded down; zero for a negative number.
    pub open spec fn spec_sqrt(self) -> Fixed {
        Fixed::of_raw(sqrt_raw(self@))
    }

    /// Square root, rounded down; zero for a negative number.
    pub fn sqrt(self) -> (r: Fixed)
        ensures
            r == self.spec_sqrt(),
    {
        if self.raw <= 0 {
            return Fixed { raw: 0 };
        }
        let n: u64 = self.raw as u64 * 65536;
        let mut lo: u64 = 0;
        let mut hi: u64 = 16777216;
        assert(n < 16777216 * 16777216);
        while hi - lo > 1
            invariant
                lo < hi <= 16777216,
                lo * lo <= n < hi * hi,
            decreases hi - lo,
        {
            let mid: u64 = lo + (hi - lo) / 2;
            assert(mid * mid < 16777216 * 16777216) by (nonlinear_arith)
                requires
                    0 <= mid < 16777216,
            ;
            if mid * mid <= n {
                lo = mid;
            } else {
                hi = mid;
            }
        }
        proof {
            lemma_isqrt_unique(n as nat, lo as nat);
        }
        Fixed { raw: lo as i32 }
    }
}

} // verus!
