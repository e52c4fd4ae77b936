//! The numbers of a scene file.
//!
//! An index is a run of decimal digits, which a plus sign may precede.  A
//! number is a decimal fraction: a sign or none, digits, and after a point
//! more digits, with at least one digit before or after the point.  Of the
//! digits after the point the first nine count.  A number out of range is
//! clamped.  Exponents and the names of infinity are not read.
use crate::fixed::{sat, saturate, Fixed};
use crate::obj_loader::lexer::copy_range;
use vstd::prelude::*;

verus! {

/// Whether the byte is a decimal digit.
pub open spec fn is_digit(b: u8) -> bool {
    48 <= b <= 57
}

/// Whether every byte is a decimal digit.
pub open spec fn all_digits(s: Seq<u8>) -> bool {
    forall|i: int| 0 <= i < s.len() ==> is_digit(#[trigger] s[i])
}

/// The number that a run of decimal digits writes; zero for no digit.
pub open spec fn digits_value(s: Seq<u8>) -> int
    decreases s.len(),
{
    if s.len() == 0 {
        0
    } else {
        digits_value(s.drop_last()) * 10 + (s.last() - 48)
    }
}

/// Ten to the power `k`.
pub open spec fn pow10(k: nat) -> int
    decreases k,
{
    if k == 0 {
        1
    } else {
        10 * pow10((k - 1) as nat)
    }
}

/// A run of digits writes a number below ten to the power of its length.
pub proof fn lemma_digits_bound(s: Seq<u8>)
    requires
        all_digits(s),
    ensures
        0 <= digits_value(s) < pow10(s.len()),
    decreases s.len(),
{
    if s.len() > 0 {
        assert forall|i: int| 0 <= i < s.drop_last().len() implies is_digit(
            #[trigger] s.drop_last()[i],
        ) by {
            assert(s.drop_last()[i] == s[i]);
        }
        lemma_digits_bound(s.drop_last());
        assert(is_digit(s[s.len() - 1]));
    }
}

/// The digits of an index: the word without a plus sign at its front.
pub open spec fn unsigned_digits(word: Seq<u8>) -> Seq<u8> {
    if word.len() > 0 && word[0] == 43 {
        word.drop_first()
    } else {
        word
    }
}

/// The integer that the word writes, if it writes one that is at most `max`.
pub open spec fn spec_unsigned(word: Seq<u8>, max: int) -> Option<int> {
    let d = unsigned_digits(word);
    if d.len() > 0 && all_digits(d) && digits_value(d) <= max {
        Some(digits_value(d))
    } else {
        None
    }
}

/// Whether the word starts with a sign.
pub open spec fn has_sign(word: Seq<u8>) -> bool {
    word.len() > 0 && (word[0] == 43 || word[0] == 45)
}

/// The word without its sign.
pub open spec fn unsigned_part(word: Seq<u8>) -> Seq<u8> {
    if has_sign(word) {
        word.drop_first()
    } else {
        word
    }
}

/// The place of the first point from `i` on, or the end of the word.
pub open spec fn point_place(s: Seq<u8>, i: int) -> int
    decreases s.len() - i,
{
    if i < 0 || i >= s.len() || s[i] == 46 {
        i
    } else {
        point_place(s, i + 1)
    }
}

/// What stands before the first point.
pub open spec fn int_part(m: Seq<u8>) -> Seq<u8> {
    m.take(point_place(m, 0))
}

/// What stands after the first point.
pub open spec fn frac_part(m: Seq<u8>) -> Seq<u8> {
    if point_place(m, 0) < m.len() {
        m.skip(point_place(m, 0) + 1)
    } else {
        Seq::empty()
    }
}

/// Whether the word is a decimal fraction.
pub open spec fn is_decimal(word: Seq<u8>) -> bool {
    let m = unsigned_part(word);
    &&& all_digits(int_part(m))
    &&& all_digits(frac_part(m))
    &&& int_part(m).len() + frac_part(m).len() > 0
}

/// The digits after the point that count: the first nine.
pub open spec fn counted(f: Seq<u8>) -> Seq<u8> {
    if f.len() > 9 {
        f.take(9)
    } else {
        f
    }
}

/// The raw value of the digits after the point, rounded down.
pub open spec fn fraction_raw(f: Seq<u8>) -> int {
    (digits_value(counted(f)) * 65536) / pow10(counted(f).len())
}

/// The raw value of a decimal fraction, clamped.
pub open spec fn decimal_raw(word: Seq<u8>) -> int {
    let m = unsigned_part(word);
    let v = digits_value(int_part(m)) * 65536 + fraction_raw(frac_part(m));
    sat(
        if word[0] == 45 {
            -v
        } else {
            v
        },
    )
}

/// The number that the word writes, if it is a decimal fraction.
pub open spec fn spec_decimal(word: Seq<u8>) -> Option<Fixed> {
    if is_decimal(word) {
        Some(Fixed::of_raw(decimal_raw(word)))
    } else {
        None
    }
}

fn only_digits(s: &[u8]) -> (r: bool)
    ensures
        r == all_digits(s@),
{
    let mut k: usize = 0;
    while k < s.len()
        invariant
            k <= s@.len(),
            forall|i: int| 0 <= i < k ==> is_digit(#[trigger] s@[i]),
        decreases s@.len() - k,
    {
        if s[k] < 48 || s[k] > 57 {
            return false;
        }
        k += 1;
    }
    true
}

/// The value of a run of digits, or `cap` where the value is above it.
fn capped_value(s: &[u8], cap: u64) -> (r: u64)
    requires
        all_digits(s@),
        cap <= 0xffff_ffff_ffff,
    ensures
        r == (if digits_value(s@) < cap {
            digits_value(s@)
        } else {
            cap as int
        }),
{
    let mut acc: u64 = 0;
    let mut k: usize = 0;
    assert(s@.take(0) =~= Seq::<u8>::empty());
    while k < s.len()
        invariant
            k <= s@.len(),
            all_digits(s@),
            cap <= 0xffff_ffff_ffff,
            acc <= cap,
            0 <= digits_value(s@.take(k as int)),
            acc == (if digits_value(s@.take(k as int)) < cap {
                digits_value(s@.take(k as int))
            } else {
                cap as int
            }),
        decreases s@.len() - k,
    {
        let d: u64 = (s[k] - 48) as u64;
        proof {
            let next = s@.take(k + 1);
            assert(next.drop_last() =~= s@.take(k as int));
            assert(next.last() == s@[k as int]);
            assert(is_digit(s@[k as int]));
        }
        let grown: u64 = acc * 10 + d;
        acc = if grown < cap {
            grown
        } else {
            cap
        };
        k += 1;
    }
    assert(s@.take(s@.len() as int) =~= s@);
    acc
}

/// Reads an index that is at most `max`.
pub fn parse_unsigned(word: &[u8], max: u32) -> (r: Option<u32>)
    ensures
        r is Some <==> spec_unsigned(word@, max as int) is Some,
        r is Some ==> r->Some_0 == spec_unsigned(word@, max as int)->Some_0,
{
    let start: usize = if word.len() > 0 && word[0] == 43 {
        1
    } else {
        0
    };
    let digits = copy_range(word, start, word.len());
    assert(digits@ =~= unsigned_digits(word@));
    if digits.len() == 0 || !only_digits(digits.as_slice()) {
        return None;
    }
    let value = capped_value(digits.as_slice(), max as u64 + 1);
    if value > max as u64 {
        None
    } else {
        Some(value as u32)
    }
}

fn ten_to(k: usize) -> (r: u64)
    requires
        k <= 9,
    ensures
        r == pow10(k as nat),
{
    reveal_with_fuel(pow10, 11);
    if k == 0 {
        1
    } else if k == 1 {
        10
    } else if k == 2 {
        100
    } else if k == 3 {
        1000
    } else if k == 4 {
        10000
    } else if k == 5 {
        100000
    } else if k == 6 {
        1000000
    } else if k == 7 {
        10000000
    } else if k == 8 {
        100000000
    } else {
        1000000000
    }
}

fn find_point(m: &[u8]) -> (r: usize)
    ensures
        r == point_place(m@, 0),
        r <= m@.len(),
{
    let mut k: usize = 0;
    while k < m.len() && m[k] != 46
        invariant
            k <= m@.len(),
            point_place(m@, 0) == point_place(m@, k as int),
        decreases m@.len() - k,
    {
        k += 1;
    }
    k
}

/// Reads a decimal fraction.
pub fn parse_decimal(word: &[u8]) -> (r: Option<Fixed>)
    ensures
        r == spec_decimal(word@),
{
    let signed = word.len() > 0 && (word[0] == 43 || word[0] == 45);
    let negative = word.len() > 0 && word[0] == 45;
    let m = copy_range(word, if signed { 1 } else { 0 }, word.len());
    assert(m@ =~= unsigned_part(word@));
    let point = find_point(m.as_slice());
    let whole = copy_range(m.as_slice(), 0, point);
    assert(whole@ =~= int_part(m@));
    let fraction = if point < m.len() {
        copy_range(m.as_slice(), point + 1, m.len())
    } else {
        Vec::new()
    };
    assert(fraction@ =~= frac_part(m@));
    if !only_digits(whole.as_slice()) || !only_digits(fraction.as_slice()) || whole.len()
        + fraction.len() == 0 {
        return None;
    }
    let units = capped_value(whole.as_slice(), 32768);
    let places: usize = if fraction.len() > 9 {
        9
    } else {
        fraction.len()
    };
    let leading = copy_range(fraction.as_slice(), 0, places);
    assert(leading@ =~= counted(fraction@));
    proof {
        assert forall|i: int| 0 <= i < leading@.len() implies is_digit(#[trigger] leading@[i]) by {
            assert(leading@[i] == fraction@[i]);
        }
        lemma_digits_bound(leading@);
        lemma_digits_bound(whole@);
        reveal_with_fuel(pow10, 11);
    }
    let scale = ten_to(places);
    let part = capped_value(leading.as_slice(), 1000000000);
    assert(part == digits_value(leading@));
    assert(part * 65536 / (scale as int) < 65536 && part * 65536 < 0x1_0000_0000_0000) by (nonlinear_arith)
        requires
            0 <= part < scale,
            0 < scale <= 1000000000,
    ;
    let below: u64 = part * 65536 / scale;
    if units >= 32768 {
        assert(digits_value(whole@) * 65536 + fraction_raw(fraction@) >= 2147483648) by (nonlinear_arith)
            requires
                digits_value(whole@) >= 32768,
                fraction_raw(fraction@) >= 0,
        ;
        return Some(if negative { Fixed::min_value() } else { Fixed::max_value() });
    }
    let v: i64 = (units * 65536 + below) as i64;
    Some(Fixed::from_raw(saturate(if negative { -v } else { v })))
}

} // verus!
