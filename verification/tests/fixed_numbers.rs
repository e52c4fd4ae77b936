use rs_cpurenderer::fixed::Fixed;

fn fx(v: f64) -> Fixed {
    Fixed::from_raw((v * 65536.0) as i32)
}

#[test]
fn one_is_two_to_the_sixteenth() {
    assert_eq!(Fixed::one().raw, 65536);
    assert_eq!(Fixed::from_int(3).raw, 3 * 65536);
    assert_eq!(Fixed::from_u32(7).raw, 7 * 65536);
    assert_eq!(Fixed::from_ratio(1, 4).raw, 16384);
    assert_eq!(Fixed::zero(), Fixed::default());
}

#[test]
fn products_round_toward_zero() {
    // 1/65536 * 0.5 is below the resolution on either side of zero
    assert_eq!((Fixed::from_raw(1) * fx(0.5)).raw, 0);
    assert_eq!((Fixed::from_raw(-1) * fx(0.5)).raw, 0);
    assert_eq!((Fixed::from_raw(3) * fx(0.5)).raw, 1);
    assert_eq!((Fixed::from_raw(-3) * fx(0.5)).raw, -1);
    assert_eq!(fx(1.5) * fx(-2.0), fx(-3.0));
}

#[test]
fn quotients_round_toward_zero() {
    assert_eq!((fx(1.0) / fx(3.0)).raw, 21845);
    assert_eq!((fx(-1.0) / fx(3.0)).raw, -21845);
    assert_eq!((fx(1.0) / fx(-3.0)).raw, -21845);
    assert_eq!((fx(-1.0) / fx(-3.0)).raw, 21845);
    assert_eq!(fx(7.0) / fx(2.0), fx(3.5));
}

#[test]
fn results_out_of_range_are_clamped() {
    let big = Fixed::from_int(30000);
    assert_eq!(big + big, Fixed::max_value());
    assert_eq!(-big - big, Fixed::min_value());
    assert_eq!(big * big, Fixed::max_value());
    assert_eq!(big * -big, Fixed::min_value());
    assert_eq!(-Fixed::min_value(), Fixed::max_value());
    assert_eq!(Fixed::from_int(40000), Fixed::max_value());
    assert_eq!(Fixed::from_int(-40000), Fixed::min_value());
    assert_eq!(Fixed::min_value().abs(), Fixed::max_value());
}

#[test]
fn division_by_zero_saturates_by_sign() {
    assert_eq!(fx(2.0) / Fixed::zero(), Fixed::max_value());
    assert_eq!(fx(-2.0) / Fixed::zero(), Fixed::min_value());
    assert_eq!(Fixed::zero() / Fixed::zero(), Fixed::zero());
    assert_eq!(fx(2.0).mul_div(fx(-1.0), Fixed::zero()), Fixed::min_value());
}

#[test]
fn mul_div_rounds_once() {
    // 1 * 1 / 3 and 2 * 1 / 3 with a single rounding
    assert_eq!(fx(1.0).mul_div(fx(1.0), fx(3.0)).raw, 21845);
    assert_eq!(fx(2.0).mul_div(fx(1.0), fx(3.0)).raw, 43690);
    assert_eq!(fx(10.0).mul_div(fx(0.5), fx(5.0)), fx(1.0));
}

#[test]
fn rounding_to_integers() {
    assert_eq!(fx(2.5).floor(), 2);
    assert_eq!(fx(-2.5).floor(), -3);
    assert_eq!(fx(2.5).ceil(), 3);
    assert_eq!(fx(-2.5).ceil(), -2);
    assert_eq!(fx(2.5).trunc(), 2);
    assert_eq!(fx(-2.5).trunc(), -2);
    assert_eq!(fx(3.0).floor(), 3);
    assert_eq!(fx(3.0).ceil(), 3);
    assert_eq!(Fixed::max_value().ceil(), 32768);
    assert_eq!(Fixed::min_value().floor(), -32768);
}

#[test]
fn square_root_rounds_down() {
    assert_eq!(fx(4.0).sqrt(), fx(2.0));
    assert_eq!(fx(0.25).sqrt(), fx(0.5));
    assert_eq!(fx(2.0).sqrt().raw, 92681);
    assert_eq!(Fixed::zero().sqrt(), Fixed::zero());
    assert_eq!(fx(-4.0).sqrt(), Fixed::zero());
    let r = Fixed::max_value().sqrt();
    assert_eq!(r.raw, 11863283);
}

#[test]
fn absolute_value() {
    assert_eq!(fx(-1.5).abs(), fx(1.5));
    assert_eq!(fx(1.5).abs(), fx(1.5));
}
