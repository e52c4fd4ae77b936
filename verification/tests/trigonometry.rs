use rs_cpurenderer::fixed::Fixed;

fn fx(v: f64) -> Fixed {
    Fixed::from_raw((v * 65536.0) as i32)
}

fn err(a: Fixed, b: f64) -> f64 {
    (a.raw as f64 / 65536.0 - b).abs()
}

#[test]
fn exact_values() {
    assert_eq!(Fixed::zero().sin(), Fixed::zero());
    assert_eq!(Fixed::zero().cos(), Fixed::one());
    assert_eq!(Fixed::zero().tan(), Fixed::zero());
    // a quarter turn, as the library rounds it
    assert_eq!(Fixed::from_raw(102944).sin(), Fixed::one());
    assert_eq!(Fixed::from_raw(102944).cos(), Fixed::zero());
    assert_eq!(Fixed::one().acos(), Fixed::zero());
    assert_eq!(fx(2.0).acos(), Fixed::zero());
    assert_eq!(fx(-2.0).acos(), Fixed::from_raw(205887));
}

#[test]
fn sine_and_cosine_follow_the_functions() {
    let mut a = -10.0f64;
    while a < 10.0 {
        let x = fx(a);
        let exact = x.raw as f64 / 65536.0;
        assert!(err(x.sin(), exact.sin()) < 0.0002, "sin {}", a);
        assert!(err(x.cos(), exact.cos()) < 0.0002, "cos {}", a);
        a += 0.0137;
    }
}

#[test]
fn sine_and_cosine_stay_in_range() {
    for raw in [i32::MIN, -411775, -1, 0, 1, 51472, 51473, 102944, 205887, 308831, 411774, i32::MAX]
    {
        let x = Fixed::from_raw(raw);
        assert!(x.sin().raw.abs() <= 65536);
        assert!(x.cos().raw.abs() <= 65536);
    }
}

#[test]
fn tangent_is_sine_over_cosine() {
    let x = fx(0.5);
    assert_eq!(x.tan(), x.sin() / x.cos());
    assert!(err(x.tan(), 0.5f64.tan()) < 0.0005);
    // where the cosine is zero the tangent saturates
    assert_eq!(Fixed::from_raw(102944).tan(), Fixed::max_value());
}

#[test]
fn arc_cosine_follows_the_function() {
    let mut a = -1.0f64;
    while a <= 1.0 {
        let x = fx(a);
        let exact = x.raw as f64 / 65536.0;
        assert!(err(x.acos(), exact.acos()) < 0.0005, "acos {}", a);
        a += 0.0093;
    }
}
