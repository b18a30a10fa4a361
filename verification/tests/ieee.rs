use media_player::ieee::{Double, Single};

fn doubles() -> Vec<f64> {
    vec![
        0.0,
        -0.0,
        1.0,
        -1.0,
        0.5,
        -0.25,
        0.05,
        5e-324,
        -5e-324,
        2.2250738585072014e-308,
        1.7976931348623157e308,
        -1.7976931348623157e308,
        f64::INFINITY,
        f64::NEG_INFINITY,
        f64::NAN,
        f64::from_bits(0xfff8_0000_0000_0001),
        1.9999999999999998,
        59.999,
        3599.5,
        3600.0,
        4503599627370496.5,
        9007199254740993.0,
        9223372036854775808.0,
        18446744073709549568.0,
        18446744073709551616.0,
        1e30,
    ]
}

fn double(x: f64) -> Double {
    Double { bits: x.to_bits() }
}

fn single(x: f32) -> Single {
    Single { bits: x.to_bits() }
}

#[test]
fn doubles_are_told_apart_from_non_numbers() {
    for x in doubles() {
        assert_eq!(double(x).is_nan(), x.is_nan());
        assert_eq!(double(x).is_negative(), x < 0.0);
    }
}

#[test]
fn doubles_compare_by_value() {
    for x in doubles() {
        for y in doubles() {
            assert_eq!(double(x).is_greater(double(y)), x > y, "{} {}", x, y);
        }
    }
}

#[test]
fn smaller_double_is_chosen() {
    let cap = double(0.05);
    assert_eq!(double(0.01).min(cap), double(0.01));
    assert_eq!(double(0.06).min(cap), cap);
    assert_eq!(double(f64::NAN).min(cap), cap);
    assert_eq!(double(-3.0).min(cap), double(-3.0));
    assert_eq!(cap.min(double(f64::NAN)), cap);
}

#[test]
fn doubles_are_cut_down_to_whole_numbers() {
    for x in doubles() {
        assert_eq!(double(x).truncate(), x as u64, "{}", x);
    }
    let mut x = 0.3;
    while x < 1e25 {
        assert_eq!(double(x).truncate(), x as u64, "{}", x);
        x *= 1.7;
    }
}

#[test]
fn singles_compare_by_value() {
    let values = [
        0.0f32,
        -0.0,
        1.0,
        -1.0,
        1e-45,
        -1e-45,
        0.85,
        1.5,
        3.4e38,
        -3.4e38,
        f32::INFINITY,
        f32::NEG_INFINITY,
        f32::NAN,
    ];
    for x in values {
        assert_eq!(single(x).is_nan(), x.is_nan());
        for y in values {
            assert_eq!(single(x).is_greater(single(y)), x > y, "{} {}", x, y);
        }
    }
}
