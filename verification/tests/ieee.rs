use kyutaistt::ieee::{Binary32, Binary64};

fn single(x: f32) -> Binary32 {
    Binary32 { bits: x.to_bits() }
}

fn double(x: f64) -> Binary64 {
    Binary64 { bits: x.to_bits() }
}

const NUMBERS: [f64; 22] = [
    0.0,
    -0.0,
    1.0,
    -1.0,
    0.5,
    0.005,
    0.004999999999999999,
    1e-320,
    -1e-320,
    5e-324,
    1.7976931348623157e308,
    -1.7976931348623157e308,
    2.2250738585072014e-308,
    1919.9999999999998,
    24000.7,
    9007199254740993.0,
    9.223372036854775e18,
    1.8446744073709552e19,
    3.5e20,
    f64::INFINITY,
    f64::NEG_INFINITY,
    f64::NAN,
];

#[test]
fn comparison_is_that_of_the_numbers() {
    for a in NUMBERS {
        for b in NUMBERS {
            assert_eq!(double(a).lt(double(b)), a < b, "{a} < {b}");
            assert_eq!(double(a).gt(double(b)), a > b, "{a} > {b}");
        }
    }
}

#[test]
fn casts_drop_the_fraction_and_stay_in_range() {
    for a in NUMBERS {
        assert_eq!(double(a).to_usize(), a as usize, "{a}");
        assert_eq!(double(a).to_i64(), a as i64, "{a}");
        assert_eq!(double(-a).to_i64(), -a as i64, "-{a}");
    }
    assert_eq!(double(2.99).to_usize(), 2);
    assert_eq!(double(-2.99).to_usize(), 0);
    assert_eq!(double(-2.99).to_i64(), -2);
    assert_eq!(double(-9.3e18).to_i64(), i64::MIN);
}

#[test]
fn every_sample_is_encoded_exactly() {
    for sample in i16::MIN..=i16::MAX {
        let expected = sample as f32 / 32768.0;
        assert_eq!(Binary32::from_sample(sample), single(expected), "{sample}");
    }
}

#[test]
fn widening_keeps_the_number() {
    let numbers: [f32; 12] = [
        0.0,
        -0.0,
        1.0,
        -0.6,
        0.7,
        1e-45,
        -1e-40,
        1.17549435e-38,
        3.4028235e38,
        f32::INFINITY,
        f32::NEG_INFINITY,
        0.1,
    ];
    for x in numbers {
        assert_eq!(single(x).widen(), double(x as f64), "{x}");
    }
    assert!(f64::from_bits(single(f32::NAN).widen().bits).is_nan());
}

#[test]
fn zero_and_one_are_what_they_say() {
    assert_eq!(Binary64::zero(), double(0.0));
    assert_eq!(Binary64::one(), double(1.0));
}
