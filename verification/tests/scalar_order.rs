use rusticvision::scalar::Scalar;

fn s(x: f32) -> Scalar {
    Scalar::from_bits(x.to_bits())
}

#[test]
fn order_matches_hardware_on_samples() {
    let samples: [f32; 15] = [
        f32::NEG_INFINITY,
        -1.0e30,
        -2.5,
        -1.0,
        -f32::MIN_POSITIVE,
        -1.0e-45,
        -0.0,
        0.0,
        1.0e-45,
        f32::MIN_POSITIVE,
        0.01,
        1.0,
        100.0,
        3.0e38,
        f32::INFINITY,
    ];
    for &a in samples.iter() {
        for &b in samples.iter() {
            assert_eq!(s(a).lt(s(b)), a < b);
            assert_eq!(s(a).le(s(b)), a <= b);
            assert_eq!(s(a).gt(s(b)), a > b);
            assert_eq!(s(a).ge(s(b)), a >= b);
            assert_eq!(s(a).same_value(s(b)), a == b);
        }
    }
}

#[test]
fn constants_are_the_values_they_name() {
    assert_eq!(f32::from_bits(Scalar::zero().to_bits()), 0.0);
    assert_eq!(f32::from_bits(Scalar::one().to_bits()), 1.0);
    assert_eq!(f32::from_bits(Scalar::infinity().to_bits()), f32::INFINITY);
    assert_eq!(f32::from_bits(Scalar::neg_infinity().to_bits()), f32::NEG_INFINITY);
    assert_eq!(f32::from_bits(Scalar::epsilon().to_bits()), f32::EPSILON);
    assert_eq!(f32::from_bits(rusticvision::renderer::TRACE_T_MIN_BITS), 0.01);
    assert_eq!(f32::from_bits(rusticvision::renderer::TRACE_T_MAX_BITS), 100.0);
    assert_eq!(f32::from_bits(rusticvision::renderer::EMISSIVE_GAIN_BITS), 5.0);
    assert_eq!(f32::from_bits(rusticvision::camera::DEFAULT_Z_NEAR_BITS), 0.1);
    assert_eq!(f32::from_bits(rusticvision::camera::DEFAULT_Z_FAR_BITS), 100.0);
    assert_eq!(f32::from_bits(rusticvision::camera::DEFAULT_FOV_BITS), 39.6);
    assert_eq!(f32::from_bits(rusticvision::camera::HALF_TURN_BITS), 180.0);
    assert_eq!(f32::from_bits(rusticvision::prelude::FACADE_Z_FAR_BITS), 1000.0);
}

#[test]
fn nan_compares_false_and_is_passed_over() {
    let nan = s(f32::NAN);
    let one = s(1.0);
    assert!(nan.is_nan());
    assert!(!one.is_nan());
    assert!(!nan.lt(one) && !one.lt(nan) && !nan.le(nan) && !nan.same_value(nan));
    assert_eq!(nan.min(one), one);
    assert_eq!(one.min(nan), one);
    assert_eq!(nan.max(one), one);
    assert_eq!(one.max(nan), one);
}

#[test]
fn min_and_max_pick_the_value() {
    let values: [f32; 7] = [-3.5, -0.0, 0.0, 1.0e-40, 2.0, 77.25, f32::INFINITY];
    for &a in values.iter() {
        for &b in values.iter() {
            assert_eq!(f32::from_bits(s(a).min(s(b)).to_bits()), a.min(b));
            assert_eq!(f32::from_bits(s(a).max(s(b)).to_bits()), a.max(b));
        }
    }
    assert_eq!(s(-0.0).min(s(0.0)), s(-0.0));
    assert_eq!(s(0.0).min(s(-0.0)), s(0.0));
    assert_eq!(f32::from_bits(s(-2.5).abs().to_bits()), 2.5);
    assert!(s(-0.0).is_zero() && s(0.0).is_zero() && !s(1.0e-45).is_zero());
    assert!(s(3.0e38).is_finite() && !s(f32::INFINITY).is_finite() && !s(f32::NAN).is_finite());
}

fn exact(x: f32) -> u8 {
    if x.is_nan() {
        return 0;
    }
    let scaled = (x as f64 * 255.0).floor();
    if scaled <= 0.0 {
        0
    } else if scaled >= 255.0 {
        255
    } else {
        scaled as u8
    }
}

#[test]
fn quantize_is_the_floor_of_the_exact_product() {
    let samples: [f32; 24] = [
        f32::NAN,
        f32::NEG_INFINITY,
        -300.0,
        -1.0,
        -0.5,
        -0.0,
        0.0,
        1.0e-45,
        1.0e-20,
        0.0039,
        0.003921569,
        0.0039215684,
        0.004,
        0.25,
        0.5,
        0.999,
        0.99999994,
        1.0,
        1.0000001,
        1.5,
        5.0,
        255.0,
        3.0e38,
        f32::INFINITY,
    ];
    for &x in samples.iter() {
        assert_eq!(s(x).quantize(), exact(x));
    }
    assert_eq!(s(0.5).quantize(), 127);
    assert_eq!(s(0.999).quantize(), 254);
    assert_eq!(s(0.99999994).quantize(), 254);
    assert_eq!(s(1.0).quantize(), 255);
    assert_eq!(s(0.0039215684).quantize(), 0);
    let mut bits: u32 = 0x3a00_0000;
    while bits < 0x4000_0000 {
        assert_eq!(Scalar::from_bits(bits).quantize(), exact(f32::from_bits(bits)));
        bits += 0x0000_1fff;
    }
}
