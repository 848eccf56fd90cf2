use fuzz::scalar::Scalar;
use fuzz::scalar::INFINITY_BITS;
use fuzz::scalar::ONE_BITS;
use fuzz::scalar::SIGN_BIT;

fn scalar_of(value: f32) -> Scalar {
    Scalar::from_bits(value.to_bits()).unwrap()
}

fn scalar_samples() -> Vec<f32> {
    vec![
        f32::NEG_INFINITY,
        f32::MIN,
        -1.0e30,
        -21.0,
        -1.0,
        -0.8,
        -1.0e-30,
        -f32::MIN_POSITIVE,
        -1.0e-45,
        -0.0,
        0.0,
        1.0e-45,
        f32::MIN_POSITIVE,
        1.0e-30,
        0.031622775,
        0.5,
        0.8,
        0.80000007,
        1.0,
        20.0,
        21.0,
        31.622776,
        1.0e30,
        f32::MAX,
        f32::INFINITY,
    ]
}

#[test]
fn constants_are_the_patterns_they_name() {
    assert_eq!(ONE_BITS, 1.0f32.to_bits());
    assert_eq!(INFINITY_BITS, f32::INFINITY.to_bits());
    assert_eq!(SIGN_BIT, (-0.0f32).to_bits());
    assert_eq!(Scalar::one().to_bits(), 1.0f32.to_bits());
    assert_eq!(Scalar::zero().to_bits(), 0.0f32.to_bits());
}

#[test]
fn nan_is_no_scalar() {
    assert!(Scalar::from_bits(f32::NAN.to_bits()).is_none());
    assert!(Scalar::from_bits(0x7f80_0001).is_none());
    assert!(Scalar::from_bits(0x7fff_ffff).is_none());
    assert!(Scalar::from_bits(0xff80_0001).is_none());
    assert!(Scalar::from_bits(0xffff_ffff).is_none());
    assert!(Scalar::from_bits((0.0f32 / 0.0f32).to_bits()).is_none());
}

#[test]
fn every_number_is_a_scalar_with_its_own_pattern() {
    for value in scalar_samples() {
        let scalar = Scalar::from_bits(value.to_bits());
        assert!(scalar.is_some());
        assert_eq!(scalar.unwrap().to_bits(), value.to_bits());
    }
    assert!(Scalar::from_bits(0x7f80_0000).is_some());
    assert!(Scalar::from_bits(0xff80_0000).is_some());
}

#[test]
fn keys_are_signed_magnitudes() {
    assert_eq!(scalar_of(0.0).key(), 0);
    assert_eq!(scalar_of(-0.0).key(), 0);
    assert_eq!(scalar_of(1.0).key(), 0x3f80_0000);
    assert_eq!(scalar_of(-1.0).key(), -0x3f80_0000);
    assert_eq!(scalar_of(0.8).key(), 0x3f4c_cccd);
    assert_eq!(scalar_of(f32::INFINITY).key(), 0x7f80_0000);
    assert_eq!(scalar_of(f32::NEG_INFINITY).key(), -0x7f80_0000);
    assert_eq!(scalar_of(1.0e-45).key(), 1);
}

#[test]
fn order_of_scalars_is_order_of_numbers() {
    let samples = scalar_samples();
    for a in &samples {
        for b in &samples {
            let (x, y) = (scalar_of(*a), scalar_of(*b));
            assert_eq!(x.lt(&y), a < b, "{} < {}", a, b);
            assert_eq!(x.le(&y), a <= b, "{} <= {}", a, b);
            assert_eq!(x.same_number(&y), a == b, "{} == {}", a, b);
        }
    }
}

#[test]
fn sign_of_scalars_is_sign_of_numbers() {
    for a in scalar_samples() {
        assert_eq!(scalar_of(a).is_positive(), a > 0.0, "{}", a);
    }
}

#[test]
fn both_zeros_are_one_number_and_two_patterns() {
    let plus = scalar_of(0.0);
    let minus = scalar_of(-0.0);
    assert!(plus.same_number(&minus));
    assert!(!plus.lt(&minus));
    assert!(!minus.lt(&plus));
    assert_ne!(plus, minus);
    assert!(!minus.is_positive());
}

#[test]
fn clamp_agrees_with_the_numbers() {
    let samples = scalar_samples();
    let (lo, hi) = (-1.0f32, 0.8f32);
    for a in samples {
        let clamped = scalar_of(a).clamp(scalar_of(lo), scalar_of(hi));
        assert_eq!(f32::from_bits(clamped.to_bits()), a.clamp(lo, hi), "{}", a);
    }
}

#[test]
fn clamp_hands_inner_values_back_bit_for_bit() {
    let lo = scalar_of(-1.0);
    let hi = scalar_of(1.0);
    assert_eq!(scalar_of(-0.0).clamp(lo, hi).to_bits(), (-0.0f32).to_bits());
    assert_eq!(scalar_of(0.25).clamp(lo, hi).to_bits(), 0.25f32.to_bits());
    assert_eq!(scalar_of(-1.0).clamp(lo, hi).to_bits(), (-1.0f32).to_bits());
    assert_eq!(scalar_of(1.0).clamp(lo, hi).to_bits(), 1.0f32.to_bits());
    assert_eq!(scalar_of(2.0).clamp(lo, hi), hi);
    assert_eq!(scalar_of(-2.0).clamp(lo, hi), lo);
    assert_eq!(scalar_of(f32::INFINITY).clamp(lo, hi), hi);
    assert_eq!(scalar_of(f32::NEG_INFINITY).clamp(lo, hi), lo);
}

#[test]
fn clamp_to_a_single_value() {
    let only = scalar_of(0.5);
    assert_eq!(scalar_of(0.1).clamp(only, only), only);
    assert_eq!(scalar_of(0.5).clamp(only, only), only);
    assert_eq!(scalar_of(0.9).clamp(only, only), only);
}
