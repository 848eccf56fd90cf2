use fuzz::scalar::Scalar;
use fuzz::shaper::ceiling;
use fuzz::shaper::clip;
use fuzz::shaper::CEILING_BITS;
use fuzz::shaper::DRIVE_BITS;

fn shaper_value(value: f32) -> Scalar {
    Scalar::from_bits(value.to_bits()).unwrap()
}

/// The whole stage as a caller calculates it around the limiter.
fn shaper_process(sample: f32, fuzz: f32, gain: f32) -> f32 {
    let shaped = sample + sample * fuzz * f32::from_bits(DRIVE_BITS);
    let limited = match Scalar::from_bits(shaped.to_bits()) {
        Some(shaped) => f32::from_bits(clip(shaped).to_bits()),
        None => shaped,
    };
    limited * gain
}

#[test]
fn the_constants_of_the_stage() {
    assert_eq!(DRIVE_BITS, 20.0f32.to_bits());
    assert_eq!(CEILING_BITS, 0.8f32.to_bits());
    assert_eq!(ceiling().to_bits(), 0.8f32.to_bits());
}

#[test]
fn a_sample_over_the_ceiling_becomes_the_ceiling() {
    assert_eq!(clip(shaper_value(21.0)).to_bits(), 0.8f32.to_bits());
    assert_eq!(clip(shaper_value(0.80000007)).to_bits(), 0.8f32.to_bits());
    assert_eq!(clip(shaper_value(f32::MAX)).to_bits(), 0.8f32.to_bits());
    assert_eq!(clip(shaper_value(f32::INFINITY)).to_bits(), 0.8f32.to_bits());
}

#[test]
fn a_sample_up_to_the_ceiling_passes_bit_for_bit() {
    for value in [0.8f32, 0.79999995, 0.5, 1.0e-45, 0.0, -0.0, -0.5, -0.8] {
        assert_eq!(clip(shaper_value(value)).to_bits(), value.to_bits(), "{}", value);
    }
}

#[test]
fn there_is_no_floor() {
    for value in [-0.80000007f32, -1.0, -21.0, f32::MIN, f32::NEG_INFINITY] {
        assert_eq!(clip(shaper_value(value)).to_bits(), value.to_bits(), "{}", value);
    }
}

#[test]
fn the_limiter_agrees_with_the_comparison_of_numbers() {
    let mut value = -30.0f32;
    while value < 30.0 {
        let expected = if value > 0.8 { 0.8 } else { value };
        assert_eq!(f32::from_bits(clip(shaper_value(value)).to_bits()), expected, "{}", value);
        value += 0.037;
    }
}

#[test]
fn limiting_twice_is_limiting_once() {
    for value in [21.0f32, 0.8, 0.3, -21.0] {
        let once = clip(shaper_value(value));
        assert_eq!(clip(once), once);
    }
}

#[test]
fn full_drive_on_a_loud_sample_gives_the_ceiling() {
    let shaped = 1.0f32 + 1.0 * 1.0 * f32::from_bits(DRIVE_BITS);
    assert_eq!(shaped, 21.0);
    assert_eq!(f32::from_bits(clip(shaper_value(shaped)).to_bits()), 0.8);
    assert_eq!(shaper_process(1.0, 1.0, 1.0), 0.8);
    assert_eq!(shaper_process(1.0, 1.0, 2.0), 1.6);
    assert_eq!(shaper_process(0.5, 1.0, 0.5), 0.4);
    assert_eq!(shaper_process(0.04, 1.0, 1.0), 0.8);
}

#[test]
fn full_drive_on_a_negative_sample_is_not_limited() {
    assert_eq!(shaper_process(-1.0, 1.0, 1.0), -21.0);
    assert_eq!(shaper_process(-1.0, 1.0, 0.5), -10.5);
    assert_eq!(shaper_process(-0.5, 0.5, 1.0), -5.5);
}

#[test]
fn without_drive_and_at_unit_gain_quiet_samples_pass_unchanged() {
    for sample in [0.8f32, 0.5, 0.25, 1.0e-20, 0.0, -0.0, -0.3, -0.8, -1.0, -5.0] {
        assert_eq!(shaper_process(sample, 0.0, 1.0).to_bits(), sample.to_bits(), "{}", sample);
    }
}

#[test]
fn without_drive_a_sample_over_the_ceiling_is_still_limited() {
    assert_eq!(shaper_process(1.0, 0.0, 1.0), 0.8);
    assert_eq!(shaper_process(0.9, 0.0, 1.0), 0.8);
}

#[test]
fn a_sample_that_is_not_a_number_is_not_limited() {
    assert!(Scalar::from_bits(f32::NAN.to_bits()).is_none());
    assert!(shaper_process(f32::NAN, 1.0, 1.0).is_nan());
}
