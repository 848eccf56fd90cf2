use fuzz::range::Curve;
use fuzz::range::Range;
use fuzz::scalar::Scalar;

fn range_value(value: f32) -> Scalar {
    Scalar::from_bits(value.to_bits()).unwrap()
}

fn range_linear(min: f32, max: f32) -> Range {
    Range::Linear { min: range_value(min), max: range_value(max) }
}

fn range_skewed(min: f32, max: f32, factor: f32) -> Range {
    Range::Skewed { min: range_value(min), max: range_value(max), factor: range_value(factor) }
}

#[test]
fn ends_of_a_range() {
    let linear = range_linear(0.0, 1.0);
    assert_eq!(linear.min(), range_value(0.0));
    assert_eq!(linear.max(), range_value(1.0));
    let skewed = range_skewed(0.03125, 32.0, 0.2);
    assert_eq!(skewed.min(), range_value(0.03125));
    assert_eq!(skewed.max(), range_value(32.0));
}

#[test]
fn ranges_in_order_are_valid() {
    assert!(range_linear(0.0, 1.0).is_valid());
    assert!(range_linear(-1.0, 1.0).is_valid());
    assert!(range_linear(0.5, 0.5).is_valid());
    assert!(range_skewed(0.03125, 32.0, 0.2).is_valid());
    assert!(range_skewed(0.03125, 32.0, 1.0).is_valid());
    assert!(range_skewed(1.0, 1.0, 3.0).is_valid());
}

#[test]
fn ranges_out_of_order_are_not_valid() {
    assert!(!range_linear(1.0, 0.0).is_valid());
    assert!(!range_linear(0.0, -0.5).is_valid());
    assert!(!range_skewed(32.0, 0.03125, 0.2).is_valid());
}

#[test]
fn a_skew_factor_must_be_positive() {
    assert!(!range_skewed(0.0, 1.0, 0.0).is_valid());
    assert!(!range_skewed(0.0, 1.0, -0.0).is_valid());
    assert!(!range_skewed(0.0, 1.0, -2.0).is_valid());
    assert!(range_skewed(0.0, 1.0, 1.0e-45).is_valid());
}

#[test]
fn both_ends_belong_to_the_range() {
    let range = range_linear(-1.0, 2.0);
    assert!(range.includes(range_value(-1.0)));
    assert!(range.includes(range_value(2.0)));
    assert!(range.includes(range_value(0.0)));
    assert!(!range.includes(range_value(-1.0000001)));
    assert!(!range.includes(range_value(2.0000002)));
    assert!(!range.includes(range_value(f32::INFINITY)));
}

#[test]
fn clamp_brings_values_to_the_nearer_end() {
    let range = range_skewed(0.03125, 32.0, 0.2);
    assert_eq!(range.clamp(range_value(100.0)), range_value(32.0));
    assert_eq!(range.clamp(range_value(0.0)), range_value(0.03125));
    assert_eq!(range.clamp(range_value(-5.0)), range_value(0.03125));
    assert_eq!(range.clamp(range_value(1.5)), range_value(1.5));
    assert_eq!(range.clamp(range_value(32.0)), range_value(32.0));
}

#[test]
fn a_linear_range_has_the_linear_curve() {
    assert_eq!(range_linear(0.0, 1.0).curve(), Curve::Linear);
    assert_eq!(range_linear(-3.0, 7.0).curve(), Curve::Linear);
}

#[test]
fn a_skew_factor_of_one_is_the_linear_curve() {
    assert_eq!(range_skewed(0.0, 1.0, 1.0).curve(), Curve::Linear);
}

#[test]
fn a_skewed_range_has_a_power_curve() {
    assert_eq!(range_skewed(0.03125, 32.0, 0.2).curve(), Curve::Power(range_value(0.2)));
    assert_eq!(range_skewed(0.0, 1.0, 2.0).curve(), Curve::Power(range_value(2.0)));
    assert_eq!(range_skewed(0.0, 1.0, 0.99999994).curve(), Curve::Power(range_value(0.99999994)));
}

#[test]
fn a_range_of_one_value_is_constant() {
    assert_eq!(range_linear(0.5, 0.5).curve(), Curve::Constant(range_value(0.5)));
    assert_eq!(range_skewed(2.0, 2.0, 0.2).curve(), Curve::Constant(range_value(2.0)));
    assert_eq!(range_skewed(2.0, 2.0, 1.0).curve(), Curve::Constant(range_value(2.0)));
    assert_eq!(range_linear(-0.0, 0.0).curve(), Curve::Constant(range_value(-0.0)));
}

#[test]
fn the_curve_keeps_the_mapping_total() {
    // The caller's arithmetic, as the curve tells it; no case divides by a width of zero.
    let to_normalized = |range: &Range, value: f32| -> f32 {
        let min = f32::from_bits(range.min().to_bits());
        let max = f32::from_bits(range.max().to_bits());
        match range.curve() {
            Curve::Constant(_) => 0.0,
            Curve::Linear => (value - min) / (max - min),
            Curve::Power(factor) => {
                ((value - min) / (max - min)).powf(f32::from_bits(factor.to_bits()))
            }
        }
    };
    let to_real = |range: &Range, position: f32| -> f32 {
        let min = f32::from_bits(range.min().to_bits());
        let max = f32::from_bits(range.max().to_bits());
        match range.curve() {
            Curve::Constant(only) => f32::from_bits(only.to_bits()),
            Curve::Linear => min + position * (max - min),
            Curve::Power(factor) => {
                min + position.powf(1.0 / f32::from_bits(factor.to_bits())) * (max - min)
            }
        }
    };
    let single = range_linear(0.5, 0.5);
    for position in [0.0f32, 0.25, 1.0] {
        assert_eq!(to_real(&single, position), 0.5);
    }
    assert_eq!(to_normalized(&single, 0.5), 0.0);
    for range in [range_linear(-2.0, 6.0), range_skewed(0.03125, 32.0, 0.2), range_skewed(0.0, 1.0, 1.0)] {
        for step in 0..=20 {
            let position = step as f32 / 20.0;
            let value = to_real(&range, position);
            assert!(range.includes(range_value(value)));
            assert!((to_normalized(&range, value) - position).abs() < 1.0e-4);
        }
    }
}
