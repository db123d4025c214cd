use corgi_brain::scalar::{
    Scalar, HALF_BITS, INFINITY_BITS, NEG_INFINITY_BITS, NEG_ONE_BITS, NEG_PI_BITS, NEG_ZERO_BITS,
    ONE_BITS, TAU_BITS, TWO_BITS, ZERO_BITS,
};

fn word(x: f32) -> Scalar {
    Scalar::from_bits(x.to_bits())
}

fn sample_numbers() -> Vec<f32> {
    let mut xs = vec![
        0.0,
        -0.0,
        f32::MIN_POSITIVE,
        f32::from_bits(1),
        f32::from_bits(0x007F_FFFF),
        0.25,
        0.49999997,
        0.499999,
        0.5,
        0.50000006,
        0.75,
        0.99999994,
        1.0,
        1.4999999,
        1.5,
        2.0,
        2.4999998,
        2.5,
        3.0,
        4.5,
        5.0,
        9.5,
        254.5,
        255.0,
        255.5,
        256.0,
        299.99997,
        300.0,
        300.00003,
        1000.0,
        8388607.5,
        8388608.0,
        16777215.0,
        16777216.0,
        16777218.0,
        4294967040.0,
        4294967296.0,
        1.0e10,
        1.8446743e19,
        1.8446744e19,
        1.0e30,
        f32::MAX,
        f32::INFINITY,
        f32::NAN,
        f32::from_bits(0x7F80_0001),
        f32::from_bits(0x7FFF_FFFF),
    ];
    let negatives: Vec<f32> = xs.iter().map(|x| -*x).collect();
    xs.extend(negatives);
    xs
}

#[test]
fn constants_are_the_words_of_their_numbers() {
    assert_eq!(ZERO_BITS, 0.0f32.to_bits());
    assert_eq!(NEG_ZERO_BITS, (-0.0f32).to_bits());
    assert_eq!(HALF_BITS, 0.5f32.to_bits());
    assert_eq!(ONE_BITS, 1.0f32.to_bits());
    assert_eq!(TWO_BITS, 2.0f32.to_bits());
    assert_eq!(NEG_ONE_BITS, (-1.0f32).to_bits());
    assert_eq!(TAU_BITS, std::f32::consts::TAU.to_bits());
    assert_eq!(NEG_PI_BITS, (-std::f32::consts::PI).to_bits());
    assert_eq!(INFINITY_BITS, f32::INFINITY.to_bits());
    assert_eq!(NEG_INFINITY_BITS, f32::NEG_INFINITY.to_bits());
}

#[test]
fn words_round_trip() {
    for x in sample_numbers() {
        assert_eq!(word(x).to_bits(), x.to_bits());
    }
    assert_eq!(Scalar::from_bits(0x1234_5678).bits, 0x1234_5678);
}

#[test]
fn half_threshold_agrees_with_float_comparison() {
    for x in sample_numbers() {
        assert_eq!(word(x).is_at_least_half(), x >= 0.5, "at {x:?}");
    }
}

#[test]
fn half_threshold_is_inclusive() {
    assert!(word(0.5).is_at_least_half());
    assert!(!word(0.499999).is_at_least_half());
    assert!(!word(0.49999997).is_at_least_half());
    assert!(word(f32::INFINITY).is_at_least_half());
    assert!(!word(f32::NAN).is_at_least_half());
    assert!(!word(-0.5).is_at_least_half());
    assert!(!word(-1.0).is_at_least_half());
}

#[test]
fn below_zero_agrees_with_float_comparison() {
    for x in sample_numbers() {
        assert_eq!(word(x).is_below_zero(), x < 0.0, "at {x:?}");
    }
    assert!(!word(-0.0).is_below_zero());
    assert!(word(-f32::from_bits(1)).is_below_zero());
    assert!(word(f32::NEG_INFINITY).is_below_zero());
    assert!(!word(-f32::NAN).is_below_zero());
}

#[test]
fn at_least_agrees_with_float_comparison() {
    let floors = [f32::from_bits(1), f32::MIN_POSITIVE, 0.5, 1.0, 300.0, 16777216.0, f32::MAX];
    for floor in floors {
        for x in sample_numbers() {
            assert_eq!(word(x).is_at_least(word(floor)), x >= floor, "{x:?} against {floor:?}");
        }
    }
}

#[test]
fn rounding_agrees_with_round_and_cast() {
    for x in sample_numbers() {
        assert_eq!(word(x).round_to_count(), x.round() as usize, "at {x:?}");
    }
}

#[test]
fn rounding_takes_halves_away_from_zero() {
    assert_eq!(word(0.49999997).round_to_count(), 0);
    assert_eq!(word(0.5).round_to_count(), 1);
    assert_eq!(word(1.4999999).round_to_count(), 1);
    assert_eq!(word(1.5).round_to_count(), 2);
    assert_eq!(word(2.5).round_to_count(), 3);
    assert_eq!(word(8388607.5).round_to_count(), 8388608);
    assert_eq!(word(16777216.0).round_to_count(), 16777216);
}

#[test]
fn rounding_saturates() {
    assert_eq!(word(-3.7).round_to_count(), 0);
    assert_eq!(word(f32::NAN).round_to_count(), 0);
    assert_eq!(word(f32::NEG_INFINITY).round_to_count(), 0);
    assert_eq!(word(f32::INFINITY).round_to_count(), usize::MAX);
    assert_eq!(word(f32::MAX).round_to_count(), usize::MAX);
    assert_eq!(word(1.0e30).round_to_count(), usize::MAX);
}

#[test]
fn rounding_agrees_on_a_sweep_of_words() {
    let mut bits: u32 = 0;
    loop {
        let x = f32::from_bits(bits);
        assert_eq!(word(x).round_to_count(), x.round() as usize, "at word {bits:#010x}");
        assert_eq!(word(x).is_at_least_half(), x >= 0.5, "at word {bits:#010x}");
        assert_eq!(word(x).is_below_zero(), x < 0.0, "at word {bits:#010x}");
        match bits.checked_add(0x0000_F123) {
            Some(next) => bits = next,
            None => break,
        }
    }
}
