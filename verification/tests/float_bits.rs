use reverb_csd::util::float_bits::clamp_unit_bits;
use reverb_csd::util::float_bits::float_bits_eq;
use reverb_csd::util::float_bits::NEG_ZERO_BITS;
use reverb_csd::util::float_bits::ONE_BITS;
use reverb_csd::util::float_bits::POINT_SIX_BITS;
use reverb_csd::util::float_bits::ZERO_BITS;

fn samples() -> Vec<f32> {
    vec![
        0.0,
        -0.0,
        1.0,
        -1.0,
        0.6,
        0.25,
        0.999_999_9,
        1.000_000_1,
        2.5,
        -2.5,
        f32::MIN_POSITIVE,
        -f32::MIN_POSITIVE,
        f32::from_bits(1),
        f32::from_bits(0x8000_0001),
        f32::MAX,
        f32::MIN,
        f32::INFINITY,
        f32::NEG_INFINITY,
        f32::NAN,
        -f32::NAN,
        f32::from_bits(0x7f80_0001),
        f32::from_bits(0xffc0_1234),
    ]
}

#[test]
fn named_bit_patterns_match_f32() {
    assert_eq!(ZERO_BITS, 0.0f32.to_bits());
    assert_eq!(NEG_ZERO_BITS, (-0.0f32).to_bits());
    assert_eq!(ONE_BITS, 1.0f32.to_bits());
    assert_eq!(POINT_SIX_BITS, 0.6f32.to_bits());
}

#[test]
fn equality_matches_f32_eq() {
    for a in samples() {
        for b in samples() {
            assert_eq!(float_bits_eq(a.to_bits(), b.to_bits()), a == b, "{a:?} == {b:?}");
        }
    }
}

#[test]
fn zeros_are_equal_and_nan_is_not() {
    assert!(float_bits_eq(ZERO_BITS, NEG_ZERO_BITS));
    assert!(!float_bits_eq(f32::NAN.to_bits(), f32::NAN.to_bits()));
    assert!(float_bits_eq(ONE_BITS, ONE_BITS));
}

#[test]
fn clamp_matches_f32_clamp() {
    for x in samples() {
        let expected = x.clamp(0.0, 1.0).to_bits();
        assert_eq!(clamp_unit_bits(x.to_bits()), expected, "clamp({x:?})");
    }
}

#[test]
fn clamp_edge_cases() {
    assert_eq!(clamp_unit_bits((-3.0f32).to_bits()), ZERO_BITS);
    assert_eq!(clamp_unit_bits(NEG_ZERO_BITS), NEG_ZERO_BITS);
    assert_eq!(clamp_unit_bits(f32::INFINITY.to_bits()), ONE_BITS);
    assert_eq!(clamp_unit_bits(0.5f32.to_bits()), 0.5f32.to_bits());
    assert!(f32::from_bits(clamp_unit_bits(f32::NAN.to_bits())).is_nan());
}

#[test]
fn clamp_is_idempotent() {
    for x in samples() {
        let once = clamp_unit_bits(x.to_bits());
        assert_eq!(clamp_unit_bits(once), once);
    }
}
