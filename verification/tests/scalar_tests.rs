use double_pendulum::scalar::Scalar;
use double_pendulum::scalar::POSITIVE_INFINITY_BITS;
use double_pendulum::scalar::SIGN_BIT;

fn sc(x: f32) -> Scalar {
    Scalar::from_bits(x.to_bits())
}

fn samples() -> Vec<f32> {
    let mut v = vec![
        0.0,
        -0.0,
        1.0,
        -1.0,
        0.5,
        2.0,
        9.81,
        1e-3,
        1e-45,
        -1e-45,
        1.17549435e-38,
        1.17549421e-38,
        3.4028235e38,
        -3.4028235e38,
        f32::INFINITY,
        f32::NEG_INFINITY,
        f32::NAN,
        -f32::NAN,
        f32::EPSILON,
        std::f32::consts::PI,
        1.0 / 60.0,
    ];
    let mut bits: u32 = 1;
    while bits < 0x7f00_0000 {
        v.push(f32::from_bits(bits));
        v.push(f32::from_bits(bits + 12345));
        bits += 0x0123_4567;
    }
    v.push(f32::from_bits(0x7fc0_0001));
    v.push(f32::from_bits(0xffc0_0001));
    v.push(f32::from_bits(0x7f80_0001));
    v
}

#[test]
fn bits_round_trip() {
    for bits in [0u32, 1, 0x3f80_0000, 0x7f80_0000, 0x8000_0000, 0xffff_ffff] {
        assert_eq!(Scalar::from_bits(bits).to_bits(), bits);
        assert_eq!(Scalar::from_bits(bits).bits, bits);
    }
}

#[test]
fn named_bit_patterns_are_those_of_the_values() {
    assert_eq!(POSITIVE_INFINITY_BITS, f32::INFINITY.to_bits());
    assert_eq!(SIGN_BIT, (-0.0f32).to_bits());
}

#[test]
fn is_finite_agrees_with_the_hardware() {
    for x in samples() {
        assert_eq!(sc(x).is_finite(), x.is_finite(), "{:?}", x);
    }
}

#[test]
fn is_positive_agrees_with_the_hardware() {
    for x in samples() {
        assert_eq!(sc(x).is_positive(), x.is_finite() && x > 0.0, "{:?}", x);
    }
}

#[test]
fn zero_of_either_sign_is_not_positive() {
    assert!(!sc(0.0).is_positive());
    assert!(!sc(-0.0).is_positive());
    assert!(sc(0.0).is_finite());
    assert!(sc(-0.0).is_finite());
}

#[test]
fn smallest_subnormal_is_positive() {
    assert!(Scalar::from_bits(1).is_positive());
    assert!(Scalar::from_bits(1).is_finite());
}

#[test]
fn largest_finite_value_is_positive_and_infinity_is_not() {
    assert!(sc(f32::MAX).is_positive());
    assert!(!sc(f32::INFINITY).is_positive());
    assert!(!sc(f32::INFINITY).is_finite());
    assert!(!sc(f32::NEG_INFINITY).is_finite());
}

#[test]
fn nan_is_neither_finite_nor_positive() {
    assert!(!sc(f32::NAN).is_finite());
    assert!(!sc(f32::NAN).is_positive());
    assert!(!Scalar::from_bits(0xffc0_0000).is_finite());
    assert!(!Scalar::from_bits(0x7f80_0001).is_positive());
}

#[test]
fn negative_values_are_finite_but_not_positive() {
    assert!(sc(-1.0).is_finite());
    assert!(!sc(-1.0).is_positive());
    assert!(!sc(-1e-45).is_positive());
}

#[test]
fn cap_at_is_the_minimum_of_non_negative_values() {
    let values: Vec<f32> =
        samples().into_iter().filter(|x| x.is_finite() && x.is_sign_positive()).collect();
    for a in &values {
        for b in &values {
            let capped = sc(*a).cap_at(sc(*b));
            assert_eq!(f32::from_bits(capped.to_bits()), a.min(*b), "{:?} {:?}", a, b);
        }
    }
}

#[test]
fn cap_at_exact_values() {
    assert_eq!(sc(0.25).cap_at(sc(0.05)), sc(0.05));
    assert_eq!(sc(0.01).cap_at(sc(0.05)), sc(0.01));
    assert_eq!(sc(0.05).cap_at(sc(0.05)), sc(0.05));
    assert_eq!(sc(1e-40).cap_at(sc(1e-38)), sc(1e-40));
    assert_eq!(sc(3.0e38).cap_at(sc(1.0)), sc(1.0));
}
