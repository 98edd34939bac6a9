use input::{Motion, Scalar};

fn scalar(x: f64) -> Scalar {
    Scalar { bits: x.to_bits() }
}

fn samples() -> Vec<f64> {
    vec![
        0.0,
        -0.0,
        1.0,
        -1.0,
        1.5,
        f64::MIN_POSITIVE,
        f64::from_bits(1),
        f64::MAX,
        f64::MIN,
        f64::EPSILON,
        f64::INFINITY,
        f64::NEG_INFINITY,
        f64::NAN,
        -f64::NAN,
        f64::from_bits(0x7ff0_0000_0000_0001),
    ]
}

#[test]
fn scalar_equality_is_that_of_the_numbers() {
    for a in samples() {
        for b in samples() {
            assert_eq!(scalar(a) == scalar(b), a == b, "{:?} and {:?}", a, b);
        }
    }
}

#[test]
fn nan_equals_nothing() {
    let nan = scalar(f64::NAN);
    assert!(nan != nan);
    assert!(nan != scalar(0.0));
    assert!(nan.is_nan());
    assert!(!nan.is_finite());
    assert!(!nan.is_zero());
}

#[test]
fn the_two_zeros_are_equal_with_different_bits() {
    let plus = scalar(0.0);
    let minus = scalar(-0.0);
    assert_eq!(plus.bits, 0);
    assert_eq!(minus.bits, 0x8000_0000_0000_0000);
    assert!(plus == minus);
    assert!(plus.is_zero() && minus.is_zero());
    assert!(plus.is_finite() && minus.is_finite());
}

#[test]
fn classes_agree_with_the_numbers() {
    for a in samples() {
        let s = scalar(a);
        assert_eq!(s.is_nan(), a.is_nan(), "{:?}", a);
        assert_eq!(s.is_finite(), a.is_finite(), "{:?}", a);
        assert_eq!(s.is_zero(), a == 0.0, "{:?}", a);
    }
}

#[test]
fn infinities_are_not_finite_and_equal_themselves() {
    let inf = scalar(f64::INFINITY);
    assert_eq!(inf.bits, 0x7ff0_0000_0000_0000);
    assert!(!inf.is_finite());
    assert!(!inf.is_nan());
    assert!(inf == inf);
    assert!(inf != scalar(f64::NEG_INFINITY));
}

#[test]
fn motions_compare_by_their_numbers() {
    assert_eq!(
        Motion::MouseCursor(scalar(0.0), scalar(2.0)),
        Motion::MouseCursor(scalar(-0.0), scalar(2.0))
    );
    assert_ne!(
        Motion::MouseCursor(scalar(1.0), scalar(2.0)),
        Motion::MouseRelative(scalar(1.0), scalar(2.0))
    );
    assert_ne!(
        Motion::MouseScroll(scalar(f64::NAN), scalar(0.0)),
        Motion::MouseScroll(scalar(f64::NAN), scalar(0.0))
    );
}
