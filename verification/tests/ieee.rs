use oxiedraw_ui::ieee::{Double, Single};

fn d(v: f64) -> Double {
    Double::from_bits(v.to_bits())
}

fn s(v: f32) -> Single {
    Single::from_bits(v.to_bits())
}

#[test]
fn doubles_compare_as_the_hardware_does() {
    let values = [
        0.0, -0.0, 1.0, -1.0, 0.5, -0.5, f64::MAX, f64::MIN, f64::MIN_POSITIVE,
        f64::INFINITY, f64::NEG_INFINITY, f64::NAN, 5e-324, -5e-324,
    ];
    for a in values {
        for b in values {
            assert_eq!(d(a).less(d(b)), a < b);
            assert_eq!(d(a).at_most(d(b)), a <= b);
            assert_eq!(d(a).total_less(d(b)), a.total_cmp(&b).is_lt());
        }
        assert_eq!(d(a).is_nan(), a.is_nan());
        assert_eq!(d(a).abs().bits, a.abs().to_bits());
    }
}

#[test]
fn singles_compare_as_the_hardware_does() {
    let values = [
        0.0, -0.0, 1.0, -1.0, 0.5, -0.5, f32::MAX, f32::MIN, f32::MIN_POSITIVE,
        f32::INFINITY, f32::NEG_INFINITY, f32::NAN, 1e-45, -1e-45,
    ];
    for a in values {
        for b in values {
            assert_eq!(s(a).less(s(b)), a < b);
            assert_eq!(s(a).at_most(s(b)), a <= b);
            assert_eq!(s(a).total_less(s(b)), a.total_cmp(&b).is_lt());
        }
        assert_eq!(s(a).is_nan(), a.is_nan());
        assert_eq!(s(a).abs().bits, a.abs().to_bits());
    }
}
