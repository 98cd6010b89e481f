use flash_rbf::ieee::{abs_exceeds, floor_distance, is_nan_value, is_zero_value, values_equal, value_less};

fn b(v: f64) -> u64 {
    v.to_bits()
}

#[test]
fn equality_matches_f64() {
    let vals = [0.0, -0.0, 1.0, -1.0, 2.5, f64::INFINITY, f64::NEG_INFINITY, f64::NAN, f64::MIN_POSITIVE];
    for &x in &vals {
        for &y in &vals {
            assert_eq!(values_equal(b(x), b(y)), x == y, "{x} == {y}");
            assert_eq!(value_less(b(x), b(y)), x < y, "{x} < {y}");
            assert_eq!(abs_exceeds(b(x), b(y)), x.abs() > y.abs(), "|{x}| > |{y}|");
        }
    }
}

#[test]
fn nan_and_zero_classes() {
    assert!(is_nan_value(b(f64::NAN)));
    assert!(is_nan_value(b(-f64::NAN)));
    assert!(!is_nan_value(b(f64::INFINITY)));
    assert!(is_zero_value(b(-0.0)));
    assert!(!is_zero_value(b(f64::MIN_POSITIVE)));
}

#[test]
fn distance_floor_is_machine_epsilon() {
    assert_eq!(f64::from_bits(floor_distance(b(0.0))), f64::EPSILON);
    assert_eq!(f64::from_bits(floor_distance(b(-0.0))), f64::EPSILON);
    assert_eq!(f64::from_bits(floor_distance(b(f64::NAN))), f64::EPSILON);
    assert_eq!(f64::from_bits(floor_distance(b(1e-20))), f64::EPSILON);
    assert_eq!(f64::from_bits(floor_distance(b(2.5))), 2.5);
    for d in [0.0, 1e-300, 1e-16, 3.0, f64::INFINITY] {
        assert_eq!(floor_distance(b(d)), b(d.max(f64::EPSILON)));
    }
}
