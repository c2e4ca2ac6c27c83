use math_3d::scalar::{round_scaled, Fraction, RoundTo};

#[test]
fn should_round_float_number_to_digits_after_comma() {
    assert_eq!(Fraction::new(0, 1).round_to(1), Fraction::new(0, 1));
    assert_eq!(Fraction::new(111111, 100000).round_to(3), Fraction::new(1111, 1000));
    assert_eq!(Fraction::new(30845689, 10000000).round_to(5), Fraction::new(308457, 100000));
}

#[test]
fn rounding_keeps_the_requested_denominator() {
    let r = Fraction::new(2, 3).round_to(2);
    assert_eq!(r.numerator, 67);
    assert_eq!(r.denominator, 100);
}

#[test]
fn rounding_halves_go_away_from_zero() {
    assert_eq!(Fraction::new(1, 4).round_to(1), Fraction::new(3, 10));
    assert_eq!(Fraction::new(-1, 4).round_to(1), Fraction::new(-3, 10));
    assert_eq!(round_scaled(-5, 2, 0), -3);
    assert_eq!(round_scaled(5, 2, 0), 3);
    assert_eq!(round_scaled(-4, 3, 0), -1);
}

#[test]
fn fractions_compare_by_value() {
    assert_eq!(Fraction::new(1, 2), Fraction::new(50, 100));
    assert_ne!(Fraction::new(1, 2), Fraction::new(1, 3));
}
