use payment_engine::checked_decimal::{
    units_from_scaled, NonNegative, NonZero, MAX_UNITS, MAX_WHOLE, UNITS_PER_WHOLE,
};
use payment_engine::non_negative_checked_decimal::NonNegativeCheckedDecimal;

#[test]
fn can_not_be_zero() {
    let zero: i128 = 0;
    let non_zero = NonZero::try_from(zero);
    assert!(non_zero.is_err());
}

#[test]
fn can_not_be_negative() {
    let negative: i128 = -(MAX_UNITS as i128);
    let non_zero = NonZero::try_from(negative);
    assert!(non_zero.is_err());
}

#[test]
fn non_zero_keeps_four_fractional_digits() {
    let a = NonZero::try_from(1).unwrap();
    assert_eq!(a.units(), 1);
    assert!(NonZero::try_from(MAX_UNITS as i128).is_ok());
    assert!(NonZero::try_from(MAX_UNITS as i128 + 1).is_err());
}

#[test]
fn checked_decimal_min() {
    assert_eq!(NonNegative::min_value(), 0.into());
}

#[test]
fn non_negative_checked_decimal_min() {
    assert_eq!(NonNegativeCheckedDecimal::min_value(), 0.into());
}

#[test]
fn addition() {
    let cases: Vec<(NonNegative, NonNegative, Option<NonNegative>)> = vec![
        (10.into(), 5.into(), Some(15.into())),
        (0.into(), 0.into(), Some(0.into())),
        (NonNegative::max_value(), 0.into(), Some(NonNegative::max_value())),
        (NonNegative::max_value(), 1.into(), None),
    ];
    for (a, b, expected) in cases {
        assert_eq!(a.add(b), expected);
    }
}

#[test]
fn subtraction() {
    let cases: Vec<(NonNegative, NonNegative, Option<NonNegative>)> = vec![
        (10.into(), 5.into(), Some(5.into())),
        (0.into(), 0.into(), Some(0.into())),
        (0.into(), 1.into(), None),
    ];
    for (a, b, expected) in cases {
        assert_eq!(a.sub(b), expected);
    }
}

#[test]
fn whole_values_are_scaled_to_units() {
    let v: NonNegative = 3.into();
    assert_eq!(v.units(), 3 * UNITS_PER_WHOLE);
    assert_eq!(NonNegative::max_value().units(), MAX_UNITS);
    assert_eq!(NonNegative::from_units(MAX_UNITS + 1), None);
    let a = NonZero::try_from(15000).unwrap();
    assert_eq!(a.to_non_negative(), NonNegative::from_units(15000).unwrap());
    assert_eq!(NonNegative::from(a).units(), 15000);
}

#[test]
fn decimal_parts_convert_to_units() {
    // 1.5 written with one fractional digit.
    assert_eq!(units_from_scaled(15, 1), Some(15000));
    // 2.0001 written with four.
    assert_eq!(units_from_scaled(20001, 4), Some(20001));
    // 3 written with none.
    assert_eq!(units_from_scaled(3, 0), Some(30000));
    assert_eq!(units_from_scaled(-25, 2), Some(-2500));
    assert_eq!(units_from_scaled(0, 3), Some(0));
    // A fifth fractional digit is not representable.
    assert_eq!(units_from_scaled(100001, 5), None);
    assert_eq!(
        units_from_scaled(MAX_WHOLE as i128, 0),
        Some(MAX_UNITS as i128)
    );
    assert_eq!(units_from_scaled(MAX_WHOLE as i128 + 1, 0), None);
    assert_eq!(units_from_scaled(-(MAX_WHOLE as i128) - 1, 4), None);
}

#[test]
fn whole_and_fractional_parts() {
    let v = NonNegative::from_units(1234567).unwrap();
    assert_eq!(v.whole_part(), 123);
    assert_eq!(v.fractional_part(), 4567);
    let w = NonNegative::from_units(5).unwrap();
    assert_eq!((w.whole_part(), w.fractional_part()), (0, 5));
    let m = NonNegative::max_value();
    assert_eq!(m.whole_part(), MAX_WHOLE);
    assert_eq!(m.fractional_part(), 0);
}
