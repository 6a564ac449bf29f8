use client_balance::domain::model::value::amount::MonetaryAmount;

#[test]
fn amount_is_a_mantissa_and_a_scale() {
    let amount = MonetaryAmount::new(-12345, 2).unwrap();
    assert_eq!(amount.mantissa(), -12345);
    assert_eq!(amount.scale(), 2);
    assert_eq!(amount.to_string(), "-123.45");
    assert!(amount.is_negative() && !amount.is_zero() && !amount.is_positive());
    assert_eq!(MonetaryAmount::from_integer(100).to_string(), "100");
    assert_eq!(MonetaryAmount::zero(), MonetaryAmount::from_integer(0));
    assert!(MonetaryAmount::zero().is_zero());
}

#[test]
fn amount_has_ninety_six_bits_and_twenty_eight_decimals() {
    let max: i128 = 0xFFFF_FFFF_FFFF_FFFF_FFFF_FFFF;
    assert!(MonetaryAmount::new(max, 28).is_some());
    assert!(MonetaryAmount::new(-max, 0).is_some());
    assert!(MonetaryAmount::new(max + 1, 0).is_none());
    assert!(MonetaryAmount::new(-max - 1, 0).is_none());
    assert!(MonetaryAmount::new(1, 29).is_none());
    assert_eq!(MonetaryAmount::new(max, 0).unwrap().to_string(), "79228162514264337593543950335");
}

#[test]
fn amounts_add_as_decimals() {
    let a = MonetaryAmount::new(150, 2).unwrap();
    let b = MonetaryAmount::new(25, 1).unwrap();
    let sum = a.checked_add(&b).unwrap();
    assert_eq!(sum.to_string(), "4.00");
    assert_eq!((sum.mantissa(), sum.scale()), (400, 2));
    let sum = MonetaryAmount::from_integer(100).checked_add(&MonetaryAmount::from_integer(-33));
    assert_eq!(sum.unwrap(), MonetaryAmount::from_integer(67));
}

#[test]
fn adding_zero_gives_the_other_amount_back() {
    let amount = MonetaryAmount::new(1050, 2).unwrap();
    let zero = MonetaryAmount::zero();
    assert_eq!(zero.checked_add(&amount).unwrap(), amount);
    assert_eq!(amount.checked_add(&zero).unwrap(), amount);
    let written_zero = MonetaryAmount::new(0, 2).unwrap();
    assert_eq!(written_zero.checked_add(&zero).unwrap(), zero);
}

#[test]
fn sum_beyond_the_range_is_none() {
    let max = MonetaryAmount::new(0xFFFF_FFFF_FFFF_FFFF_FFFF_FFFF, 0).unwrap();
    assert!(max.checked_add(&MonetaryAmount::from_integer(1)).is_none());
    assert!(max.checked_add(&max).is_none());
    assert_eq!(max.checked_add(&MonetaryAmount::from_integer(-1)).unwrap().mantissa() + 1, max.mantissa());
}

#[test]
fn amount_from_a_sum() {
    assert_eq!(MonetaryAmount::from_sum(Some((5, 1))), MonetaryAmount::new(5, 1));
    assert_eq!(MonetaryAmount::from_sum(None), None);
    assert_eq!(MonetaryAmount::from_sum(Some((1, 40))), None);
}
