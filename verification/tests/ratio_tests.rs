use stablesats::amount::{Sats, UsdCents};
use stablesats::ratio::{Decimal, FixedPointRatio, RatioError, MAX_UNITS, SCALE};

#[test]
fn ratio_from_decimal_scales_up_to_twelve_digits() {
    assert_eq!(FixedPointRatio::from_decimal(5, 4).unwrap().units(), 500_000_000);
    assert_eq!(FixedPointRatio::from_decimal(1, 0).unwrap().units(), SCALE);
    assert_eq!(FixedPointRatio::from_decimal(0, 3).unwrap().units(), 0);
    assert_eq!(FixedPointRatio::from_decimal(123, 12).unwrap().units(), 123);
    assert_eq!(FixedPointRatio::from_decimal(4995, 7).unwrap().units(), 499_500_000);
}

#[test]
fn ratio_from_decimal_cuts_digits_past_the_twelfth() {
    assert_eq!(FixedPointRatio::from_decimal(1_999, 15).unwrap().units(), 1);
    assert_eq!(FixedPointRatio::from_decimal(999, 15).unwrap().units(), 0);
    assert_eq!(
        FixedPointRatio::from_decimal(33_333_333_333_333_333_333, 20).unwrap().units(),
        333_333_333_333
    );
    assert_eq!(FixedPointRatio::from_decimal(i128::MAX, 60).unwrap().units(), 0);
    assert_eq!(FixedPointRatio::from_decimal(i128::MAX, u32::MAX).unwrap().units(), 0);
    assert_eq!(
        FixedPointRatio::from_decimal(i128::MAX, 50).unwrap().units(),
        (i128::MAX / 100_000_000_000_000_000_000_000_000_000_000_000_000) as u64
    );
}

#[test]
fn ratio_from_decimal_refuses_negative_numbers() {
    assert_eq!(FixedPointRatio::from_decimal(-1, 3), Err(RatioError::Negative));
    assert_eq!(FixedPointRatio::from_decimal(i128::MIN, 40), Err(RatioError::Negative));
    assert_eq!(
        FixedPointRatio::from_number(Decimal { mantissa: -5, scale: 1 }),
        Err(RatioError::Negative)
    );
}

#[test]
fn ratio_from_decimal_refuses_numbers_above_the_largest() {
    assert_eq!(FixedPointRatio::from_decimal(1_000_000, 0).unwrap().units(), MAX_UNITS);
    assert_eq!(FixedPointRatio::from_decimal(1_000_001, 0), Err(RatioError::OutOfRange));
    assert_eq!(FixedPointRatio::from_decimal(i128::MAX, 0), Err(RatioError::OutOfRange));
    assert_eq!(FixedPointRatio::from_decimal(i128::MAX, 12), Err(RatioError::OutOfRange));
    assert_eq!(FixedPointRatio::from_decimal(i128::MAX, 13), Err(RatioError::OutOfRange));
    assert_eq!(
        FixedPointRatio::from_decimal(10_000_000_000_000_000_001, 13).unwrap().units(),
        MAX_UNITS
    );
}

#[test]
fn ratio_from_units_keeps_to_the_range() {
    assert_eq!(FixedPointRatio::from_units(0).unwrap(), FixedPointRatio::zero());
    assert_eq!(FixedPointRatio::from_units(SCALE).unwrap(), FixedPointRatio::one());
    assert_eq!(FixedPointRatio::from_units(MAX_UNITS).unwrap().units(), MAX_UNITS);
    assert!(FixedPointRatio::from_units(MAX_UNITS + 1).is_none());
    assert!(FixedPointRatio::zero().is_zero());
    assert!(!FixedPointRatio::one().is_zero());
}

#[test]
fn ratio_inverse_is_truncated() {
    let half_thousandth = FixedPointRatio::from_decimal(5, 4).unwrap();
    assert_eq!(half_thousandth.checked_inverse().unwrap().units(), 2_000 * SCALE);
    let three = FixedPointRatio::from_decimal(3, 4).unwrap();
    assert_eq!(three.checked_inverse().unwrap().units(), 3_333_333_333_333_333);
    assert_eq!(FixedPointRatio::one().checked_inverse().unwrap(), FixedPointRatio::one());
}

#[test]
fn ratio_inverse_has_limits() {
    assert!(FixedPointRatio::zero().checked_inverse().is_none());
    let smallest_with_inverse = FixedPointRatio::from_units(1_000_000).unwrap();
    assert_eq!(smallest_with_inverse.checked_inverse().unwrap().units(), MAX_UNITS);
    let too_small = FixedPointRatio::from_units(999_999).unwrap();
    assert!(too_small.checked_inverse().is_none());
}

#[test]
fn ratio_applies_to_amounts_with_truncation() {
    let rate = FixedPointRatio::from_decimal(5055, 7).unwrap();
    assert_eq!(rate.apply_truncating(100_000_000), Some(50_550));
    assert_eq!(rate.apply_truncating(1), Some(0));
    assert_eq!(rate.apply_truncating(1978), Some(0));
    assert_eq!(rate.apply_truncating(1979), Some(1));
    assert_eq!(FixedPointRatio::one().apply_truncating(u64::MAX), Some(u64::MAX));
    let two = FixedPointRatio::from_decimal(2, 0).unwrap();
    assert_eq!(two.apply_truncating(u64::MAX / 2), Some(u64::MAX - 1));
    assert_eq!(two.apply_truncating(u64::MAX / 2 + 1), None);
}

#[test]
fn amounts_convert_only_through_a_rate() {
    let cents_per_sat = FixedPointRatio::from_decimal(5, 4).unwrap();
    let sats = Sats::from_major(100_000_000);
    assert_eq!(sats.amount(), 100_000_000);
    assert_eq!(sats.to_cents(cents_per_sat), Some(UsdCents::from_major(50_000)));
    let sats_per_cent = cents_per_sat.checked_inverse().unwrap();
    let cents = UsdCents::from_major(50_000);
    assert_eq!(cents.amount(), 50_000);
    assert_eq!(cents.to_sats(sats_per_cent), Some(Sats::from_major(100_000_000)));
    let largest = FixedPointRatio::from_units(MAX_UNITS).unwrap();
    assert_eq!(Sats::from_major(u64::MAX).to_cents(largest), None);
    assert_eq!(UsdCents::from_major(u64::MAX).to_sats(largest), None);
    assert_eq!(Sats::from_major(3).to_cents(FixedPointRatio::zero()), Some(UsdCents::from_major(0)));
}
