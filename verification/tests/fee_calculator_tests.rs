use stablesats::fee_calculator::{
    Direction, FeeCalculator, FeeCalculatorConfig, FeeCalculatorError, SettlementTier,
};
use stablesats::ratio::{FixedPointRatio, MAX_UNITS};

fn fee_rate(mantissa: i128, scale: u32) -> FixedPointRatio {
    FixedPointRatio::from_decimal(mantissa, scale).unwrap()
}

fn fees(base: FixedPointRatio, immediate: FixedPointRatio, delayed: FixedPointRatio) -> FeeCalculatorConfig {
    FeeCalculatorConfig { base_fee_rate: base, immediate_fee_rate: immediate, delayed_fee_rate: delayed }
}

fn usual_fees() -> FeeCalculator {
    FeeCalculator::new(fees(fee_rate(1, 3), fee_rate(1, 2), fee_rate(1, 1)))
}

#[test]
fn fee_buy_rate_marks_the_mid_rate_up() {
    let calculator = usual_fees();
    let mid = fee_rate(5, 4);
    assert_eq!(calculator.buy_rate(mid, SettlementTier::Immediate), Ok(fee_rate(5055, 7)));
    assert_eq!(calculator.buy_rate(mid, SettlementTier::Delayed), Ok(fee_rate(5505, 7)));
    assert_eq!(
        calculator.effective_rate(mid, Direction::Buy, SettlementTier::Immediate),
        Ok(fee_rate(5055, 7))
    );
}

#[test]
fn fee_sell_rate_marks_the_mid_rate_down() {
    let calculator = usual_fees();
    let mid = fee_rate(5, 4);
    assert_eq!(calculator.sell_rate(mid, SettlementTier::Immediate), Ok(fee_rate(4945, 7)));
    assert_eq!(calculator.sell_rate(mid, SettlementTier::Delayed), Ok(fee_rate(4495, 7)));
    assert_eq!(
        calculator.effective_rate(mid, Direction::Sell, SettlementTier::Delayed),
        Ok(fee_rate(4495, 7))
    );
}

#[test]
fn fee_rates_cut_the_fraction_of_a_unit_off() {
    let calculator = usual_fees();
    let three_units = FixedPointRatio::from_units(3).unwrap();
    // 3 * 1.011 = 3.033 and 3 * 0.989 = 2.967 units.
    assert_eq!(calculator.buy_rate(three_units, SettlementTier::Immediate).unwrap().units(), 3);
    assert_eq!(calculator.sell_rate(three_units, SettlementTier::Immediate).unwrap().units(), 2);
    let zero = FixedPointRatio::zero();
    assert_eq!(calculator.buy_rate(zero, SettlementTier::Delayed), Ok(zero));
    assert_eq!(calculator.sell_rate(zero, SettlementTier::Delayed), Ok(zero));
}

#[test]
fn fee_without_fees_both_rates_are_the_mid_rate() {
    let zero = FixedPointRatio::zero();
    let calculator = FeeCalculator::new(fees(zero, zero, zero));
    let mid = fee_rate(123_456_789, 9);
    for tier in [SettlementTier::Immediate, SettlementTier::Delayed] {
        assert_eq!(calculator.buy_rate(mid, tier), Ok(mid));
        assert_eq!(calculator.sell_rate(mid, tier), Ok(mid));
    }
}

#[test]
fn fee_sell_rate_refuses_fees_of_one_or_more() {
    let exactly_one = FeeCalculator::new(fees(fee_rate(5, 1), fee_rate(5, 1), fee_rate(4, 1)));
    let mid = fee_rate(5, 4);
    assert_eq!(
        exactly_one.sell_rate(mid, SettlementTier::Immediate),
        Err(FeeCalculatorError::InvalidFeeConfiguration)
    );
    assert_eq!(exactly_one.sell_rate(mid, SettlementTier::Delayed), Ok(fee_rate(5, 5)));
    assert_eq!(exactly_one.buy_rate(mid, SettlementTier::Immediate), Ok(fee_rate(1, 3)));
    let just_below = FeeCalculator::new(fees(
        fee_rate(5, 1),
        FixedPointRatio::from_units(499_999_999_999).unwrap(),
        fee_rate(2, 0),
    ));
    assert_eq!(
        just_below.sell_rate(FixedPointRatio::one(), SettlementTier::Immediate).unwrap().units(),
        1
    );
    assert_eq!(
        just_below.sell_rate(mid, SettlementTier::Delayed),
        Err(FeeCalculatorError::InvalidFeeConfiguration)
    );
}

#[test]
fn fee_buy_rate_refuses_rates_above_the_largest() {
    let calculator = usual_fees();
    let largest = FixedPointRatio::from_units(MAX_UNITS).unwrap();
    assert_eq!(
        calculator.buy_rate(largest, SettlementTier::Immediate),
        Err(FeeCalculatorError::RateOutOfRange)
    );
    assert_eq!(
        calculator.sell_rate(largest, SettlementTier::Immediate).unwrap().units(),
        989_000_000_000_000_000
    );
    let huge_fees = FeeCalculator::new(fees(largest, largest, largest));
    assert_eq!(
        huge_fees.buy_rate(FixedPointRatio::from_units(499_999_750_000).unwrap(), SettlementTier::Delayed)
            .unwrap()
            .units(),
        999_999_999_999_750_000
    );
    assert_eq!(
        huge_fees.buy_rate(FixedPointRatio::one(), SettlementTier::Delayed),
        Err(FeeCalculatorError::RateOutOfRange)
    );
}

#[test]
fn fee_configuration_is_validated() {
    assert_eq!(fees(fee_rate(1, 3), fee_rate(1, 2), fee_rate(1, 1)).validate(), Ok(()));
    assert_eq!(
        fees(fee_rate(5, 1), fee_rate(5, 1), fee_rate(1, 1)).validate(),
        Err(FeeCalculatorError::InvalidFeeConfiguration)
    );
    assert_eq!(
        fees(fee_rate(5, 1), fee_rate(1, 1), fee_rate(6, 1)).validate(),
        Err(FeeCalculatorError::InvalidFeeConfiguration)
    );
    assert_eq!(
        fees(fee_rate(1, 3), fee_rate(1, 2), fee_rate(1, 1)).combined_fee_units(SettlementTier::Delayed),
        101_000_000_000
    );
    assert_eq!(usual_fees().config(), fees(fee_rate(1, 3), fee_rate(1, 2), fee_rate(1, 1)));
}

#[test]
fn fee_configuration_has_defaults() {
    let config = FeeCalculatorConfig::default();
    assert_eq!(config.base_fee_rate, fee_rate(1, 3));
    assert_eq!(config.immediate_fee_rate, fee_rate(15, 4));
    assert_eq!(config.delayed_fee_rate, fee_rate(1, 3));
    assert_eq!(config.validate(), Ok(()));
}
