//! The fee calculator: from a mid-rate to the rate a customer buys or sells
//! at, for a settlement tier.

use vstd::prelude::*;
use crate::ratio::{FixedPointRatio, MAX_UNITS, SCALE};

verus! {

/// How soon a conversion settles.
#[derive(Clone, Copy, Debug, PartialEq, Eq, Structural)]
pub enum SettlementTier {
    Immediate,
    Delayed,
}

/// Which side of a rate the customer is on.
#[derive(Clone, Copy, Debug, PartialEq, Eq, Structural)]
pub enum Direction {
    Buy,
    Sell,
}

/// The three fee rates. The base rate applies to every conversion; the
/// immediate and the delayed rate are added for conversions of that tier.
#[derive(Clone, Copy, Debug, PartialEq, Eq, Structural)]
pub struct FeeCalculatorConfig {
    pub base_fee_rate: FixedPointRatio,
    pub immediate_fee_rate: FixedPointRatio,
    pub delayed_fee_rate: FixedPointRatio,
}

/// Why the calculator has no rate.
#[derive(Clone, Copy, Debug, PartialEq, Eq, Structural)]
pub enum FeeCalculatorError {
    /// The base rate and the tier's rate add up to 1.0 or more, so that
    /// nothing would be left of a sell rate.
    InvalidFeeConfiguration,
    /// The marked-up rate is above the largest ratio.
    RateOutOfRange,
}

/// The fee calculator. Its view is its configuration.
#[derive(Clone, Copy, Debug)]
pub struct FeeCalculator {
    config: FeeCalculatorConfig,
}

impl Default for FeeCalculatorConfig {
    /// A base fee of 0.1 %, with 0.15 % more for immediate and 0.1 % more
    /// for delayed settlement.
    fn default() -> (config: Self)
        ensures
            config.base_fee_rate@ == 1_000_000_000,
            config.immediate_fee_rate@ == 1_500_000_000,
            config.delayed_fee_rate@ == 1_000_000_000,
            config.is_valid(),
    {
        let base: Option<FixedPointRatio> = FixedPointRatio::from_units(1_000_000_000);
        let immediate: Option<FixedPointRatio> = FixedPointRatio::from_units(1_500_000_000);
        let delayed: Option<FixedPointRatio> = FixedPointRatio::from_units(1_000_000_000);
        FeeCalculatorConfig {
            base_fee_rate: base.unwrap(),
            immediate_fee_rate: immediate.unwrap(),
            delayed_fee_rate: delayed.unwrap(),
        }
    }
}

impl FeeCalculatorConfig {
    /// Units of the combined fee rate of `tier`: base plus the tier's own.
    pub open spec fn fee_units(self, tier: SettlementTier) -> nat {
        match tier {
            SettlementTier::Immediate => self.base_fee_rate@ + self.immediate_fee_rate@,
            SettlementTier::Delayed => self.base_fee_rate@ + self.delayed_fee_rate@,
        }
    }

    /// Units of `mid * (1 + fee)`, fraction of a unit cut off.
    pub open spec fn marked_up_units(self, mid: nat, tier: SettlementTier) -> nat {
        ((mid * (SCALE + self.fee_units(tier))) / (SCALE as int)) as nat
    }

    /// Units of `mid * (1 - fee)`, fraction of a unit cut off.
    pub open spec fn marked_down_units(self, mid: nat, tier: SettlementTier) -> nat
        recommends
            self.fee_units(tier) < SCALE,
    {
        ((mid * (SCALE - self.fee_units(tier))) / (SCALE as int)) as nat
    }

    /// The buy rate for a mid-rate of `mid` units.
    pub open spec fn buy_rate(self, mid: nat, tier: SettlementTier) -> Result<
        nat,
        FeeCalculatorError,
    > {
        if self.marked_up_units(mid, tier) > MAX_UNITS {
            Err(FeeCalculatorError::RateOutOfRange)
        } else {
            Ok(self.marked_up_units(mid, tier))
        }
    }

    /// The sell rate for a mid-rate of `mid` units.
    pub open spec fn sell_rate(self, mid: nat, tier: SettlementTier) -> Result<
        nat,
        FeeCalculatorError,
    > {
        if self.fee_units(tier) >= SCALE {
            Err(FeeCalculatorError::InvalidFeeConfiguration)
        } else {
            Ok(self.marked_down_units(mid, tier))
        }
    }

    /// The rate of `direction` for a mid-rate of `mid` units.
    pub open spec fn rate(self, mid: nat, direction: Direction, tier: SettlementTier) -> Result<
        nat,
        FeeCalculatorError,
    > {
        match direction {
            Direction::Buy => self.buy_rate(mid, tier),
            Direction::Sell => self.sell_rate(mid, tier),
        }
    }

    /// Whether every tier leaves a sell rate above zero: its combined fee
    /// rate is below 1.0.
    pub open spec fn is_valid(self) -> bool {
        self.fee_units(SettlementTier::Immediate) < SCALE && self.fee_units(
            SettlementTier::Delayed,
        ) < SCALE
    }

    /// The combined fee rate of `tier`, in units.
    pub fn combined_fee_units(&self, tier: SettlementTier) -> (fee: u64)
        ensures
            fee == self.fee_units(tier),
            fee <= 2 * MAX_UNITS,
    {
        match tier {
            SettlementTier::Immediate => self.base_fee_rate.units()
                + self.immediate_fee_rate.units(),
            SettlementTier::Delayed => self.base_fee_rate.units() + self.delayed_fee_rate.units(),
        }
    }

    /// Accepts the configuration where it is valid.
    pub fn validate(&self) -> (checked: Result<(), FeeCalculatorError>)
        ensures
            self.is_valid() ==> checked == Ok::<(), FeeCalculatorError>(()),
            !self.is_valid() ==> checked == Err::<(), FeeCalculatorError>(
                FeeCalculatorError::InvalidFeeConfiguration,
            ),
    {
        if self.combined_fee_units(SettlementTier::Immediate) < SCALE && self.combined_fee_units(
            SettlementTier::Delayed,
        ) < SCALE {
            Ok(())
        } else {
            Err(FeeCalculatorError::InvalidFeeConfiguration)
        }
    }
}

/// The spread lies around the mid-rate: marked down it is at most the
/// mid-rate, marked up it is at least the mid-rate, and both are the
/// mid-rate itself where the fee is zero.
pub proof fn lemma_spread_brackets_mid(fees: FeeCalculatorConfig, mid: nat, tier: SettlementTier)
    ensures
        mid <= fees.marked_up_units(mid, tier),
        fees.fee_units(tier) < SCALE ==> fees.marked_down_units(mid, tier) <= mid,
        fees.fee_units(tier) == 0 ==> fees.marked_up_units(mid, tier) == mid
            && fees.marked_down_units(mid, tier) == mid,
{
    let fee = fees.fee_units(tier) as int;
    let k = SCALE as int;
    let m = mid as int;
    assert((m * (k + fee)) / k >= m) by (nonlinear_arith)
        requires
            m >= 0,
            fee >= 0,
            k > 0,
    ;
    if fee < k {
        assert((m * (k - fee)) / k <= m && (m * (k - fee)) / k >= 0) by (nonlinear_arith)
            requires
                m >= 0,
                0 <= fee < k,
        ;
    }
    if fee == 0 {
        assert((m * k) / k == m) by (nonlinear_arith)
            requires
                k > 0,
        ;
    }
}

impl View for FeeCalculator {
    type V = FeeCalculatorConfig;

    closed spec fn view(&self) -> FeeCalculatorConfig {
        self.config
    }
}

impl FeeCalculator {
    /// A calculator with the given fee rates.
    pub fn new(config: FeeCalculatorConfig) -> (calculator: Self)
        ensures
            calculator@ == config,
    {
        FeeCalculator { config }
    }

    /// The fee rates.
    pub fn config(&self) -> (config: FeeCalculatorConfig)
        ensures
            config == self@,
    {
        self.config
    }

    /// The rate a customer buys at: `mid * (1 + base + tier's rate)`.
    ///
    /// Fails with `RateOutOfRange` where that is above the largest ratio.
    pub fn buy_rate(&self, mid: FixedPointRatio, tier: SettlementTier) -> (rate: Result<
        FixedPointRatio,
        FeeCalculatorError,
    >)
        ensures
            match rate {
                Ok(r) => self@.buy_rate(mid@, tier) == Ok::<nat, FeeCalculatorError>(r@),
                Err(e) => self@.buy_rate(mid@, tier) == Err::<nat, FeeCalculatorError>(e),
            },
    {
        let fee: u64 = self.config.combined_fee_units(tier);
        let factor: u128 = (SCALE as u128) + (fee as u128);
        let mid_units: u64 = mid.units();
        assert(mid_units * factor <= 1_000_000_000_000_000_000 * 2_000_001_000_000_000_000)
            by (nonlinear_arith)
            requires
                0 <= mid_units <= 1_000_000_000_000_000_000,
                0 <= factor <= 2_000_001_000_000_000_000,
        ;
        let product: u128 = (mid_units as u128) * factor;
        let units: u128 = product / (SCALE as u128);
        if units > MAX_UNITS as u128 {
            Err(FeeCalculatorError::RateOutOfRange)
        } else {
            match FixedPointRatio::from_units(units as u64) {
                Some(r) => Ok(r),
                None => Err(FeeCalculatorError::RateOutOfRange),
            }
        }
    }

    /// The rate a customer sells at: `mid * (1 - base - tier's rate)`.
    ///
    /// Fails with `InvalidFeeConfiguration` where the two fee rates add up
    /// to 1.0 or more.
    pub fn sell_rate(&self, mid: FixedPointRatio, tier: SettlementTier) -> (rate: Result<
        FixedPointRatio,
        FeeCalculatorError,
    >)
        ensures
            match rate {
                Ok(r) => self@.sell_rate(mid@, tier) == Ok::<nat, FeeCalculatorError>(r@),
                Err(e) => self@.sell_rate(mid@, tier) == Err::<nat, FeeCalculatorError>(e),
            },
    {
        let fee: u64 = self.config.combined_fee_units(tier);
        if fee >= SCALE {
            return Err(FeeCalculatorError::InvalidFeeConfiguration);
        }
        let factor: u128 = (SCALE as u128) - (fee as u128);
        let mid_units: u64 = mid.units();
        assert(mid_units * factor <= mid_units * SCALE) by (nonlinear_arith)
            requires
                0 <= mid_units,
                0 <= factor <= SCALE,
        ;
        assert(mid_units * SCALE <= 1_000_000_000_000_000_000 * 1_000_000_000_000)
            by (nonlinear_arith)
            requires
                0 <= mid_units <= 1_000_000_000_000_000_000,
                SCALE == 1_000_000_000_000,
        ;
        let product: u128 = (mid_units as u128) * factor;
        let units: u128 = product / (SCALE as u128);
        assert(units <= mid_units) by (nonlinear_arith)
            requires
                units == product / (SCALE as u128),
                product <= mid_units * SCALE,
                SCALE == 1_000_000_000_000,
                0 <= product,
        ;
        match FixedPointRatio::from_units(units as u64) {
            Some(r) => Ok(r),
            None => Err(FeeCalculatorError::InvalidFeeConfiguration),
        }
    }

    /// The rate of `direction`: the buy rate or the sell rate.
    pub fn effective_rate(
        &self,
        mid: FixedPointRatio,
        direction: Direction,
        tier: SettlementTier,
    ) -> (rate: Result<FixedPointRatio, FeeCalculatorError>)
        ensures
            match rate {
                Ok(r) => self@.rate(mid@, direction, tier) == Ok::<nat, FeeCalculatorError>(r@),
                Err(e) => self@.rate(mid@, direction, tier) == Err::<nat, FeeCalculatorError>(e),
            },
    {
        match direction {
            Direction::Buy => self.buy_rate(mid, tier),
            Direction::Sell => self.sell_rate(mid, tier),
        }
    }
}

} // verus!
