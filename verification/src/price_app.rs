//! The quoting service: the price cache and the fee calculator bound
//! together to answer conversion queries.
//!
//! Every conversion reads the mid-rate, expresses it in units of the target
//! currency per unit of the source currency, lets the fee calculator mark it
//! up (buy) or down (sell), multiplies the amount by the result and cuts the
//! fraction off.

use vstd::prelude::*;
use crate::amount::{Amount, Sats, UsdCents};
use crate::cache::{
    CacheState,
    ExchangePriceCache,
    ExchangePriceCacheConfig,
    ExchangePriceCacheError,
    ExchangeWeights,
    PriceStreamPayload,
    PriceTick,
};
use crate::fee_calculator::{
    Direction,
    FeeCalculator,
    FeeCalculatorConfig,
    FeeCalculatorError,
    SettlementTier,
};
use crate::ratio::{inverse_units, truncated_product, FixedPointRatio, MAX_UNITS, SCALE};
use crate::time::Timestamp;

verus! {

/// Which currency a conversion starts from and which it ends in.
#[derive(Clone, Copy, Debug, PartialEq, Eq, Structural)]
pub enum Conversion {
    SatsToCents,
    CentsToSats,
}

/// Why a query has no answer.
#[derive(Clone, Copy, Debug, PartialEq, Eq, Structural)]
pub enum PriceAppError {
    /// The cache has no mid-rate; its reason is handed on unchanged.
    ExchangePriceCacheError(ExchangePriceCacheError),
    /// The fee calculator has no rate; its reason is handed on unchanged.
    FeeCalculatorError(FeeCalculatorError),
    /// The mid-rate has no reciprocal that is a ratio, or the converted
    /// amount does not fit in 64 bits.
    ConversionOutOfRange,
}

/// What a quoting service consists of, as a plain value.
pub struct PriceAppState {
    pub cache: CacheState,
    pub fees: FeeCalculatorConfig,
}

/// The quoting service. Its view is a `PriceAppState`.
pub struct PriceApp {
    price_cache: ExchangePriceCache,
    fee_calculator: FeeCalculator,
}

/// Units of a mid-rate of `mid` units of cents per satoshi, expressed in the
/// target currency per unit of the source currency: itself from satoshis to
/// cents, its reciprocal from cents to satoshis. There is none where the
/// reciprocal is no ratio.
pub open spec fn base_units(mid: nat, conversion: Conversion) -> Option<nat> {
    match conversion {
        Conversion::SatsToCents => Some(mid),
        Conversion::CentsToSats => if mid > 0 && inverse_units(mid) <= MAX_UNITS {
            Some(inverse_units(mid))
        } else {
            None
        },
    }
}

/// `amount` converted at a rate of `rate` units, or the reason it cannot be.
pub open spec fn converted(amount: nat, rate: nat) -> Result<nat, PriceAppError> {
    if truncated_product(amount, rate) > u64::MAX {
        Err(PriceAppError::ConversionOutOfRange)
    } else {
        Ok(truncated_product(amount, rate))
    }
}

/// The outcome of a query for cents, with the amount as a number.
pub open spec fn cents_outcome(outcome: Result<UsdCents, PriceAppError>) -> Result<
    nat,
    PriceAppError,
> {
    match outcome {
        Ok(cents) => Ok(cents.amount as nat),
        Err(e) => Err(e),
    }
}

/// The outcome of a query for satoshis, with the amount as a number.
pub open spec fn sats_outcome(outcome: Result<Sats, PriceAppError>) -> Result<nat, PriceAppError> {
    match outcome {
        Ok(sats) => Ok(sats.amount as nat),
        Err(e) => Err(e),
    }
}

/// The outcome of a conversion of `amount` into the other unit, at the
/// service `state` and the time `now`: the converted amount in the unit
/// that `amount` is not in.
pub open spec fn amount_outcome(
    state: PriceAppState,
    amount: Amount,
    direction: Direction,
    tier: SettlementTier,
    now: Timestamp,
) -> Result<Amount, PriceAppError> {
    match amount {
        Amount::Sats(sats) => match state.convert(
            sats.amount as nat,
            Conversion::SatsToCents,
            direction,
            tier,
            now,
        ) {
            Ok(cents) => Ok(Amount::UsdCents(UsdCents { amount: cents as u64 })),
            Err(e) => Err(e),
        },
        Amount::UsdCents(cents) => match state.convert(
            cents.amount as nat,
            Conversion::CentsToSats,
            direction,
            tier,
            now,
        ) {
            Ok(sats) => Ok(Amount::Sats(Sats { amount: sats as u64 })),
            Err(e) => Err(e),
        },
    }
}

/// The outcome of a query for a rate, with the rate in units.
pub open spec fn rate_outcome(outcome: Result<FixedPointRatio, PriceAppError>) -> Result<
    nat,
    PriceAppError,
> {
    match outcome {
        Ok(rate) => Ok(rate@),
        Err(e) => Err(e),
    }
}

impl PriceAppState {
    /// The mid-rate at `now` in units of cents per satoshi, without fees.
    pub open spec fn mid_rate(self, now: Timestamp) -> Result<nat, PriceAppError> {
        match self.cache.mid_rate(now) {
            Ok(mid) => Ok(mid),
            Err(e) => Err(PriceAppError::ExchangePriceCacheError(e)),
        }
    }

    /// The rate at `now`, in units, that an amount is multiplied by in a
    /// conversion.
    pub open spec fn effective_rate(
        self,
        conversion: Conversion,
        direction: Direction,
        tier: SettlementTier,
        now: Timestamp,
    ) -> Result<nat, PriceAppError> {
        match self.cache.mid_rate(now) {
            Err(e) => Err(PriceAppError::ExchangePriceCacheError(e)),
            Ok(mid) => match base_units(mid, conversion) {
                None => Err(PriceAppError::ConversionOutOfRange),
                Some(base) => match self.fees.rate(base, direction, tier) {
                    Err(e) => Err(PriceAppError::FeeCalculatorError(e)),
                    Ok(rate) => Ok(rate),
                },
            },
        }
    }

    /// `amount` converted at `now`, or the reason it cannot be.
    pub open spec fn convert(
        self,
        amount: nat,
        conversion: Conversion,
        direction: Direction,
        tier: SettlementTier,
        now: Timestamp,
    ) -> Result<nat, PriceAppError> {
        match self.effective_rate(conversion, direction, tier, now) {
            Err(e) => Err(e),
            Ok(rate) => converted(amount, rate),
        }
    }
}

/// A service whose cache has taken no tick in answers every
/// query with `NoPriceAvailable`.
pub proof fn lemma_cold_service_has_no_price(
    state: PriceAppState,
    config: ExchangePriceCacheConfig,
    weights: ExchangeWeights,
    amount: nat,
    conversion: Conversion,
    direction: Direction,
    tier: SettlementTier,
    now: Timestamp,
)
    requires
        state.cache.is_cold(config, weights),
    ensures
        state.mid_rate(now) == Err::<nat, PriceAppError>(
            PriceAppError::ExchangePriceCacheError(ExchangePriceCacheError::NoPriceAvailable),
        ),
        state.convert(amount, conversion, direction, tier, now) == Err::<nat, PriceAppError>(
            PriceAppError::ExchangePriceCacheError(ExchangePriceCacheError::NoPriceAvailable),
        ),
{
}

/// Failures of the cache reach the caller unchanged, whatever is asked.
pub proof fn lemma_cache_failure_is_handed_on(
    state: PriceAppState,
    amount: nat,
    conversion: Conversion,
    direction: Direction,
    tier: SettlementTier,
    now: Timestamp,
)
    ensures
        match state.cache.mid_rate(now) {
            Err(e) => state.convert(amount, conversion, direction, tier, now) == Err::<
                nat,
                PriceAppError,
            >(PriceAppError::ExchangePriceCacheError(e)),
            Ok(_) => !(state.convert(amount, conversion, direction, tier, now)
                matches Err(PriceAppError::ExchangePriceCacheError(_))),
        },
{
}

/// On the buy side a single satoshi converts to zero cents whenever
/// `mid * (1 + fee)` is below one cent. On the sell side it converts to a
/// positive number of cents exactly when `mid * (1 - fee)` is at least one
/// cent.
pub proof fn lemma_one_sat_rounding(
    state: PriceAppState,
    mid: nat,
    tier: SettlementTier,
    now: Timestamp,
)
    requires
        state.cache.wf(),
        state.cache.mid_rate(now) == Ok::<nat, ExchangePriceCacheError>(mid),
    ensures
        mid * (SCALE + state.fees.fee_units(tier)) < SCALE * SCALE ==> state.convert(
            1,
            Conversion::SatsToCents,
            Direction::Buy,
            tier,
            now,
        ) == Ok::<nat, PriceAppError>(0),
        state.fees.fee_units(tier) < SCALE ==> {
            let sold = state.convert(1, Conversion::SatsToCents, Direction::Sell, tier, now);
            &&& sold.is_ok()
            &&& sold.unwrap() > 0 <==> mid * (SCALE - state.fees.fee_units(tier)) >= SCALE * SCALE
        },
{
    let fee = state.fees.fee_units(tier);
    let scale = SCALE as int;
    if mid * (SCALE + fee) < SCALE * SCALE {
        let up = state.fees.marked_up_units(mid, tier);
        assert(up < scale) by (nonlinear_arith)
            requires
                up == (mid * (scale + fee)) / scale,
                mid * (scale + fee) < scale * scale,
                scale > 0,
        ;
        assert(truncated_product(1, up) == 0) by (nonlinear_arith)
            requires
                truncated_product(1, up) == (1 * up) / (scale as nat),
                0 <= up < scale,
        ;
    }
    if fee < SCALE {
        let down = state.fees.marked_down_units(mid, tier);
        let product = mid * (scale - fee);
        assert(down <= mid && (down >= scale <==> product >= scale * scale)) by (nonlinear_arith)
            requires
                down == product / scale,
                product == mid * (scale - fee),
                0 <= fee < scale,
                mid >= 0,
        ;
        assert(truncated_product(1, down) == down / (scale as nat)) by (nonlinear_arith)
            requires
                truncated_product(1, down) == (1 * down) / (scale as nat),
        ;
        assert(down / (scale as nat) <= down && (down / (scale as nat) > 0 <==> down >= scale))
            by (nonlinear_arith)
            requires
                scale > 0,
                down >= 0,
        ;
        crate::cache::lemma_mid_rate_is_a_ratio(state.cache, now);
    }
}

/// The buy side of a conversion never gives less than the sell side of the
/// same conversion: where both have an answer, that of the buy side is the
/// greater or they are equal.
pub proof fn lemma_buy_at_least_sell(
    state: PriceAppState,
    amount: nat,
    conversion: Conversion,
    tier: SettlementTier,
    now: Timestamp,
)
    ensures
        match (
            state.convert(amount, conversion, Direction::Buy, tier, now),
            state.convert(amount, conversion, Direction::Sell, tier, now),
        ) {
            (Ok(bought), Ok(sold)) => sold <= bought,
            _ => true,
        },
{
    let bought = state.convert(amount, conversion, Direction::Buy, tier, now);
    let sold = state.convert(amount, conversion, Direction::Sell, tier, now);
    if bought.is_ok() && sold.is_ok() {
        let mid = state.cache.mid_rate(now).unwrap();
        let base = base_units(mid, conversion).unwrap();
        crate::fee_calculator::lemma_spread_brackets_mid(state.fees, base, tier);
        let up = state.fees.marked_up_units(base, tier) as int;
        let down = state.fees.marked_down_units(base, tier) as int;
        let k = SCALE as int;
        let a = amount as int;
        assert((a * down) / k <= (a * up) / k) by (nonlinear_arith)
            requires
                0 <= down <= up,
                a >= 0,
                k > 0,
        ;
    }
}

/// Satoshis converted to cents on the buy side and the cents
/// converted back on the sell side, at one time and for one tier, never
/// come back as more satoshis than went in; with a fee above zero they
/// come back as fewer, unless none went in.
pub proof fn lemma_round_trip_never_gains(
    state: PriceAppState,
    sats: nat,
    tier: SettlementTier,
    now: Timestamp,
)
    ensures
        match state.convert(sats, Conversion::SatsToCents, Direction::Buy, tier, now) {
            Ok(cents) => match state.convert(
                cents,
                Conversion::CentsToSats,
                Direction::Sell,
                tier,
                now,
            ) {
                Ok(back) => back <= sats && (state.fees.fee_units(tier) > 0 && sats > 0 ==> back
                    < sats),
                Err(_) => true,
            },
            Err(_) => true,
        },
{
    let bought = state.convert(sats, Conversion::SatsToCents, Direction::Buy, tier, now);
    if bought.is_ok() {
        let cents = bought.unwrap();
        let sold = state.convert(cents, Conversion::CentsToSats, Direction::Sell, tier, now);
        if sold.is_ok() {
            let back = sold.unwrap();
            let mid = state.cache.mid_rate(now).unwrap();
            let fee = state.fees.fee_units(tier) as int;
            let k = SCALE as int;
            let up = state.fees.marked_up_units(mid, tier) as int;
            let inverse = inverse_units(mid) as int;
            let down = state.fees.marked_down_units(inverse as nat, tier) as int;
            lemma_round_trip_arithmetic(
                sats as int,
                mid as int,
                fee,
                k,
                up,
                cents as int,
                inverse,
                down,
                back as int,
            );
        }
    }
}

/// The arithmetic of the round trip: each step cuts a fraction off, and
/// `(1 + fee) * (1 - fee)` is at most one.
proof fn lemma_round_trip_arithmetic(
    sats: int,
    mid: int,
    fee: int,
    k: int,
    up: int,
    cents: int,
    inverse: int,
    down: int,
    back: int,
)
    requires
        sats >= 0,
        mid > 0,
        k > 0,
        0 <= fee < k,
        up == (mid * (k + fee)) / k,
        cents == (sats * up) / k,
        inverse == (k * k) / mid,
        down == (inverse * (k - fee)) / k,
        back == (cents * down) / k,
    ensures
        back <= sats,
        fee > 0 && sats > 0 ==> back < sats,
{
    assert(up * k <= mid * (k + fee) && up >= 0) by (nonlinear_arith)
        requires
            up == (mid * (k + fee)) / k,
            k > 0,
            mid > 0,
            fee >= 0,
    ;
    assert(cents * k <= sats * up && cents >= 0) by (nonlinear_arith)
        requires
            cents == (sats * up) / k,
            k > 0,
            sats >= 0,
            up >= 0,
    ;
    assert(inverse * mid <= k * k && inverse >= 0) by (nonlinear_arith)
        requires
            inverse == (k * k) / mid,
            mid > 0,
            k > 0,
    ;
    assert(down * k <= inverse * (k - fee) && down >= 0) by (nonlinear_arith)
        requires
            down == (inverse * (k - fee)) / k,
            k > 0,
            inverse >= 0,
            fee < k,
    ;
    assert(back * k <= cents * down && back >= 0) by (nonlinear_arith)
        requires
            back == (cents * down) / k,
            k > 0,
            cents >= 0,
            down >= 0,
    ;
    // cents * k <= sats * up and up * k <= mid * (k + fee):
    assert(cents * k * k <= sats * mid * (k + fee)) by (nonlinear_arith)
        requires
            cents * k <= sats * up,
            up * k <= mid * (k + fee),
            sats >= 0,
            k > 0,
    ;
    // down * k <= inverse * (k - fee) and inverse * mid <= k * k:
    assert(down * mid <= k * (k - fee)) by (nonlinear_arith)
        requires
            down * k <= inverse * (k - fee),
            inverse * mid <= k * k,
            mid > 0,
            k > 0,
            fee < k,
            down >= 0,
            inverse >= 0,
    ;
    // back * k <= cents * down:
    assert(back * k * mid <= cents * k * (k - fee)) by (nonlinear_arith)
        requires
            back * k <= cents * down,
            down * mid <= k * (k - fee),
            cents >= 0,
            mid > 0,
    ;
    assert(back * mid <= cents * (k - fee)) by (nonlinear_arith)
        requires
            back * k * mid <= cents * k * (k - fee),
            k > 0,
    ;
    assert(back * mid * (k * k) <= sats * mid * ((k + fee) * (k - fee))) by (nonlinear_arith)
        requires
            back * mid <= cents * (k - fee),
            cents * k * k <= sats * mid * (k + fee),
            k > 0,
            fee < k,
    ;
    assert(back * (k * k) <= sats * (k * k - fee * fee)) by (nonlinear_arith)
        requires
            back * mid * (k * k) <= sats * mid * ((k + fee) * (k - fee)),
            mid > 0,
    ;
    assert(back <= sats && (fee > 0 && sats > 0 ==> back < sats)) by (nonlinear_arith)
        requires
            back * (k * k) <= sats * (k * k - fee * fee),
            k > 0,
            0 <= fee < k,
            sats >= 0,
            back >= 0,
    ;
}

impl View for PriceApp {
    type V = PriceAppState;

    closed spec fn view(&self) -> PriceAppState {
        PriceAppState { cache: self.price_cache@, fees: self.fee_calculator@ }
    }
}

impl PriceApp {
    /// A quoting service with an empty cache.
    pub fn new(
        fee_calc_cfg: FeeCalculatorConfig,
        price_cache_config: ExchangePriceCacheConfig,
        exchange_weights: ExchangeWeights,
    ) -> (app: Self)
        ensures
            app@.fees == fee_calc_cfg,
            app@.cache.is_cold(price_cache_config, exchange_weights),
    {
        PriceApp {
            price_cache: ExchangePriceCache::new(price_cache_config, exchange_weights),
            fee_calculator: FeeCalculator::new(fee_calc_cfg),
        }
    }

    /// Takes a tick into the cache. The fee rates stay as they are.
    pub fn apply_tick(&mut self, tick: PriceTick)
        ensures
            final(self)@.cache == old(self)@.cache.apply(tick),
            final(self)@.fees == old(self)@.fees,
    {
        self.price_cache.apply_tick(tick);
    }

    /// Takes a message of a feed into the cache. The fee rates stay as
    /// they are.
    pub fn apply_update(&mut self, payload: PriceStreamPayload)
        ensures
            final(self)@.cache == old(self)@.cache.update(payload),
            final(self)@.fees == old(self)@.fees,
    {
        self.price_cache.apply_update(payload);
    }

    /// The mid-rate at `now` in cents per satoshi, without fees.
    pub fn mid_rate_at(&self, now: Timestamp) -> (rate: Result<FixedPointRatio, PriceAppError>)
        ensures
            rate_outcome(rate) == self@.mid_rate(now),
    {
        match self.price_cache.mid_rate(now) {
            Ok(mid) => Ok(mid),
            Err(e) => Err(PriceAppError::ExchangePriceCacheError(e)),
        }
    }

    /// The rate at `now` that an amount is multiplied by in a conversion.
    pub fn effective_rate_at(
        &self,
        conversion: Conversion,
        direction: Direction,
        tier: SettlementTier,
        now: Timestamp,
    ) -> (rate: Result<FixedPointRatio, PriceAppError>)
        ensures
            rate_outcome(rate) == self@.effective_rate(conversion, direction, tier, now),
    {
        let mid: FixedPointRatio = match self.price_cache.mid_rate(now) {
            Ok(mid) => mid,
            Err(e) => {
                return Err(PriceAppError::ExchangePriceCacheError(e));
            },
        };
        let base: FixedPointRatio = match conversion {
            Conversion::SatsToCents => mid,
            Conversion::CentsToSats => match mid.checked_inverse() {
                Some(inverse) => inverse,
                None => {
                    return Err(PriceAppError::ConversionOutOfRange);
                },
            },
        };
        match self.fee_calculator.effective_rate(base, direction, tier) {
            Ok(rate) => Ok(rate),
            Err(e) => Err(PriceAppError::FeeCalculatorError(e)),
        }
    }

    /// The cents that `sats` convert to at `now`.
    pub fn cents_from_sats_at(
        &self,
        sats: Sats,
        direction: Direction,
        tier: SettlementTier,
        now: Timestamp,
    ) -> (cents: Result<UsdCents, PriceAppError>)
        ensures
            cents_outcome(cents) == self@.convert(
                sats.amount as nat,
                Conversion::SatsToCents,
                direction,
                tier,
                now,
            ),
    {
        match self.effective_rate_at(Conversion::SatsToCents, direction, tier, now) {
            Err(e) => Err(e),
            Ok(rate) => match sats.to_cents(rate) {
                Some(cents) => Ok(cents),
                None => Err(PriceAppError::ConversionOutOfRange),
            },
        }
    }

    /// The satoshis that `cents` convert to at `now`.
    pub fn sats_from_cents_at(
        &self,
        cents: UsdCents,
        direction: Direction,
        tier: SettlementTier,
        now: Timestamp,
    ) -> (sats: Result<Sats, PriceAppError>)
        ensures
            sats_outcome(sats) == self@.convert(
                cents.amount as nat,
                Conversion::CentsToSats,
                direction,
                tier,
                now,
            ),
    {
        match self.effective_rate_at(Conversion::CentsToSats, direction, tier, now) {
            Err(e) => Err(e),
            Ok(rate) => match cents.to_sats(rate) {
                Some(sats) => Ok(sats),
                None => Err(PriceAppError::ConversionOutOfRange),
            },
        }
    }

    /// `amount` converted into the other unit at `now`: satoshis into
    /// cents, cents into satoshis.
    pub fn convert_at(
        &self,
        amount: Amount,
        direction: Direction,
        tier: SettlementTier,
        now: Timestamp,
    ) -> (converted: Result<Amount, PriceAppError>)
        ensures
            converted == amount_outcome(self@, amount, direction, tier, now),
    {
        match amount {
            Amount::Sats(sats) => match self.cents_from_sats_at(sats, direction, tier, now) {
                Ok(cents) => Ok(Amount::UsdCents(cents)),
                Err(e) => Err(e),
            },
            Amount::UsdCents(cents) => match self.sats_from_cents_at(cents, direction, tier, now) {
                Ok(sats) => Ok(Amount::Sats(sats)),
                Err(e) => Err(e),
            },
        }
    }

    /// `amount` converted into the other unit now.
    ///
    /// The time of the query is read from the system clock.
    pub fn convert(&self, amount: Amount, direction: Direction, tier: SettlementTier) -> (converted:
        Result<Amount, PriceAppError>)
        ensures
            exists|now: Timestamp|
                converted == #[trigger] amount_outcome(self@, amount, direction, tier, now),
    {
        self.convert_at(amount, direction, tier, Timestamp::now())
    }

    /// The cents that `sats` cost a buyer now, settled at once.
    ///
    /// The time of the query is read from the system clock.
    pub fn get_cents_from_sats_for_immediate_buy(&self, sats: Sats) -> (cents: Result<
        UsdCents,
        PriceAppError,
    >)
        ensures
            exists|now: Timestamp|
                cents_outcome(cents) == #[trigger] self@.convert(
                    sats.amount as nat,
                    Conversion::SatsToCents,
                    Direction::Buy,
                    SettlementTier::Immediate,
                    now,
                ),
    {
        self.cents_from_sats_at(
            sats,
            Direction::Buy,
            SettlementTier::Immediate,
            Timestamp::now(),
        )
    }

    /// The cents that `sats` bring a seller now, settled at once.
    ///
    /// The time of the query is read from the system clock.
    pub fn get_cents_from_sats_for_immediate_sell(&self, sats: Sats) -> (cents: Result<
        UsdCents,
        PriceAppError,
    >)
        ensures
            exists|now: Timestamp|
                cents_outcome(cents) == #[trigger] self@.convert(
                    sats.amount as nat,
                    Conversion::SatsToCents,
                    Direction::Sell,
                    SettlementTier::Immediate,
                    now,
                ),
    {
        self.cents_from_sats_at(
            sats,
            Direction::Sell,
            SettlementTier::Immediate,
            Timestamp::now(),
        )
    }

    /// The cents that `sats` cost a buyer now, settled later.
    ///
    /// The time of the query is read from the system clock.
    pub fn get_cents_from_sats_for_future_buy(&self, sats: Sats) -> (cents: Result<
        UsdCents,
        PriceAppError,
    >)
        ensures
            exists|now: Timestamp|
                cents_outcome(cents) == #[trigger] self@.convert(
                    sats.amount as nat,
                    Conversion::SatsToCents,
                    Direction::Buy,
                    SettlementTier::Delayed,
                    now,
                ),
    {
        self.cents_from_sats_at(
            sats,
            Direction::Buy,
            SettlementTier::Delayed,
            Timestamp::now(),
        )
    }

    /// The cents that `sats` bring a seller now, settled later.
    ///
    /// The time of the query is read from the system clock.
    pub fn get_cents_from_sats_for_future_sell(&self, sats: Sats) -> (cents: Result<
        UsdCents,
        PriceAppError,
    >)
        ensures
            exists|now: Timestamp|
                cents_outcome(cents) == #[trigger] self@.convert(
                    sats.amount as nat,
                    Conversion::SatsToCents,
                    Direction::Sell,
                    SettlementTier::Delayed,
                    now,
                ),
    {
        self.cents_from_sats_at(
            sats,
            Direction::Sell,
            SettlementTier::Delayed,
            Timestamp::now(),
        )
    }

    /// The satoshis that `cents` cost a buyer now, settled at once.
    ///
    /// The time of the query is read from the system clock.
    pub fn get_sats_from_cents_for_immediate_buy(&self, cents: UsdCents) -> (sats: Result<
        Sats,
        PriceAppError,
    >)
        ensures
            exists|now: Timestamp|
                sats_outcome(sats) == #[trigger] self@.convert(
                    cents.amount as nat,
                    Conversion::CentsToSats,
                    Direction::Buy,
                    SettlementTier::Immediate,
                    now,
                ),
    {
        self.sats_from_cents_at(
            cents,
            Direction::Buy,
            SettlementTier::Immediate,
            Timestamp::now(),
        )
    }

    /// The satoshis that `cents` bring a seller now, settled at once.
    ///
    /// The time of the query is read from the system clock.
    pub fn get_sats_from_cents_for_immediate_sell(&self, cents: UsdCents) -> (sats: Result<
        Sats,
        PriceAppError,
    >)
        ensures
            exists|now: Timestamp|
                sats_outcome(sats) == #[trigger] self@.convert(
                    cents.amount as nat,
                    Conversion::CentsToSats,
                    Direction::Sell,
                    SettlementTier::Immediate,
                    now,
                ),
    {
        self.sats_from_cents_at(
            cents,
            Direction::Sell,
            SettlementTier::Immediate,
            Timestamp::now(),
        )
    }

    /// The satoshis that `cents` cost a buyer now, settled later.
    ///
    /// The time of the query is read from the system clock.
    pub fn get_sats_from_cents_for_future_buy(&self, cents: UsdCents) -> (sats: Result<
        Sats,
        PriceAppError,
    >)
        ensures
            exists|now: Timestamp|
                sats_outcome(sats) == #[trigger] self@.convert(
                    cents.amount as nat,
                    Conversion::CentsToSats,
                    Direction::Buy,
                    SettlementTier::Delayed,
                    now,
                ),
    {
        self.sats_from_cents_at(
            cents,
            Direction::Buy,
            SettlementTier::Delayed,
            Timestamp::now(),
        )
    }

    /// The satoshis that `cents` bring a seller now, settled later.
    ///
    /// The time of the query is read from the system clock.
    pub fn get_sats_from_cents_for_future_sell(&self, cents: UsdCents) -> (sats: Result<
        Sats,
        PriceAppError,
    >)
        ensures
            exists|now: Timestamp|
                sats_outcome(sats) == #[trigger] self@.convert(
                    cents.amount as nat,
                    Conversion::CentsToSats,
                    Direction::Sell,
                    SettlementTier::Delayed,
                    now,
                ),
    {
        self.sats_from_cents_at(
            cents,
            Direction::Sell,
            SettlementTier::Delayed,
            Timestamp::now(),
        )
    }

    /// The mid-rate now in cents per satoshi, without fees.
    ///
    /// The time of the query is read from the system clock.
    pub fn get_cents_per_sat_exchange_mid_rate(&self) -> (rate: Result<
        FixedPointRatio,
        PriceAppError,
    >)
        ensures
            exists|now: Timestamp| rate_outcome(rate) == #[trigger] self@.mid_rate(now),
    {
        self.mid_rate_at(Timestamp::now())
    }
}

} // verus!
