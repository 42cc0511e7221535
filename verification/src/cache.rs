//! The price cache: the latest tick of each exchange and the mid-rate that
//! the fresh ones agree on.

use vstd::prelude::*;
use crate::ratio::{Decimal, FixedPointRatio};
use crate::time::{Duration, Timestamp};

verus! {

/// The exchanges that report prices.
#[derive(Clone, Copy, Debug, PartialEq, Eq, Structural)]
pub enum ExchangeId {
    Okex,
    Bitfinex,
}

/// One exchange's observation of the price of a satoshi in cents.
#[derive(Clone, Copy, Debug, PartialEq, Eq, Structural)]
pub struct PriceTick {
    pub source: ExchangeId,
    pub bid_rate: FixedPointRatio,
    pub ask_rate: FixedPointRatio,
    pub observed_at: Timestamp,
}

/// A price message as a feed publishes it: bid and ask in cents per
/// satoshi, and the time they were observed at.
#[derive(Clone, Copy, Debug, PartialEq, Eq, Structural)]
pub struct PriceMessagePayload {
    pub timestamp: Timestamp,
    pub bid_price: Decimal,
    pub ask_price: Decimal,
}

/// A price message, tagged with the feed it came from.
#[derive(Clone, Copy, Debug, PartialEq, Eq, Structural)]
pub enum PriceStreamPayload {
    OkexBtcSwapPricePayload(PriceMessagePayload),
    BitfinexBtcUsdSwapPricePayload(PriceMessagePayload),
}

/// The weight of each exchange in the mid-rate. An exchange without a
/// weight, or with the weight zero, takes no part in it.
#[derive(Clone, Copy, Debug)]
pub struct ExchangeWeights {
    pub okex: Option<FixedPointRatio>,
    pub bitfinex: Option<FixedPointRatio>,
}

/// How long a tick stays usable.
#[derive(Clone, Copy, Debug, PartialEq, Eq, Structural)]
pub struct ExchangePriceCacheConfig {
    pub stale_after: Duration,
}

/// What the cache holds of one exchange: its weight and its latest tick.
#[derive(Clone, Copy, Debug)]
pub struct CacheEntry {
    pub weight: FixedPointRatio,
    pub latest: Option<PriceTick>,
}

/// Why the cache has no mid-rate.
#[derive(Clone, Copy, Debug, PartialEq, Eq, Structural)]
pub enum ExchangePriceCacheError {
    /// No weighted exchange has reported a tick yet.
    NoPriceAvailable,
    /// Every weighted exchange that has reported is past the staleness
    /// threshold; the payload is the age of the youngest of their ticks.
    StalePrice(Duration),
}

/// The contents of a price cache, as a plain value.
pub struct CacheState {
    pub stale_after: Duration,
    pub okex: CacheEntry,
    pub bitfinex: CacheEntry,
}

/// The price cache. Its view is its contents as a `CacheState`.
pub struct ExchangePriceCache {
    state: CacheState,
}

/// Units of the weighted mean of mid-rates, from the sum of
/// `weight * (bid + ask)` over the fresh exchanges and the sum of their
/// weights: each mid-rate is `(bid + ask) / 2`, and the fraction of a unit
/// is cut off once, at the end.
pub open spec fn weighted_mid_units(quotes: nat, weights: nat) -> nat
    recommends
        weights > 0,
{
    quotes / (2 * weights)
}

impl Default for ExchangePriceCacheConfig {
    /// Ticks stay usable for thirty seconds.
    fn default() -> (config: Self)
        ensures
            config.stale_after.seconds == 30,
    {
        ExchangePriceCacheConfig { stale_after: Duration { seconds: 30 } }
    }
}

impl ExchangeWeights {
    /// Units of the weight of `id`; zero where it has none.
    pub open spec fn weight_units(self, id: ExchangeId) -> nat {
        match id {
            ExchangeId::Okex => match self.okex {
                Some(w) => w@,
                None => 0,
            },
            ExchangeId::Bitfinex => match self.bitfinex {
                Some(w) => w@,
                None => 0,
            },
        }
    }

    /// The weight of `id`; zero where it has none.
    pub fn weight_of(&self, id: ExchangeId) -> (weight: FixedPointRatio)
        ensures
            weight@ == self.weight_units(id),
    {
        let configured: Option<FixedPointRatio> = match id {
            ExchangeId::Okex => self.okex,
            ExchangeId::Bitfinex => self.bitfinex,
        };
        match configured {
            Some(w) => w,
            None => FixedPointRatio::zero(),
        }
    }

    /// Whether at least one exchange has a weight above zero.
    pub fn has_weighted_exchange(&self) -> (any: bool)
        ensures
            any == (self.weight_units(ExchangeId::Okex) > 0 || self.weight_units(
                ExchangeId::Bitfinex,
            ) > 0),
    {
        !self.weight_of(ExchangeId::Okex).is_zero() || !self.weight_of(
            ExchangeId::Bitfinex,
        ).is_zero()
    }
}

impl PriceStreamPayload {
    /// The exchange that the message came from.
    pub open spec fn source(self) -> ExchangeId {
        match self {
            PriceStreamPayload::OkexBtcSwapPricePayload(_) => ExchangeId::Okex,
            PriceStreamPayload::BitfinexBtcUsdSwapPricePayload(_) => ExchangeId::Bitfinex,
        }
    }

    /// The message without its tag.
    pub open spec fn message(self) -> PriceMessagePayload {
        match self {
            PriceStreamPayload::OkexBtcSwapPricePayload(message) => message,
            PriceStreamPayload::BitfinexBtcUsdSwapPricePayload(message) => message,
        }
    }

    /// The tick that the message stands for. A message with a price that is
    /// no ratio, being negative or out of range, stands for none.
    pub open spec fn as_tick(self) -> Option<PriceTick> {
        match (self.message().bid_price.as_units(), self.message().ask_price.as_units()) {
            (Ok(bid), Ok(ask)) => Some(
                PriceTick {
                    source: self.source(),
                    bid_rate: FixedPointRatio::of_units(bid),
                    ask_rate: FixedPointRatio::of_units(ask),
                    observed_at: self.message().timestamp,
                },
            ),
            _ => None,
        }
    }

    /// The tick that the message stands for, if it stands for one.
    pub fn to_tick(&self) -> (tick: Option<PriceTick>)
        ensures
            tick == self.as_tick(),
    {
        let (source, message): (ExchangeId, PriceMessagePayload) = match self {
            PriceStreamPayload::OkexBtcSwapPricePayload(message) => (ExchangeId::Okex, *message),
            PriceStreamPayload::BitfinexBtcUsdSwapPricePayload(message) => (
                ExchangeId::Bitfinex,
                *message,
            ),
        };
        let bid_rate: FixedPointRatio = match FixedPointRatio::from_number(message.bid_price) {
            Ok(rate) => rate,
            Err(_) => {
                return None;
            },
        };
        let ask_rate: FixedPointRatio = match FixedPointRatio::from_number(message.ask_price) {
            Ok(rate) => rate,
            Err(_) => {
                return None;
            },
        };
        proof {
            bid_rate.lemma_of_units();
            ask_rate.lemma_of_units();
        }
        Some(PriceTick { source, bid_rate, ask_rate, observed_at: message.timestamp })
    }
}

impl PriceTick {
    /// Whether both rates are ratios in range.
    pub open spec fn wf(self) -> bool {
        self.bid_rate.wf() && self.ask_rate.wf()
    }
}

impl CacheEntry {
    /// Whether the weight and the rates of the tick are ratios in range.
    pub open spec fn wf(self) -> bool {
        self.weight.wf() && (self.latest.is_some() ==> self.latest.unwrap().wf())
    }

    /// Whether `tick` replaces the latest tick of this entry: it does when
    /// the entry has none, or when it was observed strictly later.
    pub open spec fn accepts(self, tick: PriceTick) -> bool {
        match self.latest {
            None => true,
            Some(held) => tick.observed_at.seconds > held.observed_at.seconds,
        }
    }

    /// The entry after `tick` has been offered to it.
    pub open spec fn offered(self, tick: PriceTick) -> CacheEntry {
        if self.accepts(tick) {
            CacheEntry { weight: self.weight, latest: Some(tick) }
        } else {
            self
        }
    }
}

impl CacheState {
    /// Whether every ratio held is in range, as it is in every cache.
    pub open spec fn wf(self) -> bool {
        self.okex.wf() && self.bitfinex.wf()
    }

    /// Whether this is the state of a cache that was set up with `config`
    /// and `weights` and has taken no tick in yet.
    pub open spec fn is_cold(
        self,
        config: ExchangePriceCacheConfig,
        weights: ExchangeWeights,
    ) -> bool {
        &&& self.stale_after == config.stale_after
        &&& self.okex.latest.is_none()
        &&& self.okex.weight@ == weights.weight_units(ExchangeId::Okex)
        &&& self.bitfinex.latest.is_none()
        &&& self.bitfinex.weight@ == weights.weight_units(ExchangeId::Bitfinex)
    }

    /// The entry of `id`.
    pub open spec fn entry(self, id: ExchangeId) -> CacheEntry {
        match id {
            ExchangeId::Okex => self.okex,
            ExchangeId::Bitfinex => self.bitfinex,
        }
    }

    /// The state after `tick` has been applied: the entry of its source has
    /// been offered the tick, and nothing else has changed.
    pub open spec fn apply(self, tick: PriceTick) -> CacheState {
        match tick.source {
            ExchangeId::Okex => CacheState {
                stale_after: self.stale_after,
                okex: self.okex.offered(tick),
                bitfinex: self.bitfinex,
            },
            ExchangeId::Bitfinex => CacheState {
                stale_after: self.stale_after,
                okex: self.okex,
                bitfinex: self.bitfinex.offered(tick),
            },
        }
    }

    /// The state after a message has been taken in: its tick has been
    /// applied, or nothing has changed where it stands for none.
    pub open spec fn update(self, payload: PriceStreamPayload) -> CacheState {
        match payload.as_tick() {
            Some(tick) => self.apply(tick),
            None => self,
        }
    }

    /// The state after all of `ticks` have been applied, first to last.
    pub open spec fn apply_all(self, ticks: Seq<PriceTick>) -> CacheState
        decreases ticks.len(),
    {
        if ticks.len() == 0 {
            self
        } else {
            self.apply_all(ticks.drop_last()).apply(ticks.last())
        }
    }

    /// Whether `id` counts: it has a weight above zero and has reported.
    pub open spec fn observed(self, id: ExchangeId) -> bool {
        self.entry(id).weight@ > 0 && self.entry(id).latest.is_some()
    }

    /// Seconds from the latest tick of `id` to `now`.
    pub open spec fn age(self, id: ExchangeId, now: Timestamp) -> int
        recommends
            self.entry(id).latest.is_some(),
    {
        self.entry(id).latest.unwrap().observed_at.age_at(now)
    }

    /// Whether `id` takes part in the mid-rate at `now`: it counts, and
    /// its latest tick is younger than the staleness threshold.
    pub open spec fn fresh(self, id: ExchangeId, now: Timestamp) -> bool {
        self.observed(id) && self.age(id, now) < self.stale_after.seconds
    }

    /// The weight that `id` brings to the mid-rate at `now`.
    pub open spec fn fresh_weight(self, id: ExchangeId, now: Timestamp) -> nat {
        if self.fresh(id, now) {
            self.entry(id).weight@
        } else {
            0
        }
    }

    /// `weight * (bid + ask)` of `id` where it is fresh at `now`, else zero.
    pub open spec fn fresh_quotes(self, id: ExchangeId, now: Timestamp) -> nat {
        if self.fresh(id, now) {
            let tick = self.entry(id).latest.unwrap();
            self.entry(id).weight@ * (tick.bid_rate@ + tick.ask_rate@)
        } else {
            0
        }
    }

    /// The age at `now` of the youngest tick among the exchanges that count.
    pub open spec fn youngest_age(self, now: Timestamp) -> int
        recommends
            self.observed(ExchangeId::Okex) || self.observed(ExchangeId::Bitfinex),
    {
        if self.observed(ExchangeId::Okex) && self.observed(ExchangeId::Bitfinex) {
            if self.age(ExchangeId::Okex, now) <= self.age(ExchangeId::Bitfinex, now) {
                self.age(ExchangeId::Okex, now)
            } else {
                self.age(ExchangeId::Bitfinex, now)
            }
        } else if self.observed(ExchangeId::Okex) {
            self.age(ExchangeId::Okex, now)
        } else {
            self.age(ExchangeId::Bitfinex, now)
        }
    }

    /// The mid-rate at `now`, in units, or the reason there is none.
    ///
    /// With no exchange that counts there is no price yet. With some, but
    /// none of them fresh, the price is stale. Otherwise the mid-rate is the
    /// weighted mean of the fresh exchanges' mid-rates.
    pub open spec fn mid_rate(self, now: Timestamp) -> Result<nat, ExchangePriceCacheError> {
        if !self.observed(ExchangeId::Okex) && !self.observed(ExchangeId::Bitfinex) {
            Err(ExchangePriceCacheError::NoPriceAvailable)
        } else if !self.fresh(ExchangeId::Okex, now) && !self.fresh(ExchangeId::Bitfinex, now) {
            Err(
                ExchangePriceCacheError::StalePrice(
                    Duration { seconds: self.youngest_age(now) as u64 },
                ),
            )
        } else {
            Ok(
                weighted_mid_units(
                    self.fresh_quotes(ExchangeId::Okex, now) + self.fresh_quotes(
                        ExchangeId::Bitfinex,
                        now,
                    ),
                    self.fresh_weight(ExchangeId::Okex, now) + self.fresh_weight(
                        ExchangeId::Bitfinex,
                        now,
                    ),
                ),
            )
        }
    }
}

/// A message whose prices are ratios stands for the tick from its feed
/// that carries those prices and that time; any other stands for none.
pub proof fn lemma_tick_of_message(payload: PriceStreamPayload)
    ensures
        payload.as_tick().is_some() <==> payload.message().bid_price.as_units().is_ok()
            && payload.message().ask_price.as_units().is_ok(),
        payload.as_tick().is_some() ==> {
            let tick = payload.as_tick().unwrap();
            &&& tick.wf()
            &&& tick.source == payload.source()
            &&& tick.observed_at == payload.message().timestamp
            &&& Ok::<nat, crate::ratio::RatioError>(tick.bid_rate@)
                == payload.message().bid_price.as_units()
            &&& Ok::<nat, crate::ratio::RatioError>(tick.ask_rate@)
                == payload.message().ask_price.as_units()
        },
{
    if payload.as_tick().is_some() {
        crate::ratio::lemma_as_units_in_range(payload.message().bid_price);
        crate::ratio::lemma_as_units_in_range(payload.message().ask_price);
        FixedPointRatio::lemma_units_of(payload.message().bid_price.as_units().unwrap());
        FixedPointRatio::lemma_units_of(payload.message().ask_price.as_units().unwrap());
    }
}

/// Whether `held` is what the entry of `source` holds after `ticks` have
/// been applied to a cache whose entry held `before`: the tick with the
/// greatest timestamp among `before` and the ticks of `source`, and of
/// several with that timestamp the one that came first.
pub open spec fn is_latest_of(
    held: Option<PriceTick>,
    before: Option<PriceTick>,
    ticks: Seq<PriceTick>,
    source: ExchangeId,
) -> bool {
    &&& before.is_some() ==> held.is_some() && before.unwrap().observed_at.seconds
        <= held.unwrap().observed_at.seconds
    &&& forall|i: int|
        0 <= i < ticks.len() && (#[trigger] ticks[i]).source == source ==> held.is_some()
            && ticks[i].observed_at.seconds <= held.unwrap().observed_at.seconds
    &&& held.is_some() ==> held == before || exists|i: int|
        {
            &&& 0 <= i < ticks.len()
            &&& #[trigger] ticks[i] == held.unwrap()
            &&& ticks[i].source == source
            &&& before.is_some() ==> before.unwrap().observed_at.seconds
                < ticks[i].observed_at.seconds
            &&& forall|j: int|
                0 <= j < i && (#[trigger] ticks[j]).source == source
                    ==> ticks[j].observed_at.seconds < ticks[i].observed_at.seconds
        }
}

/// Whatever ticks are applied, in whatever order and mixed
/// with whatever ticks of other exchanges, the entry of `source` ends up
/// with the greatest timestamp seen for it and with the bid and ask of the
/// tick that bore it. Weights and threshold stay as they were.
pub proof fn lemma_latest_tick_wins(state: CacheState, ticks: Seq<PriceTick>, source: ExchangeId)
    ensures
        state.apply_all(ticks).stale_after == state.stale_after,
        state.apply_all(ticks).entry(source).weight == state.entry(source).weight,
        is_latest_of(
            state.apply_all(ticks).entry(source).latest,
            state.entry(source).latest,
            ticks,
            source,
        ),
    decreases ticks.len(),
{
    if ticks.len() > 0 {
        let earlier = ticks.drop_last();
        let last = ticks.last();
        let before = state.entry(source).latest;
        let middle = state.apply_all(earlier).entry(source);
        let held = state.apply_all(ticks).entry(source).latest;
        lemma_latest_tick_wins(state, earlier, source);
        assert forall|i: int| 0 <= i < earlier.len() implies earlier[i] == ticks[i] by {}
        if last.source == source && middle.accepts(last) {
            // The tick that came last is the one held: all before it are older.
            assert(ticks[ticks.len() - 1] == held.unwrap());
        } else if held.is_some() && held != before {
            // The tick held is the one that was held before the last came.
            let i = choose|i: int|
                {
                    &&& 0 <= i < earlier.len()
                    &&& #[trigger] earlier[i] == held.unwrap()
                    &&& earlier[i].source == source
                    &&& before.is_some() ==> before.unwrap().observed_at.seconds
                        < earlier[i].observed_at.seconds
                    &&& forall|j: int|
                        0 <= j < i && (#[trigger] earlier[j]).source == source
                            ==> earlier[j].observed_at.seconds < earlier[i].observed_at.seconds
                };
            assert(ticks[i] == held.unwrap());
        }
    }
}

/// A mid-rate lies within the range of ratios: it is a mean of rates that
/// do.
pub proof fn lemma_mid_rate_is_a_ratio(state: CacheState, now: Timestamp)
    requires
        state.wf(),
    ensures
        state.mid_rate(now).is_ok() ==> state.mid_rate(now).unwrap() <= crate::ratio::MAX_UNITS,
{
    if state.mid_rate(now).is_ok() {
        let max = crate::ratio::MAX_UNITS as int;
        let first = state.fresh_quotes(ExchangeId::Okex, now) as int;
        let second = state.fresh_quotes(ExchangeId::Bitfinex, now) as int;
        let first_weight = state.fresh_weight(ExchangeId::Okex, now) as int;
        let second_weight = state.fresh_weight(ExchangeId::Bitfinex, now) as int;
        assert(first <= first_weight * (2 * max)) by {
            if state.fresh(ExchangeId::Okex, now) {
                let tick = state.okex.latest.unwrap();
                let quotes = tick.bid_rate@ + tick.ask_rate@;
                assert(first_weight * quotes <= first_weight * (2 * max)) by (nonlinear_arith)
                    requires
                        first_weight >= 0,
                        quotes <= 2 * max,
                ;
            }
        }
        assert(second <= second_weight * (2 * max)) by {
            if state.fresh(ExchangeId::Bitfinex, now) {
                let tick = state.bitfinex.latest.unwrap();
                let quotes = tick.bid_rate@ + tick.ask_rate@;
                assert(second_weight * quotes <= second_weight * (2 * max)) by (nonlinear_arith)
                    requires
                        second_weight >= 0,
                        quotes <= 2 * max,
                ;
            }
        }
        let weights = first_weight + second_weight;
        assert((first + second) / (2 * weights) <= max) by (nonlinear_arith)
            requires
                first <= first_weight * (2 * max),
                second <= second_weight * (2 * max),
                weights == first_weight + second_weight,
                weights > 0,
                first >= 0,
                second >= 0,
        ;
    }
}

/// A cache that has taken no tick in has no price at any time,
/// and the reason is never staleness.
pub proof fn lemma_cold_cache_has_no_price(
    state: CacheState,
    config: ExchangePriceCacheConfig,
    weights: ExchangeWeights,
    now: Timestamp,
)
    requires
        state.is_cold(config, weights),
    ensures
        state.mid_rate(now) == Err::<nat, ExchangePriceCacheError>(
            ExchangePriceCacheError::NoPriceAvailable,
        ),
{
}

/// While the tick of a weighted exchange is younger than the
/// threshold, there is a mid-rate. From the moment its age reaches the
/// threshold it no longer counts: unless another exchange is fresh, the
/// query fails with `StalePrice`.
pub proof fn lemma_staleness_threshold(state: CacheState, id: ExchangeId, now: Timestamp)
    requires
        state.observed(id),
    ensures
        state.age(id, now) < state.stale_after.seconds ==> state.mid_rate(now).is_ok(),
        state.age(id, now) >= state.stale_after.seconds && (forall|other: ExchangeId|
            other != id ==> !#[trigger] state.fresh(other, now)) ==> state.mid_rate(now) == Err::<
            nat,
            ExchangePriceCacheError,
        >(ExchangePriceCacheError::StalePrice(Duration { seconds: state.youngest_age(now) as u64 })),
{
}

/// With a single exchange that counts, the mid-rate is the midpoint of its
/// bid and ask while its tick is younger than the threshold, whatever its
/// weight, and `StalePrice` with the tick's age from then on.
pub proof fn lemma_single_source_mid_rate(state: CacheState, id: ExchangeId, now: Timestamp)
    requires
        state.observed(id),
        forall|other: ExchangeId| other != id ==> !#[trigger] state.observed(other),
    ensures
        state.age(id, now) < state.stale_after.seconds ==> state.mid_rate(now) == Ok::<
            nat,
            ExchangePriceCacheError,
        >(
            (state.entry(id).latest.unwrap().bid_rate@ + state.entry(
                id,
            ).latest.unwrap().ask_rate@) / 2,
        ),
        state.age(id, now) >= state.stale_after.seconds ==> state.mid_rate(now) == Err::<
            nat,
            ExchangePriceCacheError,
        >(ExchangePriceCacheError::StalePrice(Duration { seconds: state.age(id, now) as u64 })),
{
    let weight = state.entry(id).weight@;
    let tick = state.entry(id).latest.unwrap();
    let quotes = tick.bid_rate@ + tick.ask_rate@;
    assert((weight * quotes) / (2 * weight) == quotes / 2) by (nonlinear_arith)
        requires
            weight > 0,
            quotes >= 0,
    ;
}

/// An exchange without weight takes no part: two caches
/// that differ only in what they hold of such an exchange answer every
/// query alike.
pub proof fn lemma_unweighted_exchange_is_ignored(
    one: CacheState,
    other: CacheState,
    id: ExchangeId,
    now: Timestamp,
)
    requires
        one.stale_after == other.stale_after,
        one.entry(id).weight@ == 0,
        other.entry(id).weight@ == 0,
        forall|rest: ExchangeId| rest != id ==> #[trigger] one.entry(rest) == other.entry(rest),
    ensures
        one.mid_rate(now) == other.mid_rate(now),
{
}

/// A tick of an exchange without weight changes no answer, however recent
/// it is.
pub proof fn lemma_unweighted_tick_changes_nothing(
    state: CacheState,
    tick: PriceTick,
    now: Timestamp,
)
    requires
        state.entry(tick.source).weight@ == 0,
    ensures
        state.apply(tick).mid_rate(now) == state.mid_rate(now),
{
    lemma_unweighted_exchange_is_ignored(state, state.apply(tick), tick.source, now);
}

/// How one exchange stands at the time of a query.
enum Standing {
    /// Without weight, or without a tick.
    Absent,
    /// Counted, but its tick has this age, at or past the threshold.
    Stale(Duration),
    /// Fresh, with this weight and this sum of bid and ask, in units.
    Fresh { weight: u64, quotes: u64 },
}

impl View for ExchangePriceCache {
    type V = CacheState;

    closed spec fn view(&self) -> CacheState {
        self.state
    }
}

impl ExchangePriceCache {
    /// A cache without ticks, with the given threshold and weights.
    pub fn new(config: ExchangePriceCacheConfig, weights: ExchangeWeights) -> (cache: Self)
        ensures
            cache@.is_cold(config, weights),
    {
        ExchangePriceCache {
            state: CacheState {
                stale_after: config.stale_after,
                okex: CacheEntry { weight: weights.weight_of(ExchangeId::Okex), latest: None },
                bitfinex: CacheEntry {
                    weight: weights.weight_of(ExchangeId::Bitfinex),
                    latest: None,
                },
            },
        }
    }

    /// The staleness threshold.
    pub fn stale_after(&self) -> (threshold: Duration)
        ensures
            threshold == self@.stale_after,
    {
        self.state.stale_after
    }

    /// What the cache holds of `id`.
    pub fn entry(&self, id: ExchangeId) -> (entry: CacheEntry)
        ensures
            entry == self@.entry(id),
    {
        match id {
            ExchangeId::Okex => self.state.okex,
            ExchangeId::Bitfinex => self.state.bitfinex,
        }
    }

    /// Takes a tick in: it becomes the latest tick of its source if that
    /// source had none, or if it was observed strictly later than the one
    /// held. A tick that is older than, or as old as, the one held is
    /// dropped without notice.
    pub fn apply_tick(&mut self, tick: PriceTick)
        ensures
            final(self)@ == old(self)@.apply(tick),
    {
        match tick.source {
            ExchangeId::Okex => {
                let replace: bool = match self.state.okex.latest {
                    None => true,
                    Some(held) => tick.observed_at.is_after(held.observed_at),
                };
                if replace {
                    self.state.okex.latest = Some(tick);
                }
            },
            ExchangeId::Bitfinex => {
                let replace: bool = match self.state.bitfinex.latest {
                    None => true,
                    Some(held) => tick.observed_at.is_after(held.observed_at),
                };
                if replace {
                    self.state.bitfinex.latest = Some(tick);
                }
            },
        }
    }

    /// Takes a message of a feed in: the tick it stands for is applied. A
    /// message that stands for none is dropped without notice.
    pub fn apply_update(&mut self, payload: PriceStreamPayload)
        ensures
            final(self)@ == old(self)@.update(payload),
    {
        if let Some(tick) = payload.to_tick() {
            self.apply_tick(tick);
        }
    }

    /// How `id` stands at `now`.
    fn standing(&self, id: ExchangeId, now: Timestamp) -> (standing: Standing)
        ensures
            match standing {
                Standing::Absent => !self@.observed(id),
                Standing::Stale(age) => self@.observed(id) && !self@.fresh(id, now) && age.seconds
                    == self@.age(id, now),
                Standing::Fresh { weight, quotes } => {
                    &&& self@.fresh(id, now)
                    &&& weight == self@.entry(id).weight@
                    &&& 0 < weight <= crate::ratio::MAX_UNITS
                    &&& quotes <= 2 * crate::ratio::MAX_UNITS
                    &&& weight * quotes == self@.fresh_quotes(id, now)
                },
            },
    {
        let entry: CacheEntry = self.entry(id);
        if entry.weight.is_zero() {
            return Standing::Absent;
        }
        match entry.latest {
            None => Standing::Absent,
            Some(tick) => {
                let stale: Option<Duration> = match tick.observed_at.elapsed_at(now) {
                    None => None,
                    Some(age) => if age.seconds < self.state.stale_after.seconds {
                        None
                    } else {
                        Some(age)
                    },
                };
                match stale {
                    Some(age) => Standing::Stale(age),
                    None => {
                        let quotes: u64 = tick.bid_rate.units() + tick.ask_rate.units();
                        Standing::Fresh { weight: entry.weight.units(), quotes }
                    },
                }
            },
        }
    }

    /// The mid-rate at `now`: the weighted mean of the mid-rates of the
    /// exchanges that are fresh at `now`.
    ///
    /// Fails with `NoPriceAvailable` while no weighted exchange has
    /// reported, and with `StalePrice` when some have but none is fresh.
    pub fn mid_rate(&self, now: Timestamp) -> (rate: Result<
        FixedPointRatio,
        ExchangePriceCacheError,
    >)
        ensures
            match rate {
                Ok(mid) => self@.mid_rate(now) == Ok::<nat, ExchangePriceCacheError>(mid@),
                Err(e) => self@.mid_rate(now) == Err::<nat, ExchangePriceCacheError>(e),
            },
    {
        let okex: Standing = self.standing(ExchangeId::Okex, now);
        let bitfinex: Standing = self.standing(ExchangeId::Bitfinex, now);
        match (okex, bitfinex) {
            (Standing::Absent, Standing::Absent) => Err(ExchangePriceCacheError::NoPriceAvailable),
            (Standing::Stale(age), Standing::Absent) => Err(
                ExchangePriceCacheError::StalePrice(age),
            ),
            (Standing::Absent, Standing::Stale(age)) => Err(
                ExchangePriceCacheError::StalePrice(age),
            ),
            (Standing::Stale(first), Standing::Stale(second)) => {
                if first.seconds <= second.seconds {
                    Err(ExchangePriceCacheError::StalePrice(first))
                } else {
                    Err(ExchangePriceCacheError::StalePrice(second))
                }
            },
            (Standing::Fresh { weight, quotes }, Standing::Absent) => Ok(
                weighted_mid(weight, quotes, 0, 0),
            ),
            (Standing::Fresh { weight, quotes }, Standing::Stale(_)) => Ok(
                weighted_mid(weight, quotes, 0, 0),
            ),
            (Standing::Absent, Standing::Fresh { weight, quotes }) => Ok(
                weighted_mid(weight, quotes, 0, 0),
            ),
            (Standing::Stale(_), Standing::Fresh { weight, quotes }) => Ok(
                weighted_mid(weight, quotes, 0, 0),
            ),
            (
                Standing::Fresh { weight, quotes },
                Standing::Fresh { weight: other_weight, quotes: other_quotes },
            ) => Ok(weighted_mid(weight, quotes, other_weight, other_quotes)),
        }
    }
}

/// The weighted mean of two mid-rates, each given as the sum of its bid and
/// ask in units, with its weight in units. A weight of zero leaves that rate
/// out.
fn weighted_mid(weight: u64, quotes: u64, other_weight: u64, other_quotes: u64) -> (mid:
    FixedPointRatio)
    requires
        0 < weight <= crate::ratio::MAX_UNITS,
        other_weight <= crate::ratio::MAX_UNITS,
        quotes <= 2 * crate::ratio::MAX_UNITS,
        other_quotes <= 2 * crate::ratio::MAX_UNITS,
    ensures
        mid@ == weighted_mid_units(
            (weight * quotes + other_weight * other_quotes) as nat,
            (weight + other_weight) as nat,
        ),
{
    let bound: u128 = 2_000_000_000_000_000_000_000_000_000_000_000_000;
    assert(weight * quotes <= bound) by (nonlinear_arith)
        requires
            0 <= weight <= 1_000_000_000_000_000_000,
            0 <= quotes <= 2_000_000_000_000_000_000,
            bound == 2_000_000_000_000_000_000_000_000_000_000_000_000,
    ;
    assert(other_weight * other_quotes <= bound) by (nonlinear_arith)
        requires
            0 <= other_weight <= 1_000_000_000_000_000_000,
            0 <= other_quotes <= 2_000_000_000_000_000_000,
            bound == 2_000_000_000_000_000_000_000_000_000_000_000_000,
    ;
    let total: u128 = (weight as u128) * (quotes as u128) + (other_weight as u128) * (
    other_quotes as u128);
    let divisor: u128 = 2 * ((weight as u128) + (other_weight as u128));
    let units: u128 = total / divisor;
    assert(units <= crate::ratio::MAX_UNITS) by (nonlinear_arith)
        requires
            units == total / divisor,
            divisor == 2 * (weight + other_weight),
            total == weight * quotes + other_weight * other_quotes,
            0 < weight,
            0 <= other_weight,
            0 <= quotes <= 2 * crate::ratio::MAX_UNITS,
            0 <= other_quotes <= 2 * crate::ratio::MAX_UNITS,
    ;
    match FixedPointRatio::from_units(units as u64) {
        Some(mid) => mid,
        None => FixedPointRatio::zero(),
    }
}

} // verus!
