//! The service's configuration: the parts that pricing reads, the switches
//! of the other services, and the secrets that the environment overrides.
//!
//! Sections that this crate does not interpret are type parameters.

use vstd::prelude::*;
use crate::cache::{ExchangeId, ExchangePriceCacheConfig, ExchangeWeights};
use crate::fee_calculator::FeeCalculatorConfig;
use crate::okex::OkexClientConfig;
use crate::ratio::{Decimal, FixedPointRatio, RatioError};

verus! {

/// The secrets that are taken from the environment, not from the file.
pub struct EnvOverride {
    pub redis_password: Option<String>,
    pub pg_con: String,
    pub okex_secret_key: String,
    pub okex_passphrase: String,
    pub galoy_phone_code: String,
    pub bitfinex_secret_key: String,
}

/// How the database is reached.
#[derive(Debug, Clone)]
pub struct DbConfig {
    pub pg_con: String,
}

/// How the message bus is reached.
#[derive(Debug, Clone)]
pub struct PubSubConfig {
    pub password: Option<String>,
}

/// How the wallet API is logged in to.
#[derive(Debug, Clone)]
pub struct GaloyConfig {
    pub auth_code: String,
}

/// The OKEx section: its weight in the mid-rate and its credentials.
pub struct OkexExchangeConfig {
    pub weight: FixedPointRatio,
    pub client: OkexClientConfig,
}

/// The Bitfinex section: its weight in the mid-rate.
#[derive(Debug, Clone, Copy)]
pub struct BitfinexExchangeConfig {
    pub weight: FixedPointRatio,
}

/// The exchanges in use. One without a section is not in use.
pub struct ExchangesConfig {
    pub okex: Option<OkexExchangeConfig>,
    pub bitfinex: Option<BitfinexExchangeConfig>,
}

/// The price server section.
#[derive(Debug, Clone)]
pub struct PriceServerWrapper<Health, Server> {
    pub enabled: bool,
    pub health: Health,
    pub server: Server,
    pub fees: FeeCalculatorConfig,
    pub price_cache: ExchangePriceCacheConfig,
}

/// The Bitfinex price feed section.
#[derive(Debug, Clone)]
pub struct BitfinexPriceFeedConfigWrapper<Feed> {
    pub enabled: bool,
    pub config: Feed,
}

/// The user trades section.
#[derive(Debug, Clone)]
pub struct UserTradesConfigWrapper<Trades> {
    pub enabled: bool,
    pub config: Trades,
}

/// The hedging section.
#[derive(Debug, Clone)]
pub struct HedgingConfigWrapper<Hedging> {
    pub enabled: bool,
    pub config: Hedging,
}

/// The whole configuration.
pub struct Config<Tracing, Health, Server, Feed, Trades, Hedging> {
    pub db: DbConfig,
    pub pubsub: PubSubConfig,
    pub tracing: Tracing,
    pub price_server: PriceServerWrapper<Health, Server>,
    pub bitfinex_price_feed: BitfinexPriceFeedConfigWrapper<Feed>,
    pub user_trades: UserTradesConfigWrapper<Trades>,
    pub galoy: GaloyConfig,
    pub hedging: HedgingConfigWrapper<Hedging>,
    pub exchanges: ExchangesConfig,
}

/// Why a configuration is refused.
#[derive(Clone, Copy, Debug, PartialEq, Eq, Structural)]
pub enum ConfigError {
    /// A fee rate or a weight is below zero.
    NegativeRate,
    /// A fee rate or a weight is above the largest ratio.
    RateOutOfRange,
    /// The base fee rate and a tier's fee rate add up to 1.0 or more.
    InvalidFeeConfiguration,
    /// No exchange has a weight above zero.
    NoWeightedExchange,
}

/// The error that stands for a number that is no ratio.
pub open spec fn refusal(e: RatioError) -> ConfigError {
    match e {
        RatioError::Negative => ConfigError::NegativeRate,
        RatioError::OutOfRange => ConfigError::RateOutOfRange,
    }
}

/// What reading a rate from `number` comes to.
pub open spec fn rate_outcome(number: Decimal) -> Result<FixedPointRatio, ConfigError> {
    match number.as_units() {
        Ok(units) => Ok(FixedPointRatio::of_units(units)),
        Err(e) => Err(refusal(e)),
    }
}

/// What reading a weight comes to: none where none is given.
pub open spec fn weight_outcome(number: Option<Decimal>) -> Result<
    Option<FixedPointRatio>,
    ConfigError,
> {
    match number {
        None => Ok(None),
        Some(given) => match rate_outcome(given) {
            Ok(weight) => Ok(Some(weight)),
            Err(e) => Err(e),
        },
    }
}

/// What reading the three fee rates comes to. The first of them that is no
/// ratio decides the error; rates that add up to 1.0 or more for a tier
/// are refused after that.
pub open spec fn fees_outcome(base: Decimal, immediate: Decimal, delayed: Decimal) -> Result<
    FeeCalculatorConfig,
    ConfigError,
> {
    match rate_outcome(base) {
        Err(e) => Err(e),
        Ok(base_fee_rate) => match rate_outcome(immediate) {
            Err(e) => Err(e),
            Ok(immediate_fee_rate) => match rate_outcome(delayed) {
                Err(e) => Err(e),
                Ok(delayed_fee_rate) => {
                    let fees = FeeCalculatorConfig {
                        base_fee_rate,
                        immediate_fee_rate,
                        delayed_fee_rate,
                    };
                    if fees.is_valid() {
                        Ok(fees)
                    } else {
                        Err(ConfigError::InvalidFeeConfiguration)
                    }
                },
            },
        },
    }
}

/// What reading the weights comes to. The first of them that is no ratio
/// decides the error; weights that are all zero or missing are refused
/// after that.
pub open spec fn weights_outcome(okex: Option<Decimal>, bitfinex: Option<Decimal>) -> Result<
    ExchangeWeights,
    ConfigError,
> {
    match weight_outcome(okex) {
        Err(e) => Err(e),
        Ok(okex_weight) => match weight_outcome(bitfinex) {
            Err(e) => Err(e),
            Ok(bitfinex_weight) => {
                let weights = ExchangeWeights { okex: okex_weight, bitfinex: bitfinex_weight };
                if weights.weight_units(ExchangeId::Okex) > 0 || weights.weight_units(
                    ExchangeId::Bitfinex,
                ) > 0 {
                    Ok(weights)
                } else {
                    Err(ConfigError::NoWeightedExchange)
                }
            },
        },
    }
}

/// Reads a fee rate or a weight from a decimal number.
fn read_rate(number: Decimal) -> (rate: Result<FixedPointRatio, ConfigError>)
    ensures
        rate == rate_outcome(number),
{
    match FixedPointRatio::from_number(number) {
        Ok(rate) => {
            proof {
                rate.lemma_of_units();
            }
            Ok(rate)
        },
        Err(RatioError::Negative) => Err(ConfigError::NegativeRate),
        Err(RatioError::OutOfRange) => Err(ConfigError::RateOutOfRange),
    }
}

/// Reads a weight that may be missing.
fn read_weight(number: Option<Decimal>) -> (weight: Result<Option<FixedPointRatio>, ConfigError>)
    ensures
        weight == weight_outcome(number),
{
    match number {
        None => Ok(None),
        Some(given) => match read_rate(given) {
            Ok(weight) => Ok(Some(weight)),
            Err(e) => Err(e),
        },
    }
}

/// Reads the three fee rates from decimal numbers. A negative rate is
/// refused, and so are rates that add up to 1.0 or more for a tier.
pub fn fees_from_decimals(base: Decimal, immediate: Decimal, delayed: Decimal) -> (fees: Result<
    FeeCalculatorConfig,
    ConfigError,
>)
    ensures
        fees == fees_outcome(base, immediate, delayed),
{
    let base_fee_rate: FixedPointRatio = match read_rate(base) {
        Ok(rate) => rate,
        Err(e) => {
            return Err(e);
        },
    };
    let immediate_fee_rate: FixedPointRatio = match read_rate(immediate) {
        Ok(rate) => rate,
        Err(e) => {
            return Err(e);
        },
    };
    let delayed_fee_rate: FixedPointRatio = match read_rate(delayed) {
        Ok(rate) => rate,
        Err(e) => {
            return Err(e);
        },
    };
    let fees = FeeCalculatorConfig { base_fee_rate, immediate_fee_rate, delayed_fee_rate };
    match fees.validate() {
        Ok(_) => Ok(fees),
        Err(_) => Err(ConfigError::InvalidFeeConfiguration),
    }
}

/// Reads the weights of the exchanges from decimal numbers. A negative
/// weight is refused, and so are weights that are all zero or missing.
pub fn weights_from_decimals(okex: Option<Decimal>, bitfinex: Option<Decimal>) -> (weights: Result<
    ExchangeWeights,
    ConfigError,
>)
    ensures
        weights == weights_outcome(okex, bitfinex),
{
    let okex_weight: Option<FixedPointRatio> = match read_weight(okex) {
        Ok(weight) => weight,
        Err(e) => {
            return Err(e);
        },
    };
    let bitfinex_weight: Option<FixedPointRatio> = match read_weight(bitfinex) {
        Ok(weight) => weight,
        Err(e) => {
            return Err(e);
        },
    };
    let weights = ExchangeWeights { okex: okex_weight, bitfinex: bitfinex_weight };
    if weights.has_weighted_exchange() {
        Ok(weights)
    } else {
        Err(ConfigError::NoWeightedExchange)
    }
}

/// The value of a switch that is left out of the file.
pub fn bool_true() -> (on: bool)
    ensures
        on,
{
    true
}

impl<Health: Default, Server: Default> Default for PriceServerWrapper<Health, Server> {
    /// Switched on, with fees of 0.1 % base, 0.15 % immediate and 0.1 %
    /// delayed, ticks that stay usable for thirty seconds, and the server
    /// and health sections as their own defaults have them.
    fn default() -> (wrapper: Self)
        ensures
            wrapper.enabled,
            wrapper.fees.base_fee_rate@ == 1_000_000_000,
            wrapper.fees.immediate_fee_rate@ == 1_500_000_000,
            wrapper.fees.delayed_fee_rate@ == 1_000_000_000,
            wrapper.price_cache.stale_after.seconds == 30,
            call_ensures(Server::default, (), wrapper.server),
            call_ensures(Health::default, (), wrapper.health),
    {
        PriceServerWrapper {
            enabled: true,
            server: Server::default(),
            health: Health::default(),
            fees: FeeCalculatorConfig::default(),
            price_cache: ExchangePriceCacheConfig::default(),
        }
    }
}

impl<Trades: Default> Default for UserTradesConfigWrapper<Trades> {
    /// Switched on, with the section as its own default has it.
    fn default() -> (wrapper: Self)
        ensures
            wrapper.enabled,
            call_ensures(Trades::default, (), wrapper.config),
    {
        UserTradesConfigWrapper { enabled: true, config: Trades::default() }
    }
}

impl<Hedging: Default> Default for HedgingConfigWrapper<Hedging> {
    /// Switched on, with the section as its own default has it.
    fn default() -> (wrapper: Self)
        ensures
            wrapper.enabled,
            call_ensures(Hedging::default, (), wrapper.config),
    {
        HedgingConfigWrapper { enabled: true, config: Hedging::default() }
    }
}

impl<Feed: Default> Default for BitfinexPriceFeedConfigWrapper<Feed> {
    /// Switched off, with the section as its own default has it.
    fn default() -> (wrapper: Self)
        ensures
            !wrapper.enabled,
            call_ensures(Feed::default, (), wrapper.config),
    {
        BitfinexPriceFeedConfigWrapper { enabled: false, config: Feed::default() }
    }
}

impl OkexExchangeConfig {
    /// The section with the secrets replaced.
    pub open spec fn with_secrets(self, secret_key: String, passphrase: String) -> Self {
        OkexExchangeConfig {
            weight: self.weight,
            client: OkexClientConfig { api_key: self.client.api_key, passphrase, secret_key },
        }
    }
}

impl ExchangesConfig {
    /// The weight of each exchange: that of its section, or none without one.
    pub open spec fn spec_weights(self) -> ExchangeWeights {
        ExchangeWeights {
            okex: match self.okex {
                Some(okex) => Some(okex.weight),
                None => None,
            },
            bitfinex: match self.bitfinex {
                Some(bitfinex) => Some(bitfinex.weight),
                None => None,
            },
        }
    }

    /// The weight of each exchange: that of its section, or none without one.
    pub fn weights(&self) -> (weights: ExchangeWeights)
        ensures
            weights == self.spec_weights(),
    {
        ExchangeWeights {
            okex: match &self.okex {
                Some(okex) => Some(okex.weight),
                None => None,
            },
            bitfinex: match &self.bitfinex {
                Some(bitfinex) => Some(bitfinex.weight),
                None => None,
            },
        }
    }
}

impl<Tracing, Health, Server, Feed, Trades, Hedging> Config<
    Tracing,
    Health,
    Server,
    Feed,
    Trades,
    Hedging,
> {
    /// The configuration with the secrets of `env` in place: the password
    /// of the message bus where `env` has one, the login code, the secret
    /// key and the passphrase of OKEx where OKEx is in use, and the
    /// database connection. All else stays as it is.
    pub open spec fn overridden(self, env: EnvOverride) -> Self {
        Config {
            db: DbConfig { pg_con: env.pg_con },
            pubsub: PubSubConfig {
                password: match env.redis_password {
                    Some(password) => Some(password),
                    None => self.pubsub.password,
                },
            },
            tracing: self.tracing,
            price_server: self.price_server,
            bitfinex_price_feed: self.bitfinex_price_feed,
            user_trades: self.user_trades,
            galoy: GaloyConfig { auth_code: env.galoy_phone_code },
            hedging: self.hedging,
            exchanges: ExchangesConfig {
                okex: match self.exchanges.okex {
                    Some(okex) => Some(okex.with_secrets(env.okex_secret_key, env.okex_passphrase)),
                    None => None,
                },
                bitfinex: self.exchanges.bitfinex,
            },
        }
    }

    /// Puts the secrets of `env` in place of what the file said.
    pub fn apply_env_override(self, env: EnvOverride) -> (config: Self)
        ensures
            config == self.overridden(env),
    {
        let mut config = self;
        let EnvOverride {
            redis_password,
            galoy_phone_code,
            okex_passphrase,
            okex_secret_key,
            pg_con: stablesats_pg_con,
            bitfinex_secret_key: _,
        } = env;
        if let Some(redis_password) = redis_password {
            config.pubsub.password = Some(redis_password);
        }
        config.galoy.auth_code = galoy_phone_code;
        config.exchanges.okex = match config.exchanges.okex {
            Some(okex) => Some(
                OkexExchangeConfig {
                    weight: okex.weight,
                    client: OkexClientConfig {
                        api_key: okex.client.api_key,
                        passphrase: okex_passphrase,
                        secret_key: okex_secret_key,
                    },
                },
            ),
            None => None,
        };
        config.db.pg_con = stablesats_pg_con;
        config
    }

    /// Whether the configuration can be run with: every tier's combined
    /// fee rate is below 1.0, and some exchange has a weight above zero.
    pub open spec fn is_valid(self) -> bool {
        &&& self.price_server.fees.is_valid()
        &&& (self.exchanges.spec_weights().weight_units(ExchangeId::Okex) > 0
            || self.exchanges.spec_weights().weight_units(ExchangeId::Bitfinex) > 0)
    }

    /// Accepts the configuration where it can be run with. Fee rates are
    /// looked at first, weights second.
    pub fn validate(&self) -> (checked: Result<(), ConfigError>)
        ensures
            self.is_valid() ==> checked == Ok::<(), ConfigError>(()),
            !self.price_server.fees.is_valid() ==> checked == Err::<(), ConfigError>(
                ConfigError::InvalidFeeConfiguration,
            ),
            self.price_server.fees.is_valid() && !self.is_valid() ==> checked == Err::<
                (),
                ConfigError,
            >(ConfigError::NoWeightedExchange),
    {
        if self.price_server.fees.validate().is_err() {
            return Err(ConfigError::InvalidFeeConfiguration);
        }
        if !self.exchanges.weights().has_weighted_exchange() {
            return Err(ConfigError::NoWeightedExchange);
        }
        Ok(())
    }
}

} // verus!
