use stablesats::cache::{ExchangeId, ExchangePriceCacheConfig, ExchangeWeights};
use stablesats::config::{
    bool_true, fees_from_decimals, weights_from_decimals, BitfinexExchangeConfig,
    BitfinexPriceFeedConfigWrapper, Config, ConfigError, DbConfig, EnvOverride, ExchangesConfig,
    GaloyConfig, HedgingConfigWrapper, OkexExchangeConfig, PriceServerWrapper, PubSubConfig,
    UserTradesConfigWrapper,
};
use stablesats::fee_calculator::FeeCalculatorConfig;
use stablesats::okex::OkexClientConfig;
use stablesats::ratio::{Decimal, FixedPointRatio};
use stablesats::time::Duration;

type PlainConfig = Config<String, u32, u16, u8, u64, i8>;

fn number(mantissa: i128, scale: u32) -> Decimal {
    Decimal { mantissa, scale }
}

fn weight(mantissa: i128, scale: u32) -> FixedPointRatio {
    FixedPointRatio::from_decimal(mantissa, scale).unwrap()
}

fn file_config(okex: Option<OkexExchangeConfig>, redis: Option<&str>) -> PlainConfig {
    Config {
        db: DbConfig { pg_con: "postgres://file".to_string() },
        pubsub: PubSubConfig { password: redis.map(|p| p.to_string()) },
        tracing: "stablesats-dev".to_string(),
        price_server: PriceServerWrapper::default(),
        bitfinex_price_feed: BitfinexPriceFeedConfigWrapper::default(),
        user_trades: UserTradesConfigWrapper::default(),
        galoy: GaloyConfig { auth_code: "file-code".to_string() },
        hedging: HedgingConfigWrapper::default(),
        exchanges: ExchangesConfig { okex, bitfinex: None },
    }
}

fn okex_section() -> OkexExchangeConfig {
    OkexExchangeConfig {
        weight: weight(1, 0),
        client: OkexClientConfig {
            api_key: "file-key".to_string(),
            passphrase: "file-passphrase".to_string(),
            secret_key: "file-secret".to_string(),
        },
    }
}

fn env(redis: Option<&str>) -> EnvOverride {
    EnvOverride {
        redis_password: redis.map(|p| p.to_string()),
        pg_con: "postgres://env".to_string(),
        okex_secret_key: "env-secret".to_string(),
        okex_passphrase: "env-passphrase".to_string(),
        galoy_phone_code: "env-code".to_string(),
        bitfinex_secret_key: "env-bitfinex".to_string(),
    }
}

#[test]
fn switches_default_to_on() {
    assert!(bool_true());
    let price_server: PriceServerWrapper<u32, u16> = PriceServerWrapper::default();
    assert!(price_server.enabled);
    assert_eq!(price_server.health, 0);
    assert_eq!(price_server.server, 0);
    assert_eq!(price_server.fees, FeeCalculatorConfig::default());
    assert_eq!(price_server.price_cache, ExchangePriceCacheConfig::default());
    assert_eq!(price_server.price_cache.stale_after, Duration::from_seconds(30));
    let user_trades: UserTradesConfigWrapper<u64> = UserTradesConfigWrapper::default();
    assert!(user_trades.enabled);
    assert_eq!(user_trades.config, 0);
    let hedging: HedgingConfigWrapper<String> = HedgingConfigWrapper::default();
    assert!(hedging.enabled);
    assert_eq!(hedging.config, "");
    let feed: BitfinexPriceFeedConfigWrapper<u8> = BitfinexPriceFeedConfigWrapper::default();
    assert!(!feed.enabled);
}

#[test]
fn env_override_replaces_the_secrets() {
    let config = file_config(Some(okex_section()), Some("file-redis")).apply_env_override(env(Some("env-redis")));
    assert_eq!(config.pubsub.password.as_deref(), Some("env-redis"));
    assert_eq!(config.galoy.auth_code, "env-code");
    assert_eq!(config.db.pg_con, "postgres://env");
    let okex = config.exchanges.okex.unwrap();
    assert_eq!(okex.client.secret_key, "env-secret");
    assert_eq!(okex.client.passphrase, "env-passphrase");
    assert_eq!(okex.client.api_key, "file-key");
    assert_eq!(okex.weight, weight(1, 0));
    assert_eq!(config.tracing, "stablesats-dev");
    assert!(config.price_server.enabled);
    assert!(config.user_trades.enabled);
    assert!(config.hedging.enabled);
    assert!(!config.bitfinex_price_feed.enabled);
    assert!(config.exchanges.bitfinex.is_none());
}

#[test]
fn env_override_keeps_the_file_password_without_one_of_its_own() {
    let config = file_config(None, Some("file-redis")).apply_env_override(env(None));
    assert_eq!(config.pubsub.password.as_deref(), Some("file-redis"));
    let config = file_config(None, None).apply_env_override(env(None));
    assert_eq!(config.pubsub.password, None);
    let config = file_config(None, None).apply_env_override(env(Some("env-redis")));
    assert_eq!(config.pubsub.password.as_deref(), Some("env-redis"));
}

#[test]
fn env_override_leaves_a_missing_okex_section_missing() {
    let config = file_config(None, None).apply_env_override(env(None));
    assert!(config.exchanges.okex.is_none());
    assert_eq!(config.galoy.auth_code, "env-code");
    assert_eq!(config.db.pg_con, "postgres://env");
}

#[test]
fn exchanges_give_their_weights() {
    let exchanges = ExchangesConfig {
        okex: Some(okex_section()),
        bitfinex: Some(BitfinexExchangeConfig { weight: weight(25, 2) }),
    };
    let weights = exchanges.weights();
    assert_eq!(weights.okex, Some(weight(1, 0)));
    assert_eq!(weights.bitfinex, Some(weight(25, 2)));
    let none = ExchangesConfig { okex: None, bitfinex: None }.weights();
    assert_eq!(none.okex, None);
    assert_eq!(none.bitfinex, None);
}

#[test]
fn configuration_is_validated_before_use() {
    assert_eq!(file_config(Some(okex_section()), None).validate(), Ok(()));
    assert_eq!(file_config(None, None).validate(), Err(ConfigError::NoWeightedExchange));
    let mut unweighted = okex_section();
    unweighted.weight = FixedPointRatio::zero();
    assert_eq!(
        file_config(Some(unweighted), None).validate(),
        Err(ConfigError::NoWeightedExchange)
    );
    let mut bad_fees = file_config(None, None);
    bad_fees.price_server.fees = FeeCalculatorConfig {
        base_fee_rate: weight(5, 1),
        immediate_fee_rate: weight(5, 1),
        delayed_fee_rate: weight(1, 1),
    };
    assert_eq!(bad_fees.validate(), Err(ConfigError::InvalidFeeConfiguration));
    let mut only_bitfinex = file_config(None, None);
    only_bitfinex.exchanges.bitfinex = Some(BitfinexExchangeConfig { weight: weight(1, 3) });
    assert_eq!(only_bitfinex.validate(), Ok(()));
}

#[test]
fn fee_rates_are_read_from_decimals() {
    let fees = fees_from_decimals(number(1, 3), number(1, 2), number(1, 1)).unwrap();
    assert_eq!(fees.base_fee_rate, weight(1, 3));
    assert_eq!(fees.immediate_fee_rate, weight(1, 2));
    assert_eq!(fees.delayed_fee_rate, weight(1, 1));
    assert_eq!(
        fees_from_decimals(number(0, 0), number(0, 0), number(0, 0)).unwrap().base_fee_rate,
        FixedPointRatio::zero()
    );
}

#[test]
fn negative_fee_rates_are_refused() {
    assert_eq!(
        fees_from_decimals(number(-1, 3), number(1, 2), number(1, 1)),
        Err(ConfigError::NegativeRate)
    );
    assert_eq!(
        fees_from_decimals(number(1, 3), number(-1, 2), number(1, 1)),
        Err(ConfigError::NegativeRate)
    );
    assert_eq!(
        fees_from_decimals(number(1, 3), number(1, 2), number(-1, 1)),
        Err(ConfigError::NegativeRate)
    );
    assert_eq!(
        fees_from_decimals(number(2_000_000, 0), number(-1, 2), number(1, 1)),
        Err(ConfigError::RateOutOfRange)
    );
}

#[test]
fn combined_fees_of_one_or_more_are_refused() {
    assert_eq!(
        fees_from_decimals(number(5, 1), number(5, 1), number(1, 1)),
        Err(ConfigError::InvalidFeeConfiguration)
    );
    assert_eq!(
        fees_from_decimals(number(1, 1), number(1, 1), number(9, 1)),
        Err(ConfigError::InvalidFeeConfiguration)
    );
    assert_eq!(
        fees_from_decimals(number(1, 0), number(0, 0), number(0, 0)),
        Err(ConfigError::InvalidFeeConfiguration)
    );
    assert!(fees_from_decimals(number(5, 1), number(499_999_999_999, 12), number(0, 0)).is_ok());
}

#[test]
fn weights_are_read_from_decimals() {
    let weights = weights_from_decimals(Some(number(10, 1)), None).unwrap();
    assert_eq!(weights.okex, Some(weight(1, 0)));
    assert_eq!(weights.bitfinex, None);
    assert_eq!(weights.weight_of(ExchangeId::Okex), weight(1, 0));
    let both = weights_from_decimals(Some(number(0, 0)), Some(number(3, 1))).unwrap();
    assert_eq!(both.okex, Some(FixedPointRatio::zero()));
    assert_eq!(both.bitfinex, Some(weight(3, 1)));
}

#[test]
fn weights_that_are_all_zero_are_refused() {
    assert!(matches!(weights_from_decimals(None, None), Err(ConfigError::NoWeightedExchange)));
    assert!(matches!(
        weights_from_decimals(Some(number(0, 0)), None),
        Err(ConfigError::NoWeightedExchange)
    ));
    assert!(matches!(
        weights_from_decimals(Some(number(0, 5)), Some(number(0, 1))),
        Err(ConfigError::NoWeightedExchange)
    ));
    assert!(matches!(
        weights_from_decimals(Some(number(-1, 0)), Some(number(1, 0))),
        Err(ConfigError::NegativeRate)
    ));
    assert!(matches!(
        weights_from_decimals(Some(number(1, 0)), Some(number(1_000_001, 0))),
        Err(ConfigError::RateOutOfRange)
    ));
    let unused: Option<ExchangeWeights> = None;
    assert!(unused.is_none());
}
