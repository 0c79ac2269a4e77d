//! Process configuration values.
//!
//! Loading them from the environment is the configuration
//! collaborator's job and stays outside the library; the core only
//! carries the values and their conventional defaults.

use vstd::prelude::*;

verus! {

/// Network endpoints of the service.
#[derive(Debug, Clone, PartialEq)]
pub struct ServerConfig {
    pub host: String,
    pub port: u16,
    pub websocket_port: u16,
    pub static_port: u16,
    pub cors_origins: Vec<String>,
}

/// Storage connection settings.
#[derive(Debug, Clone, PartialEq)]
pub struct DatabaseConfig {
    pub url: String,
    pub max_connections: u32,
    pub min_connections: u32,
}

/// Market-data polling settings.
#[derive(Debug, Clone, PartialEq)]
pub struct MarketDataConfig {
    pub provider: String,
    pub update_interval_seconds: u64,
    pub historical_days: u32,
    pub rate_limit_delay_ms: u64,
    pub max_retries: u32,
    pub timeout_seconds: u64,
}

/// Quote cache settings.
#[derive(Debug, Clone, PartialEq)]
pub struct CacheConfig {
    pub enabled: bool,
    pub redis_url: Option<String>,
    pub ttl_seconds: u64,
}

/// Strategy execution settings; money values in units.
#[derive(Debug, Clone, PartialEq)]
pub struct StrategyConfig {
    pub max_concurrent_strategies: u32,
    pub initial_cash: i64,
    pub max_position_size: i64,
    pub transaction_cost: i64,
}

/// The whole process configuration.
#[derive(Debug, Clone, PartialEq)]
pub struct Config {
    pub server: ServerConfig,
    pub database: DatabaseConfig,
    pub market_data: MarketDataConfig,
    pub cache: CacheConfig,
    pub strategies: StrategyConfig,
}

impl Default for Config {
    /// The conventional defaults: ports 8000/8001/8050, a local
    /// store, the live provider polled every five seconds, no cache,
    /// and ten thousand units of starting cash.
    fn default() -> (r: Config)
        ensures
            r.server.host@ == "0.0.0.0"@,
            r.server.port == 8000,
            r.server.websocket_port == 8001,
            r.server.static_port == 8050,
            r.server.cors_origins@.len() == 1,
            r.database.url@ == "sqlite:trading_platform.db"@,
            r.database.max_connections == 10,
            r.database.min_connections == 1,
            r.market_data.provider@ == "yahoo_finance"@,
            r.market_data.update_interval_seconds == 5,
            r.market_data.historical_days == 30,
            r.market_data.rate_limit_delay_ms == 1000,
            r.market_data.max_retries == 3,
            r.market_data.timeout_seconds == 10,
            !r.cache.enabled,
            r.cache.redis_url is None,
            r.cache.ttl_seconds == 300,
            r.strategies.max_concurrent_strategies == 10,
            r.strategies.initial_cash == 10_000 * crate::amount::SCALE,
            r.strategies.max_position_size == crate::amount::SCALE / 5,
            r.strategies.transaction_cost == crate::amount::SCALE / 100,
    {
        let mut cors_origins: Vec<String> = Vec::new();
        cors_origins.push(String::from_str("*"));
        Config {
            server: ServerConfig {
                host: String::from_str("0.0.0.0"),
                port: 8000,
                websocket_port: 8001,
                static_port: 8050,
                cors_origins,
            },
            database: DatabaseConfig {
                url: String::from_str("sqlite:trading_platform.db"),
                max_connections: 10,
                min_connections: 1,
            },
            market_data: MarketDataConfig {
                provider: String::from_str("yahoo_finance"),
                update_interval_seconds: 5,
                historical_days: 30,
                rate_limit_delay_ms: 1000,
                max_retries: 3,
                timeout_seconds: 10,
            },
            cache: CacheConfig { enabled: false, redis_url: None, ttl_seconds: 300 },
            strategies: StrategyConfig {
                max_concurrent_strategies: 10,
                initial_cash: 10_000 * crate::amount::SCALE,
                max_position_size: crate::amount::SCALE / 5,
                transaction_cost: crate::amount::SCALE / 100,
            },
        }
    }
}

} // verus!
