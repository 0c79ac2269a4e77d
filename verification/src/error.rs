//! Error taxonomy of the trading core.
//!
//! Validation errors are raised at construction time, data-insufficiency
//! and provider errors at evaluation time, and the `Internal` kind covers
//! accounting invariant violations (insufficient capital, overselling).

use vstd::prelude::*;

verus! {

/// Errors raised by strategy construction, validation and evaluation.
#[derive(Debug, Clone, PartialEq, Eq)]
pub enum StrategyError {
    InvalidParameters(String),
    NotFound(String),
    ExecutionFailed(String),
    InsufficientData,
    AlreadyExists(String),
    NotActive(String),
}

/// Errors raised by market-data providers.
#[derive(Debug, Clone, PartialEq, Eq)]
pub enum MarketDataError {
    SymbolNotFound(String),
    RateLimitExceeded,
    ProviderUnavailable,
    InvalidFormat,
    NoDataAvailable(String),
    InsufficientHistoricalData(String),
}

/// Top-level error for the trading core.
#[derive(Debug, Clone, PartialEq, Eq)]
pub enum TradingPlatformError {
    Strategy(StrategyError),
    MarketData(MarketDataError),
    Config(String),
    Internal(String),
}

impl StrategyError {
    /// Builds an `InvalidParameters` error carrying the given message.
    pub fn invalid_parameters(msg: &str) -> (r: StrategyError)
        ensures
            r matches StrategyError::InvalidParameters(m) && m@ == msg@,
    {
        StrategyError::InvalidParameters(msg.to_owned())
    }

    /// Builds an `ExecutionFailed` error carrying the given message.
    pub fn execution_failed(msg: &str) -> (r: StrategyError)
        ensures
            r matches StrategyError::ExecutionFailed(m) && m@ == msg@,
    {
        StrategyError::ExecutionFailed(msg.to_owned())
    }
}

impl MarketDataError {
    /// Builds a `SymbolNotFound` error naming the given symbol.
    pub fn symbol_not_found(symbol: &str) -> (r: MarketDataError)
        ensures
            r matches MarketDataError::SymbolNotFound(s) && s@ == symbol@,
    {
        MarketDataError::SymbolNotFound(symbol.to_owned())
    }

    /// Builds a `NoDataAvailable` error naming the given symbol.
    pub fn no_data_available(symbol: &str) -> (r: MarketDataError)
        ensures
            r matches MarketDataError::NoDataAvailable(s) && s@ == symbol@,
    {
        MarketDataError::NoDataAvailable(symbol.to_owned())
    }
}

impl TradingPlatformError {
    /// Builds a `Config` error carrying the given message.
    pub fn config(msg: &str) -> (r: TradingPlatformError)
        ensures
            r matches TradingPlatformError::Config(m) && m@ == msg@,
    {
        TradingPlatformError::Config(msg.to_owned())
    }

    /// Builds an `Internal` error carrying the given message.
    pub fn internal(msg: &str) -> (r: TradingPlatformError)
        ensures
            r matches TradingPlatformError::Internal(m) && m@ == msg@,
    {
        TradingPlatformError::Internal(msg.to_owned())
    }
}

} // verus!
