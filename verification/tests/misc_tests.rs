use trading_platform::amount::{floor_div, SCALE};
use trading_platform::config::Config;
use trading_platform::data::{MarketData, TimePeriod};
use trading_platform::database::DatabaseConfig;
use trading_platform::error::{MarketDataError, StrategyError, TradingPlatformError};
use trading_platform::live::{
    classify_http_status, period_params, HistoricalSeries, QuoteMeta, YahooFinanceProvider,
};
use trading_platform::market::MarketDataConfig;
use trading_platform::performance::isqrt_u128;
use trading_platform::strategy::{Action, RiskLevel, StrategyType};
use trading_platform::xai::{
    AlternativeScenario, Explanation, ExplanationContext, KeyIndicator, MarketContext,
    TrendDirection, VolatilityLevel, VolumeAnalysis,
};

#[test]
fn test_config_loading() {
    let config = Config::default();
    assert_eq!(config.server.port, 8000);
    assert_eq!(config.server.websocket_port, 8001);
    assert_eq!(config.server.static_port, 8050);
    assert_eq!(config.database.url, "sqlite:trading_platform.db");
    assert_eq!(config.strategies.initial_cash, 10_000 * SCALE);
}

#[test]
fn test_database_config_defaults() {
    let config = DatabaseConfig::new("sqlite::memory:".to_string());
    assert_eq!(config.url, "sqlite::memory:");
    assert_eq!(config.max_connections, 10);
    assert_eq!(config.min_connections, 1);
    assert_eq!(config.connect_timeout, 30);
    assert_eq!(config.idle_timeout, 600);
}

#[test]
fn test_explanation_context() {
    let strategy_type = StrategyType::PriceDrop { threshold: 5 * SCALE };
    let market_data = MarketData::new("AAPL".to_string(), 150 * SCALE, 1_000_000);
    let strategy_data = vec![("price_change".to_string(), -52_000i128)];

    let context = ExplanationContext::new(
        strategy_type,
        Action::Buy,
        market_data,
        strategy_data,
    );

    assert_eq!(context.action, Action::Buy);
    assert_eq!(context.market_data.symbol, "AAPL");
    assert!(context.historical_context.is_none());
}

#[test]
fn test_market_context_analysis() {
    let mut context = MarketContext::new();

    // changes of 1, 2, -0.5, 1.5, 2.5, 1, 3 whole units
    let price_changes = vec![
        SCALE,
        2 * SCALE,
        -SCALE / 2,
        3 * SCALE / 2,
        5 * SCALE / 2,
        SCALE,
        3 * SCALE,
    ];
    context.analyze_trend(&price_changes);
    assert!(matches!(
        context.trend_direction,
        TrendDirection::WeakUptrend | TrendDirection::StrongUptrend
    ));

    context.analyze_volatility(&price_changes);
    assert!(matches!(
        context.volatility_level,
        VolatilityLevel::Low | VolatilityLevel::Normal
    ));

    context.analyze_volume(2_000_000, 1_000_000);
    assert!(matches!(
        context.volume_analysis,
        VolumeAnalysis::High | VolumeAnalysis::VeryHigh
    ));
}

#[test]
fn test_explanation_building() {
    let mut explanation = Explanation::new(
        "Buy signal generated".to_string(),
        "Price dropped below threshold".to_string(),
    );

    explanation = explanation
        .with_confidence(8_500)
        .with_market_context("Strong downward movement".to_string())
        .with_risk_factors(vec!["Market volatility".to_string()]);

    explanation.add_key_indicator(KeyIndicator::critical(
        "Price Change".to_string(),
        -52_000,
        "Significant price drop".to_string(),
    ));

    explanation.add_alternative_scenario(AlternativeScenario::new(
        "Continued decline".to_string(),
        3_000,
        "Price may continue falling".to_string(),
        "Additional losses".to_string(),
    ));

    assert!(explanation.is_high_confidence());
    assert!(explanation.is_low_risk());
    assert_eq!(explanation.key_indicators.len(), 1);
    assert_eq!(explanation.alternative_scenarios.len(), 1);
}

#[test]
fn test_confidence_and_probability_clamping() {
    let explanation = Explanation::new("s".to_string(), "d".to_string())
        .with_confidence(3 * SCALE);
    assert_eq!(explanation.confidence_level, SCALE);
    let explanation = explanation.with_confidence(-5);
    assert_eq!(explanation.confidence_level, 0);
    assert_eq!(explanation.risk_level, RiskLevel::High);

    let scenario = AlternativeScenario::new(
        "s".to_string(),
        2 * SCALE,
        "d".to_string(),
        "o".to_string(),
    );
    assert_eq!(scenario.probability, SCALE);
}

#[test]
fn test_error_constructors() {
    match StrategyError::invalid_parameters("bad") {
        StrategyError::InvalidParameters(m) => assert_eq!(m, "bad"),
        _ => panic!("wrong variant"),
    }
    match StrategyError::execution_failed("boom") {
        StrategyError::ExecutionFailed(m) => assert_eq!(m, "boom"),
        _ => panic!("wrong variant"),
    }
    match MarketDataError::symbol_not_found("XYZ") {
        MarketDataError::SymbolNotFound(s) => assert_eq!(s, "XYZ"),
        _ => panic!("wrong variant"),
    }
    match MarketDataError::no_data_available("XYZ") {
        MarketDataError::NoDataAvailable(s) => assert_eq!(s, "XYZ"),
        _ => panic!("wrong variant"),
    }
    match TradingPlatformError::config("oops") {
        TradingPlatformError::Config(m) => assert_eq!(m, "oops"),
        _ => panic!("wrong variant"),
    }
    match TradingPlatformError::internal("oops") {
        TradingPlatformError::Internal(m) => assert_eq!(m, "oops"),
        _ => panic!("wrong variant"),
    }
}

#[test]
fn test_floor_div() {
    assert_eq!(floor_div(7, 2), 3);
    assert_eq!(floor_div(-7, 2), -4);
    assert_eq!(floor_div(-8, 2), -4);
    assert_eq!(floor_div(0, 5), 0);
}

#[test]
fn test_isqrt() {
    assert_eq!(isqrt_u128(0), 0);
    assert_eq!(isqrt_u128(1), 1);
    assert_eq!(isqrt_u128(8), 2);
    assert_eq!(isqrt_u128(9), 3);
    assert_eq!(isqrt_u128(u64::MAX as u128 * u64::MAX as u128), u64::MAX);
}

#[test]
fn test_yahoo_finance_provider_creation() {
    let provider = YahooFinanceProvider::new(MarketDataConfig::default());
    assert_eq!(provider.retry_policy.max_retries, 3);
    assert_eq!(provider.retry_policy.base_delay_ms, 1000);
    assert_eq!(provider.rate_limiter.delay_ms, 100);
}

#[test]
fn test_provider_name() {
    let provider = YahooFinanceProvider::new(MarketDataConfig::default());
    assert_eq!(provider.provider_name(), "Yahoo Finance");
}

#[test]
fn yahoo_finance_test_rate_limit_info() {
    let provider = YahooFinanceProvider::new(MarketDataConfig::default());
    let rate_info = provider.rate_limit_info();
    assert_eq!(rate_info.requests_per_minute, 60);
    assert_eq!(rate_info.requests_per_hour, 2000);
}

#[test]
fn test_classify_http_status() {
    assert_eq!(classify_http_status(200, "AAPL"), None);
    assert_eq!(classify_http_status(299, "AAPL"), None);
    assert_eq!(
        classify_http_status(404, "AAPL"),
        Some(MarketDataError::SymbolNotFound("AAPL".to_string()))
    );
    assert_eq!(
        classify_http_status(429, "AAPL"),
        Some(MarketDataError::RateLimitExceeded)
    );
    assert_eq!(
        classify_http_status(500, "AAPL"),
        Some(MarketDataError::ProviderUnavailable)
    );
}

#[test]
fn test_period_params() {
    let provider_keys = period_params(&TimePeriod::OneWeek);
    assert_eq!(provider_keys.0, "7d");
    assert_eq!(provider_keys.1, "5m");
    let custom = period_params(&TimePeriod::Custom { days: 10 });
    assert_eq!(custom.0, "1mo");
    assert_eq!(custom.1, "1d");
}

#[test]
fn test_convert_to_market_data() {
    let provider = YahooFinanceProvider::new(MarketDataConfig::default());
    let meta = QuoteMeta {
        regular_market_price: Some(150 * SCALE),
        previous_close: Some(145 * SCALE),
        regular_market_volume: Some(1_000_000),
        regular_market_day_high: Some(152 * SCALE),
        regular_market_day_low: Some(148 * SCALE),
        market_cap: Some(5_000_000),
    };
    let md = provider
        .convert_to_market_data("AAPL", &Some(meta))
        .unwrap();
    assert_eq!(md.price, 150 * SCALE);
    assert_eq!(md.change, 5 * SCALE);
    assert_eq!(md.previous_close, Some(145 * SCALE));
    assert_eq!(md.day_high, Some(152 * SCALE));
    assert_eq!(md.market_cap, Some(5_000_000));

    let missing = provider.convert_to_market_data("AAPL", &None);
    match missing.unwrap_err() {
        TradingPlatformError::MarketData(MarketDataError::NoDataAvailable(s)) => {
            assert_eq!(s, "AAPL")
        }
        other => panic!("expected NoDataAvailable, got {:?}", other),
    }
}

#[test]
fn test_convert_to_historical_data() {
    let provider = YahooFinanceProvider::new(MarketDataConfig::default());
    let series = HistoricalSeries {
        timestamps: vec![300, 100, 200],
        opens: vec![Some(100 * SCALE), Some(101 * SCALE), None],
        highs: vec![Some(105 * SCALE), Some(106 * SCALE), Some(107 * SCALE)],
        lows: vec![Some(98 * SCALE), Some(99 * SCALE), Some(100 * SCALE)],
        closes: vec![Some(103 * SCALE), Some(104 * SCALE), Some(105 * SCALE)],
        volumes: vec![Some(1000), Some(2000), Some(3000)],
    };
    let h = provider
        .convert_to_historical_data("AAPL", &Some(series), TimePeriod::OneWeek)
        .unwrap();
    // the row missing its open is skipped, the rest are sorted by time
    assert_eq!(h.data_points.len(), 2);
    assert_eq!(h.data_points[0].timestamp, 100);
    assert_eq!(h.data_points[1].timestamp, 300);

    let empty = HistoricalSeries {
        timestamps: vec![1],
        opens: vec![None],
        highs: vec![None],
        lows: vec![None],
        closes: vec![None],
        volumes: vec![None],
    };
    let err = provider.convert_to_historical_data("AAPL", &Some(empty), TimePeriod::OneWeek);
    match err.unwrap_err() {
        TradingPlatformError::MarketData(MarketDataError::InsufficientHistoricalData(s)) => {
            assert_eq!(s, "AAPL")
        }
        other => panic!("expected InsufficientHistoricalData, got {:?}", other),
    }
}
