use trading_platform::data::TimePeriod;
use trading_platform::error::{MarketDataError, TradingPlatformError};
use trading_platform::mock::MockMarketDataProvider;
use trading_platform::SCALE;

#[test]
fn test_mock_market_data_provider() {
    let mut provider = MockMarketDataProvider::new_with_seed(42);

    let market_data = provider.get_current_price("AAPL").unwrap();
    assert_eq!(market_data.symbol, "AAPL");
    assert!(market_data.price > 0);
    assert!(market_data.volume > 0);

    let historical_data = provider
        .get_historical_data("AAPL", TimePeriod::OneWeek)
        .unwrap();
    assert_eq!(historical_data.symbol, "AAPL");
    assert!(!historical_data.data_points.is_empty());
    assert_eq!(historical_data.period, TimePeriod::OneWeek);

    let symbols = vec!["AAPL".to_string(), "GOOGL".to_string()];
    let prices = provider.get_multiple_prices(&symbols).unwrap();
    assert_eq!(prices.len(), 2);
    assert!(prices.iter().any(|(s, _)| s == "AAPL"));
    assert!(prices.iter().any(|(s, _)| s == "GOOGL"));

    assert!(provider.health_check().is_ok());
    assert_eq!(provider.provider_name(), "Mock Provider");
}

#[test]
fn test_market_data_provider_error_handling() {
    let mut provider = MockMarketDataProvider::new();

    let result = provider.get_current_price("UNKNOWN");
    assert!(result.is_err());
    match result.unwrap_err() {
        TradingPlatformError::MarketData(MarketDataError::SymbolNotFound(symbol)) => {
            assert_eq!(symbol, "UNKNOWN");
        }
        _ => panic!("Expected SymbolNotFound error"),
    }

    provider.set_health_status(false);
    let result = provider.get_current_price("AAPL");
    assert!(result.is_err());
    match result.unwrap_err() {
        TradingPlatformError::MarketData(MarketDataError::ProviderUnavailable) => {}
        _ => panic!("Expected ProviderUnavailable error"),
    }
}

#[test]
fn test_mock_provider_current_price() {
    let mut provider = MockMarketDataProvider::new_with_seed(42);

    let result = provider.get_current_price("AAPL");
    assert!(result.is_ok());

    let market_data = result.unwrap();
    assert_eq!(market_data.symbol, "AAPL");
    assert!(market_data.price > 0);
    assert!(market_data.volume > 0);
    // the quote stays within five percent of the 150-unit base price
    assert!(market_data.price >= 142 * SCALE);
    assert!(market_data.price <= 158 * SCALE);
    assert_eq!(market_data.previous_close, Some(150 * SCALE));
    assert!(market_data.volume >= 100_000 && market_data.volume < 10_000_000);
}

#[test]
fn test_mock_provider_unknown_symbol() {
    let mut provider = MockMarketDataProvider::new();

    let result = provider.get_current_price("UNKNOWN");
    assert!(result.is_err());

    match result.unwrap_err() {
        TradingPlatformError::MarketData(MarketDataError::SymbolNotFound(symbol)) => {
            assert_eq!(symbol, "UNKNOWN");
        }
        _ => panic!("Expected SymbolNotFound error"),
    }
}

#[test]
fn test_mock_provider_historical_data() {
    let mut provider = MockMarketDataProvider::new_with_seed(42);

    let result = provider.get_historical_data("AAPL", TimePeriod::OneWeek);
    assert!(result.is_ok());

    let historical_data = result.unwrap();
    assert_eq!(historical_data.symbol, "AAPL");
    // a week's history holds exactly its hourly point count
    assert_eq!(historical_data.data_points.len(), 168);
    assert_eq!(historical_data.period, TimePeriod::OneWeek);
    // the series is ordered by timestamp
    for pair in historical_data.data_points.windows(2) {
        assert!(pair[0].timestamp <= pair[1].timestamp);
    }
}

#[test]
fn test_mock_historical_data_empty_period() {
    let mut provider = MockMarketDataProvider::new_with_seed(7);
    let result = provider.get_historical_data("AAPL", TimePeriod::Custom { days: 0 });
    match result.unwrap_err() {
        TradingPlatformError::MarketData(MarketDataError::InsufficientHistoricalData(s)) => {
            assert_eq!(s, "AAPL")
        }
        other => panic!("expected InsufficientHistoricalData, got {:?}", other),
    }
}

#[test]
fn test_mock_provider_multiple_prices() {
    let mut provider = MockMarketDataProvider::new();
    let symbols = vec![
        "AAPL".to_string(),
        "GOOGL".to_string(),
        "MSFT".to_string(),
    ];

    let result = provider.get_multiple_prices(&symbols);
    assert!(result.is_ok());

    let prices = result.unwrap();
    assert_eq!(prices.len(), 3);
    // the entries are the requested symbols, in request order
    assert_eq!(prices[0].0, "AAPL");
    assert_eq!(prices[1].0, "GOOGL");
    assert_eq!(prices[2].0, "MSFT");
    // each carries the symbol's base price as its previous close
    assert_eq!(prices[0].1.previous_close, Some(150 * SCALE));
    assert_eq!(prices[1].1.previous_close, Some(2800 * SCALE));
}

#[test]
fn test_mock_provider_health_check() {
    let mut provider = MockMarketDataProvider::new();

    assert!(provider.health_check().is_ok());

    provider.set_health_status(false);
    assert!(provider.health_check().is_err());

    provider.set_health_status(true);
    assert!(provider.health_check().is_ok());
}

#[test]
fn test_mock_provider_unhealthy_requests() {
    let mut provider = MockMarketDataProvider::new();
    provider.set_health_status(false);

    let result = provider.get_current_price("AAPL");
    assert!(result.is_err());

    let result = provider.get_historical_data("AAPL", TimePeriod::OneDay);
    assert!(result.is_err());
}

#[test]
fn test_mock_provider_set_base_price() {
    let mut provider = MockMarketDataProvider::new();
    provider.set_base_price("TEST", 100 * SCALE);

    let entry = provider
        .base_prices
        .iter()
        .find(|(s, _)| s == "TEST")
        .cloned();
    assert_eq!(entry, Some(("TEST".to_string(), 100 * SCALE)));
}

#[test]
fn test_mock_provider_name() {
    let provider = MockMarketDataProvider::new();
    assert_eq!(provider.provider_name(), "Mock Provider");
}

#[test]
fn test_mock_provider_rate_limit_info() {
    let provider = MockMarketDataProvider::new();
    let rate_info = provider.rate_limit_info();
    assert_eq!(rate_info.requests_per_minute, 1000);
    assert_eq!(rate_info.requests_per_hour, 60000);
}

#[test]
fn test_deterministic_behavior_with_seed() {
    let mut provider1 = MockMarketDataProvider::new_with_seed(42);
    let mut provider2 = MockMarketDataProvider::new_with_seed(42);

    // the same seed gives the same quote for the same symbol
    let price1 = provider1.get_current_price("AAPL").unwrap().price;
    let price2 = provider2.get_current_price("AAPL").unwrap().price;

    assert_eq!(price1, price2);
}

#[test]
fn test_mock_multiple_prices_all_unknown() {
    let mut provider = MockMarketDataProvider::new();
    let symbols = vec!["NOPE".to_string(), "NADA".to_string()];
    let result = provider.get_multiple_prices(&symbols);
    match result.unwrap_err() {
        TradingPlatformError::MarketData(MarketDataError::NoDataAvailable(_)) => {}
        other => panic!("expected NoDataAvailable, got {:?}", other),
    }
}
