use trading_platform::error::TradingPlatformError;
use trading_platform::market::{
    MarketDataConfig, MarketDataProviderFactory, ProviderInstance, RateLimitInfo, RateLimiter,
    RetryPolicy,
};

#[test]
fn test_retry_policy_delay_calculation() {
    let policy = RetryPolicy::default();

    assert_eq!(policy.calculate_delay(0), 0);
    assert_eq!(policy.calculate_delay(1), 1000);
    assert_eq!(policy.calculate_delay(2), 2000);
    assert_eq!(policy.calculate_delay(3), 4000);
}

#[test]
fn test_retry_policy_max_delay() {
    let policy = RetryPolicy {
        max_retries: 10,
        base_delay_ms: 1000,
        max_delay_ms: 5000,
        backoff_multiplier: 2,
    };

    assert_eq!(policy.calculate_delay(10), 5000);
}

#[test]
fn test_market_data_config() {
    let config = MarketDataConfig::default();
    assert_eq!(config.provider, "yahoo_finance");
    assert_eq!(config.timeout_seconds, 30);
    assert_eq!(config.max_retries, 3);
    assert_eq!(config.base_url, "https://query1.finance.yahoo.com");
}

#[test]
fn test_market_data_config_default() {
    let config = MarketDataConfig::default();
    assert_eq!(config.provider, "yahoo_finance");
    assert_eq!(config.timeout_seconds, 30);
    assert_eq!(config.max_retries, 3);
}

#[test]
fn lib_test_rate_limit_info() {
    let info = RateLimitInfo::default();
    assert_eq!(info.requests_per_minute, 60);
    assert_eq!(info.requests_per_hour, 2000);
    assert_eq!(info.current_usage, 0);
    assert!(info.reset_time.is_none());
}

#[test]
fn test_rate_limit_info_default() {
    let info = RateLimitInfo::default();
    assert_eq!(info.requests_per_minute, 60);
    assert_eq!(info.requests_per_hour, 2000);
    assert_eq!(info.current_usage, 0);
}

#[test]
fn test_retry_policy() {
    let policy = RetryPolicy {
        max_retries: 2,
        base_delay_ms: 1,
        max_delay_ms: 10,
        backoff_multiplier: 2,
    };

    // the first two attempts fail, the third succeeds
    let outcomes: Vec<Result<i32, TradingPlatformError>> = vec![
        Err(TradingPlatformError::internal("Temporary failure")),
        Err(TradingPlatformError::internal("Temporary failure")),
        Ok(42),
    ];
    let (result, attempts) = policy.run_with_outcomes(outcomes);

    assert!(result.is_ok());
    assert_eq!(result.unwrap(), 42);
    assert_eq!(attempts, 3);
}

#[test]
fn test_retry_policy_success_on_first_try() {
    let policy = RetryPolicy::default();
    let outcomes: Vec<Result<i32, TradingPlatformError>> = vec![
        Ok(42),
        Err(TradingPlatformError::internal("unused")),
        Err(TradingPlatformError::internal("unused")),
        Err(TradingPlatformError::internal("unused")),
    ];
    let (result, attempts) = policy.run_with_outcomes(outcomes);

    assert!(result.is_ok());
    assert_eq!(result.unwrap(), 42);
    assert_eq!(attempts, 1);
}

#[test]
fn test_retry_policy_success_after_retries() {
    let policy = RetryPolicy {
        max_retries: 2,
        base_delay_ms: 1,
        max_delay_ms: 10,
        backoff_multiplier: 2,
    };
    let outcomes: Vec<Result<i32, TradingPlatformError>> = vec![
        Err(TradingPlatformError::internal("Temporary failure")),
        Err(TradingPlatformError::internal("Temporary failure")),
        Ok(42),
    ];
    let (result, attempts) = policy.run_with_outcomes(outcomes);

    assert!(result.is_ok());
    assert_eq!(result.unwrap(), 42);
    assert_eq!(attempts, 3);
}

#[test]
fn test_retry_policy_failure_after_max_retries() {
    let policy = RetryPolicy {
        max_retries: 2,
        base_delay_ms: 1,
        max_delay_ms: 10,
        backoff_multiplier: 2,
    };
    let outcomes: Vec<Result<i32, TradingPlatformError>> = vec![
        Err(TradingPlatformError::internal("Always fails")),
        Err(TradingPlatformError::internal("Always fails")),
        Err(TradingPlatformError::internal("last error")),
    ];
    let (result, attempts) = policy.run_with_outcomes(outcomes);

    // initial attempt plus two retries, and the last error comes back
    assert_eq!(attempts, 3);
    match result {
        Err(TradingPlatformError::Internal(msg)) => assert_eq!(msg, "last error"),
        other => panic!("expected the last error, got {:?}", other),
    }
}

#[test]
fn test_rate_limiter() {
    let mut limiter = RateLimiter::new(100);

    // the first request never waits
    let first_wait = limiter.note_request(5_000);
    assert_eq!(first_wait, 0);

    // an immediate second request waits out the full spacing
    let second_wait = limiter.note_request(5_000);
    assert_eq!(second_wait, 100);

    // a request after the spacing has elapsed does not wait
    let third_wait = limiter.note_request(5_300);
    assert_eq!(third_wait, 0);
}

#[test]
fn test_market_data_provider_factory() {
    let mut config = MarketDataConfig::default();
    config.provider = "mock".to_string();

    let provider = MarketDataProviderFactory::create_provider(&config).unwrap();
    match provider {
        ProviderInstance::Mock(m) => assert_eq!(m.provider_name(), "Mock Provider"),
        _ => panic!("expected the mock provider"),
    }

    config.provider = "yahoo_finance".to_string();
    let provider = MarketDataProviderFactory::create_provider(&config).unwrap();
    match provider {
        ProviderInstance::YahooFinance(p) => {
            assert_eq!(p.provider_name(), "Yahoo Finance")
        }
        _ => panic!("expected the live provider"),
    }

    config.provider = "unknown".to_string();
    let result = MarketDataProviderFactory::create_provider(&config);
    assert!(result.is_err());
}
