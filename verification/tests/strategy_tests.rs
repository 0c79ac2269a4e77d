use trading_platform::data::{MarketData, PricePoint};
use trading_platform::error::{StrategyError, TradingPlatformError};
use trading_platform::strategy::{
    Action, RiskLevel, Strategy, StrategyEngine, StrategyType, TradingSignal,
};
use trading_platform::SCALE;

fn create_test_price_points(prices: &[i64]) -> Vec<PricePoint> {
    prices
        .iter()
        .enumerate()
        .map(|(i, &price)| {
            PricePoint::new(
                i as i64,
                price,
                price * 102 / 100,
                price * 98 / 100,
                price,
                1_000_000,
            )
            .unwrap()
        })
        .collect()
}

fn create_test_market_data(symbol: &str, price: i64) -> MarketData {
    MarketData::new(symbol.to_string(), price, 1_000_000)
}

#[test]
fn test_strategy_creation_and_validation() {
    let price_drop = StrategyType::PriceDrop { threshold: 5 * SCALE };
    let strategy = Strategy::new(price_drop, "AAPL".to_string()).unwrap();
    assert!(strategy.validate().is_ok());
    assert_eq!(strategy.symbol, "AAPL");
    assert!(strategy.is_active);

    let invalid_price_drop = StrategyType::PriceDrop { threshold: -5 * SCALE };
    let invalid_strategy = Strategy::new(invalid_price_drop, "AAPL".to_string()).unwrap();
    assert!(invalid_strategy.validate().is_err());

    let invalid_ma = StrategyType::MovingAverage { short_period: 30, long_period: 10 };
    let invalid_ma_strategy = Strategy::new(invalid_ma, "AAPL".to_string()).unwrap();
    assert!(invalid_ma_strategy.validate().is_err());

    let invalid_rsi = StrategyType::RSI { oversold: 80 * SCALE, overbought: 20 * SCALE };
    let invalid_rsi_strategy = Strategy::new(invalid_rsi, "AAPL".to_string()).unwrap();
    assert!(invalid_rsi_strategy.validate().is_err());
}

#[test]
fn test_validation_error_kinds() {
    let strategy = Strategy::new(
        StrategyType::PriceDrop { threshold: 5 * SCALE },
        "TOOLONGSYMBOL".to_string(),
    )
    .unwrap();
    match strategy.validate().unwrap_err() {
        TradingPlatformError::Strategy(StrategyError::InvalidParameters(_)) => {}
        other => panic!("expected InvalidParameters, got {:?}", other),
    }

    let strategy = Strategy::new(
        StrategyType::MovingAverage { short_period: 1, long_period: 201 },
        "AAPL".to_string(),
    )
    .unwrap();
    assert!(strategy.validate().is_err());

    let strategy = Strategy::new(
        StrategyType::RSI { oversold: 30 * SCALE, overbought: 100 * SCALE },
        "AAPL".to_string(),
    )
    .unwrap();
    assert!(strategy.validate().is_err());
}

#[test]
fn test_trading_signal_creation() {
    let strategy_data = vec![
        ("price_change".to_string(), -52_000i128),
        ("threshold".to_string(), 50_000i128),
    ];

    let signal = TradingSignal::new(
        "strategy-123".to_string(),
        "AAPL".to_string(),
        Action::Buy,
        150 * SCALE,
        "Price dropped below threshold".to_string(),
        8_500,
        strategy_data,
    );

    assert_eq!(signal.action, Action::Buy);
    assert_eq!(signal.price, 150 * SCALE);
    assert_eq!(signal.confidence, 8_500);
    assert_eq!(signal.metadata.risk_level, RiskLevel::Low);
}

#[test]
fn test_price_drop_strategy_buy_signal() {
    let strategy = Strategy::new(
        StrategyType::PriceDrop { threshold: 5 * SCALE },
        "AAPL".to_string(),
    )
    .unwrap();
    let engine = StrategyEngine::new(strategy).unwrap();

    let historical_data = create_test_price_points(&[100 * SCALE]);
    let market_data = create_test_market_data("AAPL", 94 * SCALE);

    let signal = engine.execute(&market_data, &historical_data).unwrap();

    assert_eq!(signal.action, Action::Buy);
    assert_eq!(signal.confidence, 8_000);
    assert!(signal.explanation.contains("dropped"));
    // metadata reports a six percent drop, exactly
    assert_eq!(signal.metadata.strategy_data[2].0, "price_change_percent");
    assert_eq!(signal.metadata.strategy_data[2].1, -6 * SCALE as i128);
}

#[test]
fn test_price_drop_strategy_sell_signal() {
    let strategy = Strategy::new(
        StrategyType::PriceDrop { threshold: 5 * SCALE },
        "AAPL".to_string(),
    )
    .unwrap();
    let engine = StrategyEngine::new(strategy).unwrap();

    let historical_data = create_test_price_points(&[100 * SCALE]);
    let market_data = create_test_market_data("AAPL", 106 * SCALE);

    let signal = engine.execute(&market_data, &historical_data).unwrap();

    assert_eq!(signal.action, Action::Sell);
    assert_eq!(signal.confidence, 7_000);
    assert!(signal.explanation.contains("increased"));
    assert_eq!(signal.metadata.strategy_data[2].1, 6 * SCALE as i128);
}

#[test]
fn test_price_drop_strategy_hold_signal() {
    let strategy = Strategy::new(
        StrategyType::PriceDrop { threshold: 5 * SCALE },
        "AAPL".to_string(),
    )
    .unwrap();
    let engine = StrategyEngine::new(strategy).unwrap();

    let historical_data = create_test_price_points(&[100 * SCALE]);
    let market_data = create_test_market_data("AAPL", 102 * SCALE);

    let signal = engine.execute(&market_data, &historical_data).unwrap();

    assert_eq!(signal.action, Action::Hold);
    assert!(signal.explanation.contains("within the threshold"));
}

#[test]
fn test_moving_average_strategy_bullish_crossover() {
    let strategy = Strategy::new(
        StrategyType::MovingAverage { short_period: 2, long_period: 3 },
        "AAPL".to_string(),
    )
    .unwrap();
    let engine = StrategyEngine::new(strategy).unwrap();

    let historical_data = create_test_price_points(&[95 * SCALE, 96 * SCALE, 100 * SCALE]);
    let market_data = create_test_market_data("AAPL", 100 * SCALE);

    let signal = engine.execute(&market_data, &historical_data).unwrap();

    assert_eq!(signal.action, Action::Buy);
    assert_eq!(signal.confidence, 8_500);
    assert!(signal.explanation.contains("Bullish crossover"));
}

#[test]
fn test_moving_average_strategy_bearish_crossover() {
    let strategy = Strategy::new(
        StrategyType::MovingAverage { short_period: 2, long_period: 3 },
        "AAPL".to_string(),
    )
    .unwrap();
    let engine = StrategyEngine::new(strategy).unwrap();

    let historical_data = create_test_price_points(&[105 * SCALE, 104 * SCALE, 95 * SCALE]);
    let market_data = create_test_market_data("AAPL", 95 * SCALE);

    let signal = engine.execute(&market_data, &historical_data).unwrap();

    assert_eq!(signal.action, Action::Sell);
    assert_eq!(signal.confidence, 8_500);
    assert!(signal.explanation.contains("Bearish crossover"));
}

#[test]
fn test_rsi_strategy_oversold_buy_signal() {
    let strategy = Strategy::new(
        StrategyType::RSI { oversold: 30 * SCALE, overbought: 70 * SCALE },
        "AAPL".to_string(),
    )
    .unwrap();
    let engine = StrategyEngine::new(strategy).unwrap();

    // twenty closes, each two units below the previous, starting at 100
    let prices: Vec<i64> = (0..20).map(|i| (100 - i * 2) * SCALE).collect();
    let historical_data = create_test_price_points(&prices);
    let market_data = create_test_market_data("AAPL", 62 * SCALE);

    let signal = engine.execute(&market_data, &historical_data).unwrap();

    assert_eq!(signal.action, Action::Buy);
    assert_eq!(signal.confidence, 8_000);
    assert!(signal.explanation.contains("oversold"));
    // all moves are losses, so the RSI is exactly zero
    assert_eq!(signal.metadata.strategy_data[0].1, 0);
}

#[test]
fn test_rsi_strategy_overbought_sell_signal() {
    let strategy = Strategy::new(
        StrategyType::RSI { oversold: 30 * SCALE, overbought: 70 * SCALE },
        "AAPL".to_string(),
    )
    .unwrap();
    let engine = StrategyEngine::new(strategy).unwrap();

    let prices: Vec<i64> = (0..20).map(|i| (100 + i * 2) * SCALE).collect();
    let historical_data = create_test_price_points(&prices);
    let market_data = create_test_market_data("AAPL", 138 * SCALE);

    let signal = engine.execute(&market_data, &historical_data).unwrap();

    assert_eq!(signal.action, Action::Sell);
    assert_eq!(signal.confidence, 8_000);
    assert!(signal.explanation.contains("overbought"));
    // all moves are gains, so the RSI is exactly one hundred
    assert_eq!(signal.metadata.strategy_data[0].1, 100 * SCALE as i128);
}

#[test]
fn test_inactive_strategy_returns_hold() {
    let mut strategy = Strategy::new(
        StrategyType::PriceDrop { threshold: 5 * SCALE },
        "AAPL".to_string(),
    )
    .unwrap();
    strategy.deactivate();
    let engine = StrategyEngine::new(strategy).unwrap();

    let historical_data = create_test_price_points(&[100 * SCALE]);
    let market_data = create_test_market_data("AAPL", 90 * SCALE);

    let signal = engine.execute(&market_data, &historical_data).unwrap();

    assert_eq!(signal.action, Action::Hold);
    assert_eq!(signal.confidence, 0);
    assert!(signal.explanation.contains("inactive"));
}

#[test]
fn test_insufficient_data_error() {
    let strategy = Strategy::new(
        StrategyType::MovingAverage { short_period: 5, long_period: 10 },
        "AAPL".to_string(),
    )
    .unwrap();
    let engine = StrategyEngine::new(strategy).unwrap();

    let historical_data =
        create_test_price_points(&[100 * SCALE, 101 * SCALE, 102 * SCALE]);
    let market_data = create_test_market_data("AAPL", 102 * SCALE);

    let result = engine.execute(&market_data, &historical_data);

    assert!(result.is_err());
    match result.unwrap_err() {
        TradingPlatformError::Strategy(StrategyError::InsufficientData) => {}
        other => panic!("Expected InsufficientData error, got: {:?}", other),
    }
}

#[test]
fn test_rsi_stays_within_range() {
    let strategy = Strategy::new(
        StrategyType::RSI { oversold: 30 * SCALE, overbought: 70 * SCALE },
        "AAPL".to_string(),
    )
    .unwrap();
    let engine = StrategyEngine::new(strategy).unwrap();

    // a mixed series of rises and falls
    let prices: Vec<i64> = (0..30)
        .map(|i| (100 + if i % 3 == 0 { 5 } else { -2 } * (i % 7)) * SCALE)
        .collect();
    let historical_data = create_test_price_points(&prices);
    let rsi = engine.calculate_rsi(&historical_data, 14).unwrap();
    assert!(0 <= rsi && rsi <= 100 * SCALE);

    // all gains: exactly one hundred
    let rising: Vec<i64> = (1..=16).map(|i| i * SCALE).collect();
    let rising_points = create_test_price_points(&rising);
    assert_eq!(engine.calculate_rsi(&rising_points, 14).unwrap(), 100 * SCALE);
}

#[test]
fn test_strategy_ids_are_fresh() {
    let a = Strategy::new(StrategyType::PriceDrop { threshold: SCALE }, "AAPL".to_string())
        .unwrap();
    let b = Strategy::new(StrategyType::PriceDrop { threshold: SCALE }, "AAPL".to_string())
        .unwrap();
    assert_eq!(a.id.len(), 36);
    assert_eq!(b.id.len(), 36);
    assert_ne!(a.id, b.id);
}
