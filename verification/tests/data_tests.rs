use trading_platform::data::{
    HistoricalData, MarketData, MarketIndicators, MarketStatus, PricePoint, TimePeriod,
};
use trading_platform::SCALE;

fn point(close: i64) -> PricePoint {
    PricePoint::new(0, close, close * 102 / 100, close * 98 / 100, close, 50000).unwrap()
}

#[test]
fn test_market_data_validation() {
    let market_data = MarketData::new("AAPL".to_string(), 150 * SCALE, 1_000_000);
    let market_data = market_data
        .with_change(145 * SCALE)
        .with_day_range(152 * SCALE, 148 * SCALE);

    assert!(market_data.validate().is_ok());
    assert_eq!(market_data.change, 5 * SCALE);
    // 5 / 145 * 100 = 3.4482... percent
    assert!((market_data.change_percent - 34500i128).abs() < 100);

    let invalid_data = MarketData::new("".to_string(), -10 * SCALE, 0);
    assert!(invalid_data.validate().is_err());
}

#[test]
fn test_price_point_creation() {
    let timestamp = 1_700_000_000i64;
    let price_point =
        PricePoint::new(timestamp, 100 * SCALE, 105 * SCALE, 98 * SCALE, 103 * SCALE, 50000)
            .unwrap();

    assert_eq!(price_point.typical_price(), 102 * SCALE);
    assert_eq!(price_point.price_range(), 7 * SCALE);
    assert_eq!(price_point.body_size(), 3 * SCALE);
    assert!(price_point.is_bullish());
    assert!(!price_point.is_bearish());

    let invalid_point =
        PricePoint::new(timestamp, 100 * SCALE, 95 * SCALE, 98 * SCALE, 103 * SCALE, 50000);
    assert!(invalid_point.is_err());
}

#[test]
fn test_historical_data_operations() {
    let mut historical = HistoricalData::new("AAPL".to_string(), TimePeriod::OneWeek);

    historical.add_price_point(point(103 * SCALE));

    assert_eq!(historical.data_points.len(), 1);
    assert!(historical.get_latest().is_some());
    assert_eq!(historical.get_closing_prices(), vec![103 * SCALE]);
    assert_eq!(historical.get_volumes(), vec![50000]);

    for i in 1..=10i64 {
        historical.add_price_point(point((103 + i) * SCALE));
    }

    let ma_5 = historical.calculate_simple_moving_average(5);
    assert!(ma_5.is_some());
    assert!(ma_5.unwrap() > 103 * SCALE);
}

#[test]
fn test_moving_average_exact_value() {
    let mut historical = HistoricalData::new("AAPL".to_string(), TimePeriod::OneWeek);
    for close in [100i64, 200, 300] {
        historical.add_price_point(point(close * SCALE));
    }
    assert_eq!(
        historical.calculate_simple_moving_average(3),
        Some(200 * SCALE)
    );
    assert_eq!(historical.calculate_simple_moving_average(4), None);
    assert_eq!(historical.calculate_simple_moving_average(0), None);
}

#[test]
fn test_add_price_point_keeps_order() {
    let mut historical = HistoricalData::new("AAPL".to_string(), TimePeriod::OneDay);
    let early = PricePoint::new(100, SCALE, SCALE, SCALE, SCALE, 1).unwrap();
    let late = PricePoint::new(300, 2 * SCALE, 2 * SCALE, 2 * SCALE, 2 * SCALE, 2).unwrap();
    let middle = PricePoint::new(200, 3 * SCALE, 3 * SCALE, 3 * SCALE, 3 * SCALE, 3).unwrap();
    historical.add_price_point(late);
    historical.add_price_point(early);
    historical.add_price_point(middle);
    let stamps: Vec<i64> = historical.data_points.iter().map(|p| p.timestamp).collect();
    assert_eq!(stamps, vec![100, 200, 300]);
}

#[test]
fn test_time_period_to_days() {
    assert_eq!(TimePeriod::OneDay.to_days(), 1);
    assert_eq!(TimePeriod::OneWeek.to_days(), 7);
    assert_eq!(TimePeriod::OneMonth.to_days(), 30);
    assert_eq!(TimePeriod::ThreeMonths.to_days(), 90);
    assert_eq!(TimePeriod::SixMonths.to_days(), 180);
    assert_eq!(TimePeriod::OneYear.to_days(), 365);
    assert_eq!(TimePeriod::TwoYears.to_days(), 730);
    assert_eq!(TimePeriod::FiveYears.to_days(), 1825);
    assert_eq!(TimePeriod::Custom { days: 42 }.to_days(), 42);
}

#[test]
fn test_market_indicators_map() {
    let mut indicators = MarketIndicators::new("AAPL".to_string());
    assert_eq!(indicators.get_moving_average(20), None);
    indicators.add_moving_average(20, 150 * SCALE);
    indicators.add_moving_average(50, 140 * SCALE);
    indicators.add_moving_average(20, 151 * SCALE);
    assert_eq!(indicators.get_moving_average(20), Some(151 * SCALE));
    assert_eq!(indicators.get_moving_average(50), Some(140 * SCALE));
    assert_eq!(indicators.moving_averages.len(), 2);
}

#[test]
fn test_market_status_default() {
    assert_eq!(MarketStatus::default(), MarketStatus::Closed);
}

#[test]
fn test_significant_change() {
    let market_data = MarketData::new("AAPL".to_string(), 103 * SCALE, 1).with_change(100 * SCALE);
    assert_eq!(market_data.change_percent, 3 * SCALE as i128);
    assert!(market_data.is_significant_change(2 * SCALE as i128));
    assert!(!market_data.is_significant_change(4 * SCALE as i128));
}
