use trading_platform::performance::{PerformanceMetrics, Portfolio, Position, Trade};
use trading_platform::strategy::Action;
use trading_platform::SCALE;

fn buy_trade(quantity: u64, price: i64, commission: i64) -> Trade {
    Trade::new(
        "strategy-123".to_string(),
        "AAPL".to_string(),
        Action::Buy,
        quantity,
        price,
        "Buy signal".to_string(),
        commission,
    )
}

fn sell_trade(quantity: u64, price: i64, commission: i64) -> Trade {
    Trade::new(
        "strategy-123".to_string(),
        "AAPL".to_string(),
        Action::Sell,
        quantity,
        price,
        "Sell signal".to_string(),
        commission,
    )
}

#[test]
fn test_performance_metrics() {
    let mut metrics = PerformanceMetrics::new("strategy-123".to_string(), 10_000 * SCALE);

    let trades = vec![
        buy_trade(10, 100 * SCALE, 5 * SCALE).with_realized_pnl(50 * SCALE),
        sell_trade(10, 105 * SCALE, 5 * SCALE).with_realized_pnl(-20 * SCALE),
    ];

    metrics.update_from_trades(&trades);

    assert_eq!(metrics.total_trades, 2);
    assert_eq!(metrics.winning_trades, 1);
    assert_eq!(metrics.losing_trades, 1);
    assert_eq!(metrics.total_return, 30 * SCALE);
    // one win out of two trades: a fifty percent win rate
    assert_eq!(metrics.win_rate, 50 * SCALE);
    assert_eq!(metrics.average_win, 50 * SCALE);
    assert_eq!(metrics.average_loss, 20 * SCALE);
    // profit factor 50 / 20 = 2.5
    assert_eq!(metrics.profit_factor, (25_000i128));
    assert_eq!(metrics.current_capital, 10_030 * SCALE);
}

#[test]
fn test_metrics_recomputed_wholesale() {
    let mut metrics = PerformanceMetrics::new("strategy-123".to_string(), 10_000 * SCALE);
    let trades = vec![
        buy_trade(10, 100 * SCALE, 5 * SCALE).with_realized_pnl(50 * SCALE),
        sell_trade(10, 105 * SCALE, 5 * SCALE).with_realized_pnl(-20 * SCALE),
    ];
    metrics.update_from_trades(&trades);
    assert!(metrics.win_rate > 0);
    assert!(metrics.profit_factor > 0);

    // an update from an empty list recomputes everything from scratch:
    // nothing stale survives
    metrics.update_from_trades(&Vec::new());
    assert_eq!(metrics.total_trades, 0);
    assert_eq!(metrics.total_return, 0);
    assert_eq!(metrics.win_rate, 0);
    assert_eq!(metrics.average_win, 0);
    assert_eq!(metrics.average_loss, 0);
    assert_eq!(metrics.profit_factor, 0);
    assert_eq!(metrics.current_capital, 10_000 * SCALE);

    // a list of wins alone records no losses, so no profit factor
    let winners = vec![buy_trade(1, SCALE, 0).with_realized_pnl(10 * SCALE)];
    metrics.update_from_trades(&winners);
    assert_eq!(metrics.average_loss, 0);
    assert_eq!(metrics.profit_factor, 0);
}

#[test]
fn test_position_management() {
    let mut position = Position::new("AAPL".to_string(), 100, 50 * SCALE);
    assert_eq!(position.cost_basis, 5_000 * SCALE);
    assert_eq!(position.average_price, 50 * SCALE);

    position.update_price(55 * SCALE);
    assert_eq!(position.unrealized_pnl, 500 * SCALE);
    assert_eq!(position.unrealized_pnl_percent, 10 * SCALE as i128);

    position.add_shares(50, 60 * SCALE);
    assert_eq!(position.shares, 150);
    assert!((position.average_price - 533_300).abs() < 100);

    let realized_pnl = position.remove_shares(50, 65 * SCALE).unwrap();
    assert!(realized_pnl > 0);
    assert_eq!(position.shares, 100);
}

#[test]
fn test_cost_basis_invariant_after_buys() {
    let mut position = Position::new("AAPL".to_string(), 3, 10 * SCALE);
    position.add_shares(7, 13 * SCALE);
    position.add_shares(11, 7 * SCALE);
    // the weighted-average invariant holds after any buy sequence
    assert_eq!(
        position.cost_basis,
        position.shares as i64 * position.average_price
    );
}

#[test]
fn test_oversell_leaves_position_unchanged() {
    let mut position = Position::new("AAPL".to_string(), 10, 100 * SCALE);
    let before = position.clone();
    let result = position.remove_shares(11, 100 * SCALE);
    assert!(result.is_err());
    assert_eq!(position, before);
}

#[test]
fn test_portfolio_operations() {
    let mut portfolio = Portfolio::new("strategy-123".to_string(), 10_000 * SCALE);

    let trade = buy_trade(10, 100 * SCALE, 5 * SCALE);
    portfolio.execute_trade(trade).unwrap();
    // 10000 - 1000 - 5
    assert_eq!(portfolio.current_capital, 8_995 * SCALE);
    assert_eq!(portfolio.positions.len(), 1);
    assert_eq!(portfolio.positions[0].shares, 10);
    assert_eq!(portfolio.positions[0].average_price, 100 * SCALE);
    assert_eq!(portfolio.positions[0].cost_basis, 1_000 * SCALE);

    let prices = vec![("AAPL".to_string(), 110 * SCALE)];
    portfolio.update_position_prices(&prices);

    // 8995 + 1100
    assert_eq!(portfolio.total_value(), (10_095 * SCALE) as i128);
    assert_eq!(portfolio.total_unrealized_pnl(), (100 * SCALE) as i128);
}

#[test]
fn test_insufficient_capital_rejected_atomically() {
    let mut portfolio = Portfolio::new("strategy-123".to_string(), 500 * SCALE);
    let before = portfolio.clone();
    let trade = buy_trade(10, 100 * SCALE, 5 * SCALE);
    let result = portfolio.execute_trade(trade);
    assert!(result.is_err());
    assert_eq!(portfolio.current_capital, before.current_capital);
    assert_eq!(portfolio.positions, before.positions);
    assert_eq!(portfolio.trade_history, before.trade_history);
}

#[test]
fn test_oversell_rejected_atomically() {
    let mut portfolio = Portfolio::new("strategy-123".to_string(), 10_000 * SCALE);
    portfolio.execute_trade(buy_trade(10, 100 * SCALE, 0)).unwrap();
    let before = portfolio.clone();
    let result = portfolio.execute_trade(sell_trade(11, 100 * SCALE, 0));
    assert!(result.is_err());
    assert_eq!(portfolio.current_capital, before.current_capital);
    assert_eq!(portfolio.positions, before.positions);
    assert_eq!(portfolio.trade_history, before.trade_history);
}

#[test]
fn test_sell_realizes_profit_and_closes_position() {
    let mut portfolio = Portfolio::new("strategy-123".to_string(), 10_000 * SCALE);
    portfolio.execute_trade(buy_trade(10, 100 * SCALE, 0)).unwrap();
    portfolio.execute_trade(sell_trade(10, 110 * SCALE, 0)).unwrap();
    // the closed position is removed entirely
    assert_eq!(portfolio.positions.len(), 0);
    assert_eq!(portfolio.current_capital, 10_100 * SCALE);
    let last = portfolio.trade_history.last().unwrap();
    assert_eq!(last.realized_pnl, Some(100 * SCALE));
}

#[test]
fn test_sell_unknown_symbol_fails() {
    let mut portfolio = Portfolio::new("strategy-123".to_string(), 10_000 * SCALE);
    let result = portfolio.execute_trade(sell_trade(1, 100 * SCALE, 0));
    assert!(result.is_err());
}

#[test]
fn test_hold_is_recorded_only() {
    let mut portfolio = Portfolio::new("strategy-123".to_string(), 10_000 * SCALE);
    let hold = Trade::new(
        "strategy-123".to_string(),
        "AAPL".to_string(),
        Action::Hold,
        0,
        0,
        "Hold".to_string(),
        0,
    );
    portfolio.execute_trade(hold).unwrap();
    assert_eq!(portfolio.current_capital, 10_000 * SCALE);
    assert_eq!(portfolio.positions.len(), 0);
    assert_eq!(portfolio.trade_history.len(), 1);
}

#[test]
fn test_trade_net_value() {
    let trade = buy_trade(10, 100 * SCALE, 5 * SCALE);
    assert_eq!(trade.net_value(), -(1_005 * SCALE));
    assert_eq!(trade.trade_value, 1_000 * SCALE);
    assert_eq!(trade.id.len(), 36);
    let sell = sell_trade(10, 100 * SCALE, 5 * SCALE);
    assert_eq!(sell.net_value(), 995 * SCALE);
}

#[test]
fn test_sharpe_ratio_cases() {
    let mut metrics = PerformanceMetrics::new("strategy-123".to_string(), 10_000 * SCALE);

    metrics.calculate_sharpe_ratio(&vec![SCALE], 0);
    assert_eq!(metrics.sharpe_ratio, None);

    // constant observations: zero deviation, no ratio
    metrics.calculate_sharpe_ratio(&vec![SCALE, SCALE, SCALE], 0);
    assert_eq!(metrics.sharpe_ratio, None);

    // mean 2, sample deviation 1 (in whole units): ratio is 2
    metrics.calculate_sharpe_ratio(&vec![SCALE, 2 * SCALE, 3 * SCALE], 0);
    assert_eq!(metrics.sharpe_ratio, Some(2 * SCALE));
}

#[test]
fn test_update_drawdown_never_decreases() {
    let mut metrics = PerformanceMetrics::new("strategy-123".to_string(), 10_000 * SCALE);
    metrics.update_drawdown(9_000 * SCALE, 10_000 * SCALE);
    assert_eq!(metrics.max_drawdown, 1_000 * SCALE);
    assert_eq!(metrics.max_drawdown_percent, 10 * SCALE as i128);
    metrics.update_drawdown(9_900 * SCALE, 10_000 * SCALE);
    assert_eq!(metrics.max_drawdown, 1_000 * SCALE);
    assert_eq!(metrics.max_drawdown_percent, 10 * SCALE as i128);
    metrics.update_drawdown(8_000 * SCALE, 10_000 * SCALE);
    assert_eq!(metrics.max_drawdown, 2_000 * SCALE);
}

#[test]
fn test_create_snapshot() {
    let mut portfolio = Portfolio::new("strategy-123".to_string(), 10_000 * SCALE);
    portfolio.execute_trade(buy_trade(10, 100 * SCALE, 0)).unwrap();
    portfolio.create_snapshot();
    assert_eq!(portfolio.performance_snapshots.len(), 1);
    let snap = &portfolio.performance_snapshots[0];
    assert_eq!(snap.cash_balance, 9_000 * SCALE);
    assert_eq!(snap.positions_value, (1_000 * SCALE) as i128);
    assert_eq!(snap.total_value, (10_000 * SCALE) as i128);
    assert_eq!(snap.total_return, 0);
}

#[test]
fn test_position_empty() {
    let position = Position::empty("AAPL".to_string());
    assert!(position.is_empty());
    assert_eq!(position.cost_basis, 0);
}
