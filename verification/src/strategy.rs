//! Strategies, trading signals and the signal engine.
//!
//! A strategy is a closed tagged variant (price-drop, moving-average
//! crossover, RSI) over one symbol.  The engine turns a quote plus a
//! historical close series into a typed buy/sell/hold decision with a
//! confidence level and numeric telemetry.

use vstd::prelude::*;

verus! {

use crate::amount::{lemma_sum_range_bound, lemma_sum_range_snoc, sum_range, PRICE_MAX, SCALE};
use crate::data::{closes_of, closes_ok, pct_fp, pct_of, MarketData, PricePoint};
use crate::error::{StrategyError, TradingPlatformError};
use crate::runtime::{new_id, now_seconds};

/// A trade direction decision.
#[derive(Debug, Clone, Copy, PartialEq, Eq, Structural)]
pub enum Action {
    Buy,
    Sell,
    Hold,
}

/// Risk classification derived from a signal's confidence.
#[derive(Debug, Clone, Copy, PartialEq, Eq, Structural)]
pub enum RiskLevel {
    Low,
    Medium,
    High,
}

/// The rule variant of a strategy.  `threshold`, `oversold` and
/// `overbought` are fixed-point percent values in units.
#[derive(Debug, Clone, Copy, PartialEq, Eq, Structural)]
pub enum StrategyType {
    PriceDrop { threshold: i64 },
    MovingAverage { short_period: usize, long_period: usize },
    RSI { oversold: i64, overbought: i64 },
}

/// One numeric strategy parameter.
#[derive(Debug, Clone, Copy, PartialEq, Eq, Structural)]
pub enum ParamValue {
    /// A window length or other whole count.
    Int(u64),
    /// A fixed-point amount or percent, in units.
    Amount(i64),
}

/// The parameter mirror of a strategy: its symbol plus a keyed list of
/// the numbers that configure the variant.
#[derive(Debug, Clone, PartialEq)]
pub struct StrategyParameters {
    pub symbol: String,
    pub additional_params: Vec<(String, ParamValue)>,
}

/// One trading rule over one symbol.
#[derive(Debug, Clone, PartialEq)]
pub struct Strategy {
    pub id: String,
    pub strategy_type: StrategyType,
    pub symbol: String,
    pub parameters: StrategyParameters,
    /// Unix seconds.
    pub created_at: i64,
    pub is_active: bool,
}

/// Numeric telemetry attached to a signal.
#[derive(Debug, Clone, PartialEq)]
pub struct SignalMetadata {
    pub strategy_data: Vec<(String, i128)>,
    pub market_conditions: Option<String>,
    pub risk_level: RiskLevel,
}

/// A typed trading decision for one strategy evaluation.
#[derive(Debug, Clone, PartialEq)]
pub struct TradingSignal {
    pub strategy_id: String,
    pub symbol: String,
    pub action: Action,
    /// Decision price, in units.
    pub price: i64,
    /// Unix seconds.
    pub timestamp: i64,
    pub explanation: String,
    /// Confidence in `[0, SCALE]` units (one unit grid of `[0, 1]`).
    pub confidence: i64,
    pub metadata: SignalMetadata,
}

/// Risk classification rule: confidence at least 0.8 is low risk, at
/// least 0.5 medium, anything below high.
pub open spec fn risk_of(confidence: int) -> RiskLevel {
    if confidence >= 8 * SCALE / 10 {
        RiskLevel::Low
    } else if confidence >= 5 * SCALE / 10 {
        RiskLevel::Medium
    } else {
        RiskLevel::High
    }
}

impl TradingSignal {
    /// Assembles a signal; the risk level is derived from the
    /// confidence by [`risk_of`], the timestamp comes from the clock.
    pub fn new(
        strategy_id: String,
        symbol: String,
        action: Action,
        price: i64,
        explanation: String,
        confidence: i64,
        strategy_data: Vec<(String, i128)>,
    ) -> (r: TradingSignal)
        ensures
            r.strategy_id == strategy_id,
            r.symbol == symbol,
            r.action == action,
            r.price == price,
            r.explanation == explanation,
            r.confidence == confidence,
            r.metadata.strategy_data == strategy_data,
            r.metadata.market_conditions is None,
            r.metadata.risk_level == risk_of(confidence as int),
    {
        let risk_level = if confidence >= 8 * SCALE / 10 {
            RiskLevel::Low
        } else if confidence >= 5 * SCALE / 10 {
            RiskLevel::Medium
        } else {
            RiskLevel::High
        };
        TradingSignal {
            strategy_id,
            symbol,
            action,
            price,
            timestamp: now_seconds(),
            explanation,
            confidence,
            metadata: SignalMetadata { strategy_data, market_conditions: None, risk_level },
        }
    }

    /// Attaches a market-conditions note.
    pub fn with_market_conditions(self, conditions: String) -> (r: TradingSignal)
        ensures
            r.metadata.market_conditions == Some(conditions),
            r.metadata.strategy_data == self.metadata.strategy_data,
            r.metadata.risk_level == self.metadata.risk_level,
            r.strategy_id == self.strategy_id,
            r.symbol == self.symbol,
            r.action == self.action,
            r.price == self.price,
            r.timestamp == self.timestamp,
            r.explanation == self.explanation,
            r.confidence == self.confidence,
    {
        TradingSignal {
            metadata: SignalMetadata {
                market_conditions: Some(conditions),
                ..self.metadata
            },
            ..self
        }
    }
}

impl StrategyParameters {
    /// Builds the parameter mirror of a variant: exactly the numbers
    /// that configure it, under their conventional names.
    pub fn from_strategy_type(strategy_type: &StrategyType, symbol: &str) -> (r: Result<
        StrategyParameters,
        TradingPlatformError,
    >)
        ensures
            r matches Ok(p) && p.symbol@ == symbol@,
            r matches Ok(p) ==> match *strategy_type {
                StrategyType::PriceDrop { threshold } => {
                    &&& p.additional_params@.len() == 1
                    &&& p.additional_params@[0].0@ == "threshold"@
                    &&& p.additional_params@[0].1 == ParamValue::Amount(threshold)
                },
                StrategyType::MovingAverage { short_period, long_period } => {
                    &&& p.additional_params@.len() == 2
                    &&& p.additional_params@[0].0@ == "short_period"@
                    &&& p.additional_params@[0].1 == ParamValue::Int(short_period as u64)
                    &&& p.additional_params@[1].0@ == "long_period"@
                    &&& p.additional_params@[1].1 == ParamValue::Int(long_period as u64)
                },
                StrategyType::RSI { oversold, overbought } => {
                    &&& p.additional_params@.len() == 2
                    &&& p.additional_params@[0].0@ == "oversold"@
                    &&& p.additional_params@[0].1 == ParamValue::Amount(oversold)
                    &&& p.additional_params@[1].0@ == "overbought"@
                    &&& p.additional_params@[1].1 == ParamValue::Amount(overbought)
                },
            },
    {
        let mut additional_params: Vec<(String, ParamValue)> = Vec::new();
        match strategy_type {
            StrategyType::PriceDrop { threshold } => {
                additional_params.push(
                    (String::from_str("threshold"), ParamValue::Amount(*threshold)),
                );
            },
            StrategyType::MovingAverage { short_period, long_period } => {
                additional_params.push(
                    (String::from_str("short_period"), ParamValue::Int(*short_period as u64)),
                );
                additional_params.push(
                    (String::from_str("long_period"), ParamValue::Int(*long_period as u64)),
                );
            },
            StrategyType::RSI { oversold, overbought } => {
                additional_params.push(
                    (String::from_str("oversold"), ParamValue::Amount(*oversold)),
                );
                additional_params.push(
                    (String::from_str("overbought"), ParamValue::Amount(*overbought)),
                );
            },
        }
        Ok(StrategyParameters { symbol: symbol.to_owned(), additional_params })
    }
}

impl Default for StrategyParameters {
    /// The default parameter set names one well-known symbol and holds
    /// no numbers.
    fn default() -> (r: StrategyParameters)
        ensures
            r.symbol@ == "AAPL"@,
            r.additional_params@.len() == 0,
    {
        StrategyParameters {
            symbol: String::from_str("AAPL"),
            additional_params: Vec::new(),
        }
    }
}

/// The validation rule for a strategy: symbol of one to ten
/// characters; a price-drop threshold in (0, 100]; crossover windows
/// with 0 < short < long <= 200; RSI levels each in (0, 100) with
/// oversold below overbought.  Percent parameters are in units.
pub open spec fn strategy_valid(s: Strategy) -> bool {
    &&& 1 <= s.symbol@.len() <= 10
    &&& match s.strategy_type {
        StrategyType::PriceDrop { threshold } => 0 < threshold <= 100 * SCALE,
        StrategyType::MovingAverage { short_period, long_period } => {
            &&& short_period > 0
            &&& long_period > 0
            &&& short_period < long_period
            &&& long_period <= 200
        },
        StrategyType::RSI { oversold, overbought } => {
            &&& 0 < oversold < 100 * SCALE
            &&& 0 < overbought < 100 * SCALE
            &&& oversold < overbought
        },
    }
}

impl Strategy {
    /// Builds an active strategy with a fresh identifier and the
    /// parameter mirror of the variant.  Validation is a separate
    /// step, as it is for updates.
    pub fn new(strategy_type: StrategyType, symbol: String) -> (r: Result<
        Strategy,
        TradingPlatformError,
    >)
        ensures
            r matches Ok(s) ==> {
                &&& s.strategy_type == strategy_type
                &&& s.symbol == symbol
                &&& s.parameters.symbol@ == symbol@
                &&& s.is_active
                &&& s.id@.len() == 36
            },
            r is Ok,
    {
        let parameters = match StrategyParameters::from_strategy_type(&strategy_type, symbol.as_str()) {
            Ok(p) => p,
            Err(e) => {
                return Err(e);
            },
        };
        Ok(Strategy {
            id: new_id(),
            strategy_type,
            symbol,
            parameters,
            created_at: now_seconds(),
            is_active: true,
        })
    }

    /// Accepts exactly the strategies satisfying [`strategy_valid`];
    /// every rejection is an `InvalidParameters` error.
    pub fn validate(&self) -> (r: Result<(), TradingPlatformError>)
        ensures
            r is Ok <==> strategy_valid(*self),
            r matches Err(e) ==> e matches TradingPlatformError::Strategy(
                StrategyError::InvalidParameters(_),
            ),
    {
        let sym_len = self.symbol.as_str().unicode_len();
        if sym_len == 0 || sym_len > 10 {
            return Err(TradingPlatformError::Strategy(StrategyError::invalid_parameters(
                "Symbol must be 1-10 characters",
            )));
        }
        match &self.strategy_type {
            StrategyType::PriceDrop { threshold } => {
                if *threshold <= 0 || *threshold > 100 * SCALE {
                    return Err(TradingPlatformError::Strategy(StrategyError::invalid_parameters(
                        "Price drop threshold must be between 0 and 100",
                    )));
                }
            },
            StrategyType::MovingAverage { short_period, long_period } => {
                if *short_period == 0 || *long_period == 0 {
                    return Err(TradingPlatformError::Strategy(StrategyError::invalid_parameters(
                        "Moving average periods must be greater than 0",
                    )));
                }
                if *short_period >= *long_period {
                    return Err(TradingPlatformError::Strategy(StrategyError::invalid_parameters(
                        "Short period must be less than long period",
                    )));
                }
                if *long_period > 200 {
                    return Err(TradingPlatformError::Strategy(StrategyError::invalid_parameters(
                        "Long period should not exceed 200",
                    )));
                }
            },
            StrategyType::RSI { oversold, overbought } => {
                if *oversold <= 0 || *oversold >= 100 * SCALE {
                    return Err(TradingPlatformError::Strategy(StrategyError::invalid_parameters(
                        "RSI oversold level must be between 0 and 100",
                    )));
                }
                if *overbought <= 0 || *overbought >= 100 * SCALE {
                    return Err(TradingPlatformError::Strategy(StrategyError::invalid_parameters(
                        "RSI overbought level must be between 0 and 100",
                    )));
                }
                if *oversold >= *overbought {
                    return Err(TradingPlatformError::Strategy(StrategyError::invalid_parameters(
                        "RSI oversold level must be less than overbought level",
                    )));
                }
            },
        }
        Ok(())
    }

    /// Clears the active flag.
    pub fn deactivate(&mut self)
        ensures
            !final(self).is_active,
            final(self).id == old(self).id,
            final(self).strategy_type == old(self).strategy_type,
            final(self).symbol == old(self).symbol,
            final(self).parameters == old(self).parameters,
            final(self).created_at == old(self).created_at,
    {
        self.is_active = false;
    }

    /// Sets the active flag.
    pub fn activate(&mut self)
        ensures
            final(self).is_active,
            final(self).id == old(self).id,
            final(self).strategy_type == old(self).strategy_type,
            final(self).symbol == old(self).symbol,
            final(self).parameters == old(self).parameters,
            final(self).created_at == old(self).created_at,
    {
        self.is_active = true;
    }
}

/// The price-drop decision: percentage change of `current` against
/// `reference`, compared to the threshold (all fixed-point).  A fall
/// of at least the threshold buys, a rise of at least the threshold
/// sells, anything in between holds.
pub open spec fn price_drop_action(reference: int, current: int, threshold: int) -> Action {
    if 100 * SCALE * (current - reference) <= -(threshold * reference) {
        Action::Buy
    } else if 100 * SCALE * (current - reference) >= threshold * reference {
        Action::Sell
    } else {
        Action::Hold
    }
}

/// Sum of the last `w` closes of a series.
pub open spec fn sma_num(cs: Seq<i64>, w: int) -> int {
    sum_range(cs, cs.len() - w, cs.len() as int)
}

/// Sum of the last `w` closes with the most recent point excluded.
pub open spec fn prev_sma_num(cs: Seq<i64>, w: int) -> int {
    if cs.len() > w {
        sum_range(cs, cs.len() - 1 - w, cs.len() - 1)
    } else {
        sma_num(cs, w)
    }
}

/// The moving-average crossover decision over the close series, with
/// window lengths `sp < lp`.  Averages are compared as exact
/// rationals by cross-multiplying the window sums.
pub open spec fn ma_action(cs: Seq<i64>, sp: int, lp: int) -> Action {
    let s = sma_num(cs, sp);
    let l = sma_num(cs, lp);
    let ps = prev_sma_num(cs, sp);
    let pl = prev_sma_num(cs, lp);
    if ps * lp <= pl * sp && s * lp > l * sp {
        Action::Buy
    } else if ps * lp >= pl * sp && s * lp < l * sp {
        Action::Sell
    } else {
        Action::Hold
    }
}

/// Sum of the positive close-to-close moves `cs[k] - cs[k-1]` for
/// `k` in `[i, j)`.
pub open spec fn gains_in(cs: Seq<i64>, i: int, j: int) -> int
    decreases j - i,
{
    if i >= j {
        0
    } else {
        (if cs[i] > cs[i - 1] {
            cs[i] - cs[i - 1]
        } else {
            0int
        }) + gains_in(cs, i + 1, j)
    }
}

/// Sum of the magnitudes of the negative close-to-close moves for
/// `k` in `[i, j)`.
pub open spec fn losses_in(cs: Seq<i64>, i: int, j: int) -> int
    decreases j - i,
{
    if i >= j {
        0
    } else {
        (if cs[i] < cs[i - 1] {
            cs[i - 1] - cs[i]
        } else {
            0int
        }) + losses_in(cs, i + 1, j)
    }
}

/// Extending the gain window by one step on the right adds that
/// step's gain; likewise for losses.
pub proof fn lemma_gain_loss_snoc(cs: Seq<i64>, i: int, j: int)
    requires
        i <= j,
    ensures
        gains_in(cs, i, j + 1) == gains_in(cs, i, j) + (if cs[j] > cs[j - 1] {
            cs[j] - cs[j - 1]
        } else {
            0int
        }),
        losses_in(cs, i, j + 1) == losses_in(cs, i, j) + (if cs[j] < cs[j - 1] {
            cs[j - 1] - cs[j]
        } else {
            0int
        }),
    decreases j - i,
{
    if i < j {
        lemma_gain_loss_snoc(cs, i + 1, j);
    } else {
        assert(gains_in(cs, j + 1, j + 1) == 0);
        assert(losses_in(cs, j + 1, j + 1) == 0);
        assert(gains_in(cs, j, j) == 0);
        assert(losses_in(cs, j, j) == 0);
    }
}

/// Gains and losses over a window are non-negative and at most the
/// window length times the price bound, for a series of in-range
/// closes.
pub proof fn lemma_gain_loss_bounds(cs: Seq<i64>, i: int, j: int)
    requires
        i <= j,
        1 <= i,
        j <= cs.len(),
        forall|k: int| 0 <= k < cs.len() ==> 0 <= #[trigger] cs[k] <= PRICE_MAX,
    ensures
        0 <= gains_in(cs, i, j) <= (j - i) * PRICE_MAX,
        0 <= losses_in(cs, i, j) <= (j - i) * PRICE_MAX,
    decreases j - i,
{
    if i < j {
        lemma_gain_loss_bounds(cs, i + 1, j);
        assert((j - i) * PRICE_MAX == (j - i - 1) * PRICE_MAX + PRICE_MAX) by (nonlinear_arith);
    } else {
        assert((j - i) * PRICE_MAX == 0) by (nonlinear_arith)
            requires
                j == i,
        ;
    }
}

/// The RSI of a close series over a trailing window of `period`
/// steps, in fixed-point points: `100 * G / (G + L)` where `G` and
/// `L` are the summed gains and losses; 100 when there are no losses.
pub open spec fn rsi_points(cs: Seq<i64>, period: int) -> int {
    let g = gains_in(cs, cs.len() - period, cs.len() as int);
    let l = losses_in(cs, cs.len() - period, cs.len() as int);
    if l == 0 {
        100 * SCALE
    } else {
        (100 * SCALE * g) / (g + l)
    }
}

/// A window whose close-to-close moves are all non-negative sums to
/// zero losses.
pub proof fn lemma_no_down_moves_no_losses(cs: Seq<i64>, i: int, j: int)
    requires
        forall|k: int| i <= k < j ==> #[trigger] cs[k] >= cs[k - 1],
    ensures
        losses_in(cs, i, j) == 0,
    decreases j - i,
{
    if i < j {
        lemma_no_down_moves_no_losses(cs, i + 1, j);
    }
}

/// When every close-to-close move in the trailing window is
/// non-negative, the RSI is exactly one hundred.
pub proof fn lemma_rsi_of_no_losses(cs: Seq<i64>, period: int)
    requires
        forall|k: int|
            cs.len() - period <= k < cs.len() ==> #[trigger] cs[k] >= cs[k - 1],
    ensures
        rsi_points(cs, period) == 100 * SCALE,
{
    lemma_no_down_moves_no_losses(cs, cs.len() - period, cs.len() as int);
}

/// The RSI decision: at or below the oversold level buys, at or
/// above the overbought level sells, anything in between holds.
pub open spec fn rsi_action(rsi: int, oversold: int, overbought: int) -> Action {
    if rsi <= oversold {
        Action::Buy
    } else if rsi >= overbought {
        Action::Sell
    } else {
        Action::Hold
    }
}

/// Evaluates one strategy against market data.
pub struct StrategyEngine {
    pub strategy: Strategy,
}

impl StrategyEngine {
    /// Accepts exactly the valid strategies (see [`strategy_valid`]).
    pub fn new(strategy: Strategy) -> (r: Result<StrategyEngine, TradingPlatformError>)
        ensures
            r is Ok <==> strategy_valid(strategy),
            r matches Ok(e) ==> e.strategy == strategy,
            r matches Err(e) ==> e matches TradingPlatformError::Strategy(
                StrategyError::InvalidParameters(_),
            ),
    {
        let engine = StrategyEngine { strategy };
        match engine.validate_parameters() {
            Ok(_) => Ok(engine),
            Err(e) => Err(e),
        }
    }

    /// Validates the underlying strategy's parameters.
    pub fn validate_parameters(&self) -> (r: Result<(), TradingPlatformError>)
        ensures
            r is Ok <==> strategy_valid(self.strategy),
            r matches Err(e) ==> e matches TradingPlatformError::Strategy(
                StrategyError::InvalidParameters(_),
            ),
    {
        self.strategy.validate()
    }

    /// The strategy being evaluated.
    pub fn get_strategy(&self) -> (r: &Strategy)
        ensures
            *r == self.strategy,
    {
        &self.strategy
    }

    /// Unweighted mean of the last `period` closes, rounded down;
    /// insufficient data when the series is shorter than the window.
    pub fn calculate_simple_moving_average(&self, data: &Vec<PricePoint>, period: usize) -> (r:
        Result<i64, TradingPlatformError>)
        requires
            closes_ok(data@),
            period >= 1,
        ensures
            r is Ok <==> period <= data@.len(),
            r matches Ok(v) ==> v == sma_num(closes_of(data@), period as int) / period as int,
            r matches Err(e) ==> e == TradingPlatformError::Strategy(
                StrategyError::InsufficientData,
            ),
    {
        if data.len() < period {
            return Err(TradingPlatformError::Strategy(StrategyError::InsufficientData));
        }
        let sum = sum_of_closes(data, data.len() - period, data.len());
        proof {
            assert(0 <= sum as int / period as int <= PRICE_MAX) by (nonlinear_arith)
                requires
                    0 <= sum as int <= period as int * PRICE_MAX,
                    period as int >= 1,
            ;
        }
        Ok(((sum as u128) / (period as u128)) as i64)
    }

    /// The trailing RSI over `period` steps of the close series, in
    /// fixed-point points.  The result always lies in `[0, 100]`, and
    /// is exactly 100 when the window holds no losses.
    pub fn calculate_rsi(&self, data: &Vec<PricePoint>, period: usize) -> (r: Result<
        i64,
        TradingPlatformError,
    >)
        requires
            closes_ok(data@),
            period >= 1,
        ensures
            r is Ok <==> period + 1 <= data@.len(),
            r matches Ok(v) ==> {
                let cs = closes_of(data@);
                &&& v == rsi_points(cs, period as int)
                &&& 0 <= v <= 100 * SCALE
                &&& losses_in(cs, cs.len() - period, cs.len() as int) == 0 ==> v == 100 * SCALE
            },
            r matches Err(e) ==> e == TradingPlatformError::Strategy(
                StrategyError::InsufficientData,
            ),
    {
        let n = data.len();
        if n < period || n - period < 1 {
            return Err(TradingPlatformError::Strategy(StrategyError::InsufficientData));
        }
        let ghost cs = closes_of(data@);
        let start = n - period;
        let mut gains: i128 = 0;
        let mut losses: i128 = 0;
        let mut k: usize = start;
        proof {
            lemma_gain_loss_bounds(cs, start as int, start as int);
        }
        while k < n
            invariant
                start <= k <= n,
                1 <= start,
                n == data@.len(),
                cs == closes_of(data@),
                closes_ok(data@),
                gains == gains_in(cs, start as int, k as int),
                losses == losses_in(cs, start as int, k as int),
                0 <= gains <= (k - start) * PRICE_MAX,
                0 <= losses <= (k - start) * PRICE_MAX,
            decreases n - k,
        {
            proof {
                lemma_gain_loss_snoc(cs, start as int, k as int);
                assert((k + 1 - start) * PRICE_MAX == (k - start) * PRICE_MAX + PRICE_MAX) by (
                nonlinear_arith);
            }
            let current = data[k].close;
            let previous = data[k - 1].close;
            if current > previous {
                gains = gains + (current - previous) as i128;
            } else if current < previous {
                losses = losses + (previous - current) as i128;
            }
            k = k + 1;
        }
        if losses == 0 {
            return Ok(100 * SCALE);
        }
        let total: u128 = (gains + losses) as u128;
        let scaled: u128 = 1_000_000u128 * (gains as u128);
        let rsi: u128 = scaled / total;
        proof {
            assert(scaled as int == 100 * SCALE * gains as int);
            assert(0 <= scaled as int / total as int <= 100 * SCALE) by (nonlinear_arith)
                requires
                    total as int == gains as int + losses as int,
                    0 <= gains as int,
                    0 < losses as int,
                    scaled as int == 100 * SCALE * gains as int,
                    SCALE == 10_000i64,
            ;
        }
        Ok(rsi as i64)
    }
}

/// Fields every signal of an evaluation shares: the strategy's
/// identity, the quote's price, and a risk level derived from the
/// confidence.
pub open spec fn signal_core_ok(sig: TradingSignal, s: Strategy, md: MarketData) -> bool {
    &&& sig.strategy_id == s.id
    &&& sig.symbol == s.symbol
    &&& sig.price == md.price
    &&& sig.metadata.risk_level == risk_of(sig.confidence as int)
    &&& sig.metadata.market_conditions is None
}

/// The signal a price-drop evaluation must produce: the decision of
/// [`price_drop_action`] against the last historical close, its
/// conventional confidence, and telemetry naming the reference price,
/// the current price, the percentage change and the threshold.
pub open spec fn price_drop_signal_ok(
    sig: TradingSignal,
    price: i64,
    cs: Seq<i64>,
    threshold: i64,
) -> bool {
    let reference = cs.last();
    let act = price_drop_action(reference as int, price as int, threshold as int);
    &&& sig.action == act
    &&& sig.confidence == (match act {
        Action::Buy => 8 * SCALE / 10,
        Action::Sell => 7 * SCALE / 10,
        Action::Hold => 6 * SCALE / 10,
    })
    &&& sig.explanation@ == (match act {
        Action::Buy => "Price dropped beyond the threshold; potential buying opportunity"@,
        Action::Sell => "Price increased beyond the threshold; consider taking profits"@,
        Action::Hold => "Price change is within the threshold; no action required"@,
    })
    &&& sig.metadata.strategy_data@.len() == 4
    &&& sig.metadata.strategy_data@[0].0@ == "previous_close"@
    &&& sig.metadata.strategy_data@[0].1 == reference as int
    &&& sig.metadata.strategy_data@[1].0@ == "current_price"@
    &&& sig.metadata.strategy_data@[1].1 == price as int
    &&& sig.metadata.strategy_data@[2].0@ == "price_change_percent"@
    &&& sig.metadata.strategy_data@[2].1 == pct_of(price - reference, reference as int)
    &&& sig.metadata.strategy_data@[3].0@ == "threshold"@
    &&& sig.metadata.strategy_data@[3].1 == threshold as int
}

/// The signal a crossover evaluation must produce: the decision of
/// [`ma_action`], its conventional confidence, and telemetry naming
/// both averages, both previous averages and the current price.
pub open spec fn ma_signal_ok(
    sig: TradingSignal,
    price: i64,
    cs: Seq<i64>,
    sp: int,
    lp: int,
) -> bool {
    let act = ma_action(cs, sp, lp);
    &&& sig.action == act
    &&& sig.confidence == (match act {
        Action::Buy => 85 * SCALE / 100,
        Action::Sell => 85 * SCALE / 100,
        Action::Hold => 6 * SCALE / 10,
    })
    &&& sig.explanation@ == (match act {
        Action::Buy => "Bullish crossover detected; this suggests upward momentum"@,
        Action::Sell => "Bearish crossover detected; this suggests downward momentum"@,
        Action::Hold => if sma_num(cs, sp) * lp > sma_num(cs, lp) * sp {
            "No crossover detected; current trend: bullish"@
        } else {
            "No crossover detected; current trend: bearish"@
        },
    })
    &&& sig.metadata.strategy_data@.len() == 5
    &&& sig.metadata.strategy_data@[0].0@ == "short_ma"@
    &&& sig.metadata.strategy_data@[0].1 == sma_num(cs, sp) / sp
    &&& sig.metadata.strategy_data@[1].0@ == "long_ma"@
    &&& sig.metadata.strategy_data@[1].1 == sma_num(cs, lp) / lp
    &&& sig.metadata.strategy_data@[2].0@ == "prev_short_ma"@
    &&& sig.metadata.strategy_data@[2].1 == prev_sma_num(cs, sp) / sp
    &&& sig.metadata.strategy_data@[3].0@ == "prev_long_ma"@
    &&& sig.metadata.strategy_data@[3].1 == prev_sma_num(cs, lp) / lp
    &&& sig.metadata.strategy_data@[4].0@ == "current_price"@
    &&& sig.metadata.strategy_data@[4].1 == price as int
}

/// The signal an RSI evaluation must produce: the decision of
/// [`rsi_action`] on the 14-step RSI, its conventional confidence,
/// and telemetry naming the RSI, both levels and the current price.
pub open spec fn rsi_signal_ok(
    sig: TradingSignal,
    price: i64,
    cs: Seq<i64>,
    oversold: i64,
    overbought: i64,
) -> bool {
    let rsi = rsi_points(cs, 14);
    let act = rsi_action(rsi, oversold as int, overbought as int);
    &&& sig.action == act
    &&& sig.confidence == (match act {
        Action::Buy => 8 * SCALE / 10,
        Action::Sell => 8 * SCALE / 10,
        Action::Hold => 6 * SCALE / 10,
    })
    &&& sig.explanation@ == (match act {
        Action::Buy => "RSI indicates oversold conditions; potential buying opportunity"@,
        Action::Sell => "RSI indicates overbought conditions; consider taking profits"@,
        Action::Hold => "RSI is in neutral zone; no action required"@,
    })
    &&& sig.metadata.strategy_data@.len() == 4
    &&& sig.metadata.strategy_data@[0].0@ == "rsi"@
    &&& sig.metadata.strategy_data@[0].1 == rsi
    &&& sig.metadata.strategy_data@[1].0@ == "oversold_level"@
    &&& sig.metadata.strategy_data@[1].1 == oversold as int
    &&& sig.metadata.strategy_data@[2].0@ == "overbought_level"@
    &&& sig.metadata.strategy_data@[2].1 == overbought as int
    &&& sig.metadata.strategy_data@[3].0@ == "current_price"@
    &&& sig.metadata.strategy_data@[3].1 == price as int
}

impl StrategyEngine {
    /// Evaluates the strategy for one tick.  An inactive strategy
    /// holds with zero confidence; otherwise the variant's rule
    /// decides (see [`price_drop_signal_ok`], [`ma_signal_ok`] and
    /// [`rsi_signal_ok`]), and too short a history is an
    /// `InsufficientData` error: a price-drop needs one point, a
    /// crossover its long window, an RSI fifteen points.
    pub fn execute(&self, market_data: &MarketData, historical_data: &Vec<PricePoint>) -> (r:
        Result<TradingSignal, TradingPlatformError>)
        requires
            strategy_valid(self.strategy),
            crate::amount::price_ok(market_data.price as int),
            closes_ok(historical_data@),
        ensures
            !self.strategy.is_active ==> (r matches Ok(sig) && {
                &&& signal_core_ok(sig, self.strategy, *market_data)
                &&& sig.action is Hold
                &&& sig.confidence == 0
                &&& sig.explanation@ == "Strategy is inactive"@
                &&& sig.metadata.strategy_data@.len() == 0
            }),
            self.strategy.is_active ==> match self.strategy.strategy_type {
                StrategyType::PriceDrop { threshold } => {
                    &&& (r is Err <==> historical_data@.len() == 0)
                    &&& (r matches Err(e) ==> e == TradingPlatformError::Strategy(
                        StrategyError::InsufficientData,
                    ))
                    &&& (r matches Ok(sig) ==> signal_core_ok(sig, self.strategy, *market_data)
                        && price_drop_signal_ok(
                        sig,
                        market_data.price,
                        closes_of(historical_data@),
                        threshold,
                    ))
                },
                StrategyType::MovingAverage { short_period, long_period } => {
                    &&& (r is Err <==> historical_data@.len() < long_period)
                    &&& (r matches Err(e) ==> e == TradingPlatformError::Strategy(
                        StrategyError::InsufficientData,
                    ))
                    &&& (r matches Ok(sig) ==> signal_core_ok(sig, self.strategy, *market_data)
                        && ma_signal_ok(
                        sig,
                        market_data.price,
                        closes_of(historical_data@),
                        short_period as int,
                        long_period as int,
                    ))
                },
                StrategyType::RSI { oversold, overbought } => {
                    &&& (r is Err <==> historical_data@.len() < 15)
                    &&& (r matches Err(e) ==> e == TradingPlatformError::Strategy(
                        StrategyError::InsufficientData,
                    ))
                    &&& (r matches Ok(sig) ==> signal_core_ok(sig, self.strategy, *market_data)
                        && rsi_signal_ok(
                        sig,
                        market_data.price,
                        closes_of(historical_data@),
                        oversold,
                        overbought,
                    ))
                },
            },
    {
        if !self.strategy.is_active {
            return Ok(TradingSignal::new(
                self.strategy.id.clone(),
                self.strategy.symbol.clone(),
                Action::Hold,
                market_data.price,
                String::from_str("Strategy is inactive"),
                0,
                Vec::new(),
            ));
        }
        match &self.strategy.strategy_type {
            StrategyType::PriceDrop { threshold } => {
                self.execute_price_drop_strategy(market_data, historical_data, *threshold)
            },
            StrategyType::MovingAverage { short_period, long_period } => {
                self.execute_moving_average_strategy(
                    market_data,
                    historical_data,
                    *short_period,
                    *long_period,
                )
            },
            StrategyType::RSI { oversold, overbought } => {
                self.execute_rsi_strategy(market_data, historical_data, *oversold, *overbought)
            },
        }
    }

    /// Price-drop rule: compares the percentage move from the last
    /// historical close (not the quote's own previous-close field)
    /// against the threshold.
    fn execute_price_drop_strategy(
        &self,
        market_data: &MarketData,
        historical_data: &Vec<PricePoint>,
        threshold: i64,
    ) -> (r: Result<TradingSignal, TradingPlatformError>)
        requires
            crate::amount::price_ok(market_data.price as int),
            closes_ok(historical_data@),
            0 < threshold <= 100 * SCALE,
        ensures
            r is Err <==> historical_data@.len() == 0,
            r matches Err(e) ==> e == TradingPlatformError::Strategy(
                StrategyError::InsufficientData,
            ),
            r matches Ok(sig) ==> signal_core_ok(sig, self.strategy, *market_data)
                && price_drop_signal_ok(
                sig,
                market_data.price,
                closes_of(historical_data@),
                threshold,
            ),
    {
        if historical_data.len() == 0 {
            return Err(TradingPlatformError::Strategy(StrategyError::InsufficientData));
        }
        let previous_close = historical_data[historical_data.len() - 1].close;
        let current_price = market_data.price;
        let price_change_percent = pct_fp(current_price - previous_close, previous_close);
        let mut strategy_data: Vec<(String, i128)> = Vec::new();
        strategy_data.push((String::from_str("previous_close"), previous_close as i128));
        strategy_data.push((String::from_str("current_price"), current_price as i128));
        strategy_data.push((String::from_str("price_change_percent"), price_change_percent));
        strategy_data.push((String::from_str("threshold"), threshold as i128));
        let move_scaled: i128 = 1_000_000i128 * (current_price as i128 - previous_close as i128);
        proof {
            assert(0 <= previous_close <= PRICE_MAX);
            assert(0 <= threshold as i128 * previous_close as i128 <= 1_000_000_000_000_000_000)
                by (nonlinear_arith)
                requires
                    0 <= previous_close as int <= PRICE_MAX,
                    0 < threshold as int <= 100 * SCALE,
                    PRICE_MAX == 1_000_000_000_000i64,
                    SCALE == 10_000i64,
            ;
        }
        let bar: i128 = threshold as i128 * previous_close as i128;
        proof {
            assert(move_scaled == 100 * SCALE * (current_price - previous_close));
        }
        let (action, explanation, confidence) = if move_scaled <= -bar {
            (
                Action::Buy,
                String::from_str(
                    "Price dropped beyond the threshold; potential buying opportunity",
                ),
                8 * SCALE / 10,
            )
        } else if move_scaled >= bar {
            (
                Action::Sell,
                String::from_str("Price increased beyond the threshold; consider taking profits"),
                7 * SCALE / 10,
            )
        } else {
            (
                Action::Hold,
                String::from_str("Price change is within the threshold; no action required"),
                6 * SCALE / 10,
            )
        };
        Ok(TradingSignal::new(
            self.strategy.id.clone(),
            self.strategy.symbol.clone(),
            action,
            current_price,
            explanation,
            confidence,
            strategy_data,
        ))
    }

    /// Crossover rule: detects the short average crossing the long
    /// average between the previous tick and this one, comparing
    /// the averages as exact rationals.
    fn execute_moving_average_strategy(
        &self,
        market_data: &MarketData,
        historical_data: &Vec<PricePoint>,
        short_period: usize,
        long_period: usize,
    ) -> (r: Result<TradingSignal, TradingPlatformError>)
        requires
            crate::amount::price_ok(market_data.price as int),
            closes_ok(historical_data@),
            0 < short_period < long_period <= 200,
        ensures
            r is Err <==> historical_data@.len() < long_period,
            r matches Err(e) ==> e == TradingPlatformError::Strategy(
                StrategyError::InsufficientData,
            ),
            r matches Ok(sig) ==> signal_core_ok(sig, self.strategy, *market_data)
                && ma_signal_ok(
                sig,
                market_data.price,
                closes_of(historical_data@),
                short_period as int,
                long_period as int,
            ),
    {
        let n = historical_data.len();
        if n < long_period {
            return Err(TradingPlatformError::Strategy(StrategyError::InsufficientData));
        }
        let ghost cs = closes_of(historical_data@);
        let short_sum = sum_of_closes(historical_data, n - short_period, n);
        let long_sum = sum_of_closes(historical_data, n - long_period, n);
        let prev_short_sum = if n > short_period {
            sum_of_closes(historical_data, n - 1 - short_period, n - 1)
        } else {
            short_sum
        };
        let prev_long_sum = if n > long_period {
            sum_of_closes(historical_data, n - 1 - long_period, n - 1)
        } else {
            long_sum
        };
        let current_price = market_data.price;
        let short_ma = div_window(short_sum, short_period);
        let long_ma = div_window(long_sum, long_period);
        let prev_short_ma = div_window(prev_short_sum, short_period);
        let prev_long_ma = div_window(prev_long_sum, long_period);
        let mut strategy_data: Vec<(String, i128)> = Vec::new();
        strategy_data.push((String::from_str("short_ma"), short_ma));
        strategy_data.push((String::from_str("long_ma"), long_ma));
        strategy_data.push((String::from_str("prev_short_ma"), prev_short_ma));
        strategy_data.push((String::from_str("prev_long_ma"), prev_long_ma));
        strategy_data.push((String::from_str("current_price"), current_price as i128));
        proof {
            assert(0 <= short_sum * (long_period as int) <= 8_000_000_000_000_000_000 && 0
                <= prev_short_sum * (long_period as int) <= 8_000_000_000_000_000_000) by (
            nonlinear_arith)
                requires
                    0 <= short_sum <= short_period as int * PRICE_MAX,
                    0 <= prev_short_sum <= short_period as int * PRICE_MAX,
                    0 < short_period as int <= 200,
                    0 < long_period as int <= 200,
                    PRICE_MAX == 1_000_000_000_000i64,
            ;
            assert(0 <= long_sum * (short_period as int) <= 8_000_000_000_000_000_000 && 0
                <= prev_long_sum * (short_period as int) <= 8_000_000_000_000_000_000) by (
            nonlinear_arith)
                requires
                    0 <= long_sum <= long_period as int * PRICE_MAX,
                    0 <= prev_long_sum <= long_period as int * PRICE_MAX,
                    0 < short_period as int <= 200,
                    0 < long_period as int <= 200,
                    PRICE_MAX == 1_000_000_000_000i64,
            ;
        }
        let sl: i128 = short_sum * long_period as i128;
        let ls: i128 = long_sum * short_period as i128;
        let psl: i128 = prev_short_sum * long_period as i128;
        let pls: i128 = prev_long_sum * short_period as i128;
        let (action, explanation, confidence) = if psl <= pls && sl > ls {
            (
                Action::Buy,
                String::from_str("Bullish crossover detected; this suggests upward momentum"),
                85 * SCALE / 100,
            )
        } else if psl >= pls && sl < ls {
            (
                Action::Sell,
                String::from_str("Bearish crossover detected; this suggests downward momentum"),
                85 * SCALE / 100,
            )
        } else {
            let explanation = if sl > ls {
                String::from_str("No crossover detected; current trend: bullish")
            } else {
                String::from_str("No crossover detected; current trend: bearish")
            };
            (Action::Hold, explanation, 6 * SCALE / 10)
        };
        Ok(TradingSignal::new(
            self.strategy.id.clone(),
            self.strategy.symbol.clone(),
            action,
            current_price,
            explanation,
            confidence,
            strategy_data,
        ))
    }

    /// RSI rule: buys at or below the oversold level and sells at or
    /// above the overbought level, on the 14-step trailing RSI.
    fn execute_rsi_strategy(
        &self,
        market_data: &MarketData,
        historical_data: &Vec<PricePoint>,
        oversold: i64,
        overbought: i64,
    ) -> (r: Result<TradingSignal, TradingPlatformError>)
        requires
            crate::amount::price_ok(market_data.price as int),
            closes_ok(historical_data@),
            0 < oversold < overbought < 100 * SCALE,
        ensures
            r is Err <==> historical_data@.len() < 15,
            r matches Err(e) ==> e == TradingPlatformError::Strategy(
                StrategyError::InsufficientData,
            ),
            r matches Ok(sig) ==> signal_core_ok(sig, self.strategy, *market_data)
                && rsi_signal_ok(
                sig,
                market_data.price,
                closes_of(historical_data@),
                oversold,
                overbought,
            ),
    {
        let rsi = match self.calculate_rsi(historical_data, 14) {
            Ok(v) => v,
            Err(e) => {
                return Err(e);
            },
        };
        let current_price = market_data.price;
        let mut strategy_data: Vec<(String, i128)> = Vec::new();
        strategy_data.push((String::from_str("rsi"), rsi as i128));
        strategy_data.push((String::from_str("oversold_level"), oversold as i128));
        strategy_data.push((String::from_str("overbought_level"), overbought as i128));
        strategy_data.push((String::from_str("current_price"), current_price as i128));
        let (action, explanation, confidence) = if rsi <= oversold {
            (
                Action::Buy,
                String::from_str("RSI indicates oversold conditions; potential buying opportunity"),
                8 * SCALE / 10,
            )
        } else if rsi >= overbought {
            (
                Action::Sell,
                String::from_str("RSI indicates overbought conditions; consider taking profits"),
                8 * SCALE / 10,
            )
        } else {
            (
                Action::Hold,
                String::from_str("RSI is in neutral zone; no action required"),
                6 * SCALE / 10,
            )
        };
        Ok(TradingSignal::new(
            self.strategy.id.clone(),
            self.strategy.symbol.clone(),
            action,
            current_price,
            explanation,
            confidence,
            strategy_data,
        ))
    }
}

/// Divides a window sum by its window length, rounding down.
fn div_window(sum: i128, window: usize) -> (r: i128)
    requires
        sum >= 0,
        window >= 1,
    ensures
        r == sum as int / window as int,
{
    proof {
        assert(0 <= sum as int / window as int <= sum as int) by (nonlinear_arith)
            requires
                sum as int >= 0,
                window as int >= 1,
        ;
    }
    ((sum as u128) / (window as u128)) as i128
}

/// Sums the closes `data[start..end]` of an in-range series.
fn sum_of_closes(data: &Vec<PricePoint>, start: usize, end: usize) -> (r: i128)
    requires
        closes_ok(data@),
        start <= end <= data@.len(),
    ensures
        r == sum_range(closes_of(data@), start as int, end as int),
        0 <= r <= (end - start) * PRICE_MAX,
{
    let ghost cs = closes_of(data@);
    let mut acc: i128 = 0;
    let mut i: usize = start;
    while i < end
        invariant
            start <= i <= end,
            end <= data@.len(),
            cs == closes_of(data@),
            closes_ok(data@),
            acc == sum_range(cs, start as int, i as int),
            0 <= acc <= (i - start) * PRICE_MAX,
        decreases end - i,
    {
        proof {
            lemma_sum_range_snoc(cs, start as int, i as int);
            assert((i + 1 - start) * PRICE_MAX == (i - start) * PRICE_MAX + PRICE_MAX) by (
            nonlinear_arith);
        }
        acc = acc + data[i].close as i128;
        i = i + 1;
    }
    acc
}

} // verus!
