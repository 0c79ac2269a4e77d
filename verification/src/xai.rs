//! Explanation context: classification of market conditions and the
//! structured material the explanation collaborator consumes.
//!
//! The core never formats final prose; it classifies trend,
//! volatility and volume from numeric series, and carries structured
//! indicators and scenarios.

use vstd::prelude::*;

verus! {

use crate::amount::SCALE;
use crate::data::MarketData;
use crate::runtime::now_seconds;
use crate::strategy::{Action, RiskLevel, StrategyType, risk_of};

/// Direction classification of a price-change series.
#[derive(Debug, Clone, Copy, PartialEq, Eq, Structural)]
pub enum TrendDirection {
    StrongUptrend,
    WeakUptrend,
    Sideways,
    WeakDowntrend,
    StrongDowntrend,
}

/// Volatility classification of a price-change series.
#[derive(Debug, Clone, Copy, PartialEq, Eq, Structural)]
pub enum VolatilityLevel {
    VeryLow,
    Low,
    Normal,
    High,
    VeryHigh,
}

/// Volume classification relative to an average.
#[derive(Debug, Clone, Copy, PartialEq, Eq, Structural)]
pub enum VolumeAnalysis {
    VeryLow,
    Low,
    Normal,
    High,
    VeryHigh,
    Unusual,
}

/// Overall sentiment classification.
#[derive(Debug, Clone, Copy, PartialEq, Eq, Structural)]
pub enum MarketSentiment {
    VeryBullish,
    Bullish,
    Neutral,
    Bearish,
    VeryBearish,
}

/// Weight of an indicator in an explanation.
#[derive(Debug, Clone, Copy, PartialEq, Eq, Structural)]
pub enum IndicatorSignificance {
    Critical,
    Important,
    Moderate,
    Minor,
}

/// Where a price sits relative to support and resistance.
#[derive(Debug, Clone, Copy, PartialEq, Eq, Structural)]
pub enum PricePosition {
    AboveResistance,
    NearResistance,
    BetweenLevels,
    NearSupport,
    BelowSupport,
}

/// Support and resistance levels, in units.
#[derive(Debug, Clone, PartialEq)]
pub struct SupportResistance {
    pub support_level: i64,
    pub resistance_level: i64,
    pub current_position: PricePosition,
}

/// Classified market conditions derived from numeric series.
#[derive(Debug, Clone, PartialEq)]
pub struct MarketContext {
    pub trend_direction: TrendDirection,
    pub volatility_level: VolatilityLevel,
    pub volume_analysis: VolumeAnalysis,
    pub support_resistance: Option<SupportResistance>,
    pub market_sentiment: MarketSentiment,
}

/// One named numeric indicator feeding an explanation.
#[derive(Debug, Clone, PartialEq)]
pub struct KeyIndicator {
    pub name: String,
    /// Fixed-point value, in units.
    pub value: i64,
    pub significance: IndicatorSignificance,
    pub description: String,
}

/// An alternative outcome with its estimated probability.
#[derive(Debug, Clone, PartialEq)]
pub struct AlternativeScenario {
    pub scenario_name: String,
    /// Probability in `[0, SCALE]` units.
    pub probability: i64,
    pub description: String,
    pub potential_outcome: String,
}

/// The material handed to the explanation collaborator for one
/// decision.
#[derive(Debug, Clone, PartialEq)]
pub struct ExplanationContext {
    pub strategy_type: StrategyType,
    pub action: Action,
    pub market_data: MarketData,
    pub strategy_data: Vec<(String, i128)>,
    pub historical_context: Option<MarketContext>,
    /// Unix seconds.
    pub timestamp: i64,
}

/// A structured explanation of one decision.
#[derive(Debug, Clone, PartialEq)]
pub struct Explanation {
    pub summary: String,
    pub detailed_reasoning: String,
    pub market_context: String,
    pub risk_factors: Vec<String>,
    /// Confidence in `[0, SCALE]` units.
    pub confidence_level: i64,
    pub risk_level: RiskLevel,
    pub key_indicators: Vec<KeyIndicator>,
    pub alternative_scenarios: Vec<AlternativeScenario>,
    /// Unix seconds.
    pub generated_at: i64,
}

impl ExplanationContext {
    /// Assembles a context with no historical classification yet.
    pub fn new(
        strategy_type: StrategyType,
        action: Action,
        market_data: MarketData,
        strategy_data: Vec<(String, i128)>,
    ) -> (r: ExplanationContext)
        ensures
            r.strategy_type == strategy_type,
            r.action == action,
            r.market_data == market_data,
            r.strategy_data == strategy_data,
            r.historical_context is None,
    {
        ExplanationContext {
            strategy_type,
            action,
            market_data,
            strategy_data,
            historical_context: None,
            timestamp: now_seconds(),
        }
    }

    /// Attaches a historical market classification.
    pub fn with_historical_context(self, context: MarketContext) -> (r: ExplanationContext)
        ensures
            r.historical_context == Some(context),
            r.strategy_type == self.strategy_type,
            r.action == self.action,
            r.market_data == self.market_data,
            r.strategy_data == self.strategy_data,
            r.timestamp == self.timestamp,
    {
        ExplanationContext { historical_context: Some(context), ..self }
    }
}

impl Explanation {
    /// Builds an explanation with medium confidence and no structured
    /// material yet.
    pub fn new(summary: String, detailed_reasoning: String) -> (r: Explanation)
        ensures
            r.summary == summary,
            r.detailed_reasoning == detailed_reasoning,
            r.market_context@.len() == 0,
            r.risk_factors@.len() == 0,
            r.confidence_level == 5 * SCALE / 10,
            r.risk_level == RiskLevel::Medium,
            r.key_indicators@.len() == 0,
            r.alternative_scenarios@.len() == 0,
    {
        Explanation {
            summary,
            detailed_reasoning,
            market_context: String::new(),
            risk_factors: Vec::new(),
            confidence_level: 5 * SCALE / 10,
            risk_level: RiskLevel::Medium,
            key_indicators: Vec::new(),
            alternative_scenarios: Vec::new(),
            generated_at: now_seconds(),
        }
    }

    /// Sets the market-context prose.
    pub fn with_market_context(self, context: String) -> (r: Explanation)
        ensures
            r == (Explanation { market_context: context, ..self }),
    {
        Explanation { market_context: context, ..self }
    }

    /// Sets the risk-factor list.
    pub fn with_risk_factors(self, factors: Vec<String>) -> (r: Explanation)
        ensures
            r == (Explanation { risk_factors: factors, ..self }),
    {
        Explanation { risk_factors: factors, ..self }
    }

    /// Sets the confidence, clamped to `[0, 1]`, and rederives the
    /// risk level from it.
    pub fn with_confidence(self, confidence: i64) -> (r: Explanation)
        ensures
            r.confidence_level == (if confidence < 0 {
                0int
            } else if confidence > SCALE {
                SCALE as int
            } else {
                confidence as int
            }),
            r.risk_level == risk_of(r.confidence_level as int),
            r.summary == self.summary,
            r.detailed_reasoning == self.detailed_reasoning,
            r.market_context == self.market_context,
            r.risk_factors == self.risk_factors,
            r.key_indicators == self.key_indicators,
            r.alternative_scenarios == self.alternative_scenarios,
            r.generated_at == self.generated_at,
    {
        let clamped: i64 = if confidence < 0 {
            0
        } else if confidence > SCALE {
            SCALE
        } else {
            confidence
        };
        let risk_level = if clamped >= 8 * SCALE / 10 {
            RiskLevel::Low
        } else if clamped >= 5 * SCALE / 10 {
            RiskLevel::Medium
        } else {
            RiskLevel::High
        };
        Explanation { confidence_level: clamped, risk_level, ..self }
    }

    /// Appends a key indicator.
    pub fn add_key_indicator(&mut self, indicator: KeyIndicator)
        ensures
            final(self).key_indicators@ == old(self).key_indicators@.push(indicator),
            final(self).alternative_scenarios == old(self).alternative_scenarios,
            final(self).confidence_level == old(self).confidence_level,
            final(self).risk_level == old(self).risk_level,
            final(self).summary == old(self).summary,
    {
        self.key_indicators.push(indicator);
    }

    /// Appends an alternative scenario.
    pub fn add_alternative_scenario(&mut self, scenario: AlternativeScenario)
        ensures
            final(self).alternative_scenarios@ == old(self).alternative_scenarios@.push(scenario),
            final(self).key_indicators == old(self).key_indicators,
            final(self).confidence_level == old(self).confidence_level,
            final(self).risk_level == old(self).risk_level,
            final(self).summary == old(self).summary,
    {
        self.alternative_scenarios.push(scenario);
    }

    /// Confidence of at least 0.8.
    pub fn is_high_confidence(&self) -> (r: bool)
        ensures
            r == (self.confidence_level >= 8 * SCALE / 10),
    {
        self.confidence_level >= 8 * SCALE / 10
    }

    /// The risk level is low.
    pub fn is_low_risk(&self) -> (r: bool)
        ensures
            r == (self.risk_level is Low),
    {
        match self.risk_level {
            RiskLevel::Low => true,
            _ => false,
        }
    }
}

/// Number of strictly positive entries among the first `i`.
pub open spec fn pos_count(s: Seq<i64>, i: int) -> int
    decreases i,
{
    if i <= 0 {
        0
    } else {
        pos_count(s, i - 1) + if s[i - 1] > 0 {
            1int
        } else {
            0int
        }
    }
}

/// Sum of squares of the first `i` entries.
pub open spec fn sq_sum(s: Seq<i64>, i: int) -> int
    decreases i,
{
    if i <= 0 {
        0
    } else {
        sq_sum(s, i - 1) + s[i - 1] * s[i - 1]
    }
}

/// The trend classification rule: mostly positive and strongly
/// rising means a strong uptrend, and so on down to a strong
/// downtrend; anything else is sideways.  Thresholds compare the
/// positive-entry ratio to 0.7/0.6/0.4/0.3 and the mean change to
/// 2/0.5/-0.5/-2 currency units, exactly, by cross-multiplication.
pub open spec fn trend_of(s: Seq<i64>) -> TrendDirection {
    let n = s.len() as int;
    let pos = pos_count(s, n);
    let total = crate::amount::sum_range(s, 0, n);
    if 10 * pos > 7 * n && total > 2 * SCALE * n {
        TrendDirection::StrongUptrend
    } else if 10 * pos > 6 * n && 2 * total > SCALE as int * n {
        TrendDirection::WeakUptrend
    } else if 10 * pos < 3 * n && total < -(2 * SCALE * n) {
        TrendDirection::StrongDowntrend
    } else if 10 * pos < 4 * n && 2 * total < -(SCALE as int * n) {
        TrendDirection::WeakDowntrend
    } else {
        TrendDirection::Sideways
    }
}

/// The volatility classification rule: the sample spread
/// `n * sum(x^2) - sum(x)^2` is compared against the squared
/// thresholds 0.5/1/2/4 currency units scaled by `n^2`, which is the
/// exact integer form of comparing the standard deviation of the
/// series to those thresholds.
pub open spec fn volatility_of(s: Seq<i64>) -> VolatilityLevel {
    let n = s.len() as int;
    let s1 = crate::amount::sum_range(s, 0, n);
    let s2 = sq_sum(s, n);
    let spread = n * s2 - s1 * s1;
    if spread < 5_000 * 5_000 * n * n {
        VolatilityLevel::VeryLow
    } else if spread < 10_000 * 10_000 * n * n {
        VolatilityLevel::Low
    } else if spread < 20_000 * 20_000 * n * n {
        VolatilityLevel::Normal
    } else if spread < 40_000 * 40_000 * n * n {
        VolatilityLevel::High
    } else {
        VolatilityLevel::VeryHigh
    }
}

/// The volume classification rule: the ratio of current to average
/// volume against 0.3/0.7/1.3/2/3, exactly, by cross-multiplication;
/// a zero average counts as one.
pub open spec fn volume_of(current: u64, average: u64) -> VolumeAnalysis {
    let a = if average == 0 {
        1int
    } else {
        average as int
    };
    if 10 * current < 3 * a {
        VolumeAnalysis::VeryLow
    } else if 10 * current < 7 * a {
        VolumeAnalysis::Low
    } else if 10 * current < 13 * a {
        VolumeAnalysis::Normal
    } else if current < 2 * a {
        VolumeAnalysis::High
    } else if current < 3 * a {
        VolumeAnalysis::VeryHigh
    } else {
        VolumeAnalysis::Unusual
    }
}

/// Bound on the price-change entries the analyses accept, in units.
pub const CHANGE_MAX: i64 = 1_000_000_000;

/// Bound on the series length the analyses accept.
pub const SERIES_MAX: usize = 1_000_000;

impl MarketContext {
    /// Builds a neutral context.
    pub fn new() -> (r: MarketContext)
        ensures
            r.trend_direction == TrendDirection::Sideways,
            r.volatility_level == VolatilityLevel::Normal,
            r.volume_analysis == VolumeAnalysis::Normal,
            r.support_resistance is None,
            r.market_sentiment == MarketSentiment::Neutral,
    {
        MarketContext {
            trend_direction: TrendDirection::Sideways,
            volatility_level: VolatilityLevel::Normal,
            volume_analysis: VolumeAnalysis::Normal,
            support_resistance: None,
            market_sentiment: MarketSentiment::Neutral,
        }
    }

    /// Classifies the trend of a price-change series by
    /// [`trend_of`]; an empty series leaves the context unchanged.
    pub fn analyze_trend(&mut self, price_changes: &Vec<i64>)
        requires
            price_changes@.len() <= SERIES_MAX,
            forall|k: int|
                0 <= k < price_changes@.len() ==> -CHANGE_MAX <= #[trigger] price_changes@[k]
                    <= CHANGE_MAX,
        ensures
            final(self).trend_direction == (if price_changes@.len() == 0 {
                old(self).trend_direction
            } else {
                trend_of(price_changes@)
            }),
            final(self).volatility_level == old(self).volatility_level,
            final(self).volume_analysis == old(self).volume_analysis,
            final(self).support_resistance == old(self).support_resistance,
            final(self).market_sentiment == old(self).market_sentiment,
    {
        let n = price_changes.len();
        if n == 0 {
            return ;
        }
        let ghost cs = price_changes@;
        let mut pos: usize = 0;
        let mut total: i128 = 0;
        let mut i: usize = 0;
        while i < n
            invariant
                i <= n,
                n == cs.len(),
                cs == price_changes@,
                n <= SERIES_MAX,
                forall|k: int| 0 <= k < cs.len() ==> -CHANGE_MAX <= #[trigger] cs[k] <= CHANGE_MAX,
                pos == pos_count(cs, i as int),
                pos <= i,
                total == crate::amount::sum_range(cs, 0, i as int),
                -(i * CHANGE_MAX) <= total <= i * CHANGE_MAX,
            decreases n - i,
        {
            proof {
                crate::amount::lemma_sum_range_snoc(cs, 0, i as int);
                crate::amount::lemma_sum_range_bound(cs, 0, i as int + 1, CHANGE_MAX as int);
            }
            if price_changes[i] > 0 {
                pos = pos + 1;
            }
            total = total + price_changes[i] as i128;
            i = i + 1;
        }
        let pos10: u128 = 10 * pos as u128;
        let scale_n: i128 = SCALE as i128 * n as i128;
        self.trend_direction = if pos10 > 7 * n as u128 && total > 2 * scale_n {
            TrendDirection::StrongUptrend
        } else if pos10 > 6 * n as u128 && 2 * total > scale_n {
            TrendDirection::WeakUptrend
        } else if pos10 < 3 * n as u128 && total < -(2 * scale_n) {
            TrendDirection::StrongDowntrend
        } else if pos10 < 4 * n as u128 && 2 * total < -scale_n {
            TrendDirection::WeakDowntrend
        } else {
            TrendDirection::Sideways
        };
    }

    /// Classifies the volatility of a price-change series by
    /// [`volatility_of`]; an empty series leaves the context
    /// unchanged.
    pub fn analyze_volatility(&mut self, price_changes: &Vec<i64>)
        requires
            price_changes@.len() <= SERIES_MAX,
            forall|k: int|
                0 <= k < price_changes@.len() ==> -CHANGE_MAX <= #[trigger] price_changes@[k]
                    <= CHANGE_MAX,
        ensures
            final(self).volatility_level == (if price_changes@.len() == 0 {
                old(self).volatility_level
            } else {
                volatility_of(price_changes@)
            }),
            final(self).trend_direction == old(self).trend_direction,
            final(self).volume_analysis == old(self).volume_analysis,
            final(self).support_resistance == old(self).support_resistance,
            final(self).market_sentiment == old(self).market_sentiment,
    {
        let n = price_changes.len();
        if n == 0 {
            return ;
        }
        let ghost cs = price_changes@;
        let mut s1: i128 = 0;
        let mut s2: i128 = 0;
        let mut i: usize = 0;
        while i < n
            invariant
                i <= n,
                n == cs.len(),
                cs == price_changes@,
                n <= SERIES_MAX,
                forall|k: int| 0 <= k < cs.len() ==> -CHANGE_MAX <= #[trigger] cs[k] <= CHANGE_MAX,
                s1 == crate::amount::sum_range(cs, 0, i as int),
                -(i * CHANGE_MAX) <= s1 <= i * CHANGE_MAX,
                s2 == sq_sum(cs, i as int),
                0 <= s2 <= i * 1_000_000_000_000_000_000,
            decreases n - i,
        {
            proof {
                crate::amount::lemma_sum_range_snoc(cs, 0, i as int);
                crate::amount::lemma_sum_range_bound(cs, 0, i as int + 1, CHANGE_MAX as int);
                assert(-CHANGE_MAX <= cs[i as int] <= CHANGE_MAX);
            }
            let x: i128 = price_changes[i] as i128;
            proof {
                assert(0 <= x * x <= 1_000_000_000_000_000_000) by (nonlinear_arith)
                    requires
                        -1_000_000_000 <= x <= 1_000_000_000,
                ;
            }
            s1 = s1 + x;
            s2 = s2 + x * x;
            i = i + 1;
        }
        proof {
            assert(0 <= (n as int) * (s2 as int) <= 1_000_000_000_000_000_000_000_000_000_000i128)
                by (nonlinear_arith)
                requires
                    0 <= s2 as int <= (n as int) * 1_000_000_000_000_000_000,
                    0 < n as int <= 1_000_000,
            ;
            assert(0 <= (s1 as int) * (s1 as int) <= 1_000_000_000_000_000_000_000_000_000_000i128)
                by (nonlinear_arith)
                requires
                    -((n as int) * (CHANGE_MAX as int)) <= s1 as int <= (n as int) * (
                    CHANGE_MAX as int),
                    0 < n as int <= 1_000_000,
                    CHANGE_MAX == 1_000_000_000i64,
            ;
            assert(0 <= (n as int) * (n as int) <= 1_000_000_000_000i128) by (nonlinear_arith)
                requires
                    0 < n as int <= 1_000_000,
            ;
        }
        let spread: i128 = n as i128 * s2 - s1 * s1;
        let nn: i128 = n as i128 * n as i128;
        self.volatility_level = if spread < 25_000_000 * nn {
            VolatilityLevel::VeryLow
        } else if spread < 100_000_000 * nn {
            VolatilityLevel::Low
        } else if spread < 400_000_000 * nn {
            VolatilityLevel::Normal
        } else if spread < 1_600_000_000 * nn {
            VolatilityLevel::High
        } else {
            VolatilityLevel::VeryHigh
        };
        proof {
            assert(25_000_000 * (nn as int) == 5_000 * 5_000 * (n as int) * (n as int)) by (
            nonlinear_arith)
                requires
                    nn as int == (n as int) * (n as int),
            ;
            assert(100_000_000 * (nn as int) == 10_000 * 10_000 * (n as int) * (n as int)) by (
            nonlinear_arith)
                requires
                    nn as int == (n as int) * (n as int),
            ;
            assert(400_000_000 * (nn as int) == 20_000 * 20_000 * (n as int) * (n as int)) by (
            nonlinear_arith)
                requires
                    nn as int == (n as int) * (n as int),
            ;
            assert(1_600_000_000 * (nn as int) == 40_000 * 40_000 * (n as int) * (n as int)) by (
            nonlinear_arith)
                requires
                    nn as int == (n as int) * (n as int),
            ;
        }
    }

    /// Classifies current volume against average volume by
    /// [`volume_of`].
    pub fn analyze_volume(&mut self, current_volume: u64, average_volume: u64)
        ensures
            final(self).volume_analysis == volume_of(current_volume, average_volume),
            final(self).trend_direction == old(self).trend_direction,
            final(self).volatility_level == old(self).volatility_level,
            final(self).support_resistance == old(self).support_resistance,
            final(self).market_sentiment == old(self).market_sentiment,
    {
        let a: u128 = if average_volume == 0 {
            1
        } else {
            average_volume as u128
        };
        let cur: u128 = current_volume as u128;
        self.volume_analysis = if 10 * cur < 3 * a {
            VolumeAnalysis::VeryLow
        } else if 10 * cur < 7 * a {
            VolumeAnalysis::Low
        } else if 10 * cur < 13 * a {
            VolumeAnalysis::Normal
        } else if cur < 2 * a {
            VolumeAnalysis::High
        } else if cur < 3 * a {
            VolumeAnalysis::VeryHigh
        } else {
            VolumeAnalysis::Unusual
        };
    }
}

impl Default for MarketContext {
    /// The default context is neutral.
    fn default() -> (r: MarketContext)
        ensures
            r.trend_direction == TrendDirection::Sideways,
            r.volatility_level == VolatilityLevel::Normal,
            r.volume_analysis == VolumeAnalysis::Normal,
            r.support_resistance is None,
            r.market_sentiment == MarketSentiment::Neutral,
    {
        MarketContext::new()
    }
}

impl KeyIndicator {
    /// Builds an indicator.
    pub fn new(
        name: String,
        value: i64,
        significance: IndicatorSignificance,
        description: String,
    ) -> (r: KeyIndicator)
        ensures
            r.name == name,
            r.value == value,
            r.significance == significance,
            r.description == description,
    {
        KeyIndicator { name, value, significance, description }
    }

    /// Builds a critical indicator.
    pub fn critical(name: String, value: i64, description: String) -> (r: KeyIndicator)
        ensures
            r.name == name,
            r.value == value,
            r.significance == IndicatorSignificance::Critical,
            r.description == description,
    {
        KeyIndicator::new(name, value, IndicatorSignificance::Critical, description)
    }

    /// Builds an important indicator.
    pub fn important(name: String, value: i64, description: String) -> (r: KeyIndicator)
        ensures
            r.name == name,
            r.value == value,
            r.significance == IndicatorSignificance::Important,
            r.description == description,
    {
        KeyIndicator::new(name, value, IndicatorSignificance::Important, description)
    }
}

impl AlternativeScenario {
    /// Builds a scenario; the probability is clamped to `[0, 1]`.
    pub fn new(
        scenario_name: String,
        probability: i64,
        description: String,
        potential_outcome: String,
    ) -> (r: AlternativeScenario)
        ensures
            r.scenario_name == scenario_name,
            r.probability == (if probability < 0 {
                0int
            } else if probability > SCALE {
                SCALE as int
            } else {
                probability as int
            }),
            r.description == description,
            r.potential_outcome == potential_outcome,
    {
        let clamped: i64 = if probability < 0 {
            0
        } else if probability > SCALE {
            SCALE
        } else {
            probability
        };
        AlternativeScenario {
            scenario_name,
            probability: clamped,
            description,
            potential_outcome,
        }
    }
}

} // verus!
