//! The live market-data provider's decision logic.
//!
//! The HTTP transport is driven from outside the library; what stands
//! here is everything that can be checked: the provider's
//! configuration and retry/rate-limit state, the classification of
//! HTTP status codes into errors, the range/interval parameters each
//! period maps to, and the conversion of decoded payloads into
//! quotes and historical series.

use vstd::prelude::*;

verus! {

use crate::amount::PRICE_MAX;
use crate::data::{
    insertion_index, ohlc_valid, time_sorted, HistoricalData, MarketData, PricePoint, TimePeriod,
};
use crate::error::{MarketDataError, TradingPlatformError};
use crate::market::{MarketDataConfig, RateLimitInfo, RateLimiter, RetryPolicy, LIMIT_DELAY_MAX_MS};

/// The live provider: configuration plus retry and rate-limit state.
pub struct YahooFinanceProvider {
    pub config: MarketDataConfig,
    pub retry_policy: RetryPolicy,
    pub rate_limiter: RateLimiter,
}

impl YahooFinanceProvider {
    /// Assembles the provider's decision state from its
    /// configuration: the retry policy takes the configured retry
    /// count and base delay with a thirty-second cap and doubling,
    /// the rate limiter the configured spacing.
    pub fn new(config: MarketDataConfig) -> (r: YahooFinanceProvider)
        requires
            config.rate_limit_delay_ms <= LIMIT_DELAY_MAX_MS,
        ensures
            r.config == config,
            r.retry_policy.max_retries == config.max_retries,
            r.retry_policy.base_delay_ms == config.retry_delay_ms,
            r.retry_policy.max_delay_ms == 30_000,
            r.retry_policy.backoff_multiplier == 2,
            r.retry_policy.wf(),
            r.rate_limiter.delay_ms == config.rate_limit_delay_ms,
            r.rate_limiter.last_request is None,
            r.rate_limiter.wf(),
    {
        let retry_policy = RetryPolicy {
            max_retries: config.max_retries,
            base_delay_ms: config.retry_delay_ms,
            max_delay_ms: 30_000,
            backoff_multiplier: 2,
        };
        let rate_limiter = RateLimiter::new(config.rate_limit_delay_ms);
        YahooFinanceProvider { config, retry_policy, rate_limiter }
    }

    /// The provider's display name.
    pub fn provider_name(&self) -> (r: String)
        ensures
            r@ == "Yahoo Finance"@,
    {
        String::from_str("Yahoo Finance")
    }

    /// The provider's published request quota.
    pub fn rate_limit_info(&self) -> (r: RateLimitInfo)
        ensures
            r.requests_per_minute == 60,
            r.requests_per_hour == 2000,
            r.current_usage == 0,
            r.reset_time is None,
    {
        RateLimitInfo {
            requests_per_minute: 60,
            requests_per_hour: 2000,
            current_usage: 0,
            reset_time: None,
        }
    }

    /// Converts a decoded quote payload into a quote: a missing
    /// result or market price is `NoDataAvailable`; otherwise the
    /// quote carries the payload's price and volume, the previous
    /// close (defaulting to the price itself) with the derived
    /// change, the day range when both ends are present, and the
    /// market capitalisation.
    pub fn convert_to_market_data(&self, symbol: &str, meta: &Option<QuoteMeta>) -> (r: Result<
        MarketData,
        TradingPlatformError,
    >)
        requires
            meta matches Some(m) ==> m.wf(),
        ensures
            r is Ok <==> (meta matches Some(m) && m.regular_market_price is Some),
            r matches Err(TradingPlatformError::MarketData(MarketDataError::NoDataAvailable(s)))
                ==> s@ == symbol@,
            r matches Err(e) ==> (e matches TradingPlatformError::MarketData(
                MarketDataError::NoDataAvailable(_),
            )),
            meta matches Some(m) ==> (m.regular_market_price matches Some(price) ==> (r
                matches Ok(md) && {
                let previous = match m.previous_close {
                    Some(p) => p,
                    None => price,
                };
                &&& md.symbol@ == symbol@
                &&& md.price == price
                &&& md.volume == (match m.regular_market_volume {
                    Some(v) => v,
                    None => 0u64,
                })
                &&& md.previous_close == Some(previous)
                &&& md.change == price - previous
                &&& md.change_percent == crate::data::pct_of(price - previous, previous as int)
                &&& md.day_high == (match (m.regular_market_day_high, m.regular_market_day_low) {
                    (Some(h), Some(_)) => Some(h),
                    _ => None::<i64>,
                })
                &&& md.day_low == (match (m.regular_market_day_high, m.regular_market_day_low) {
                    (Some(_), Some(l)) => Some(l),
                    _ => None::<i64>,
                })
                &&& md.market_cap == m.market_cap
            })),
    {
        let m = match meta {
            Some(m) => m,
            None => {
                return Err(TradingPlatformError::MarketData(
                    MarketDataError::NoDataAvailable(symbol.to_owned()),
                ));
            },
        };
        let current_price = match m.regular_market_price {
            Some(p) => p,
            None => {
                return Err(TradingPlatformError::MarketData(
                    MarketDataError::NoDataAvailable(symbol.to_owned()),
                ));
            },
        };
        let previous_close = match m.previous_close {
            Some(p) => p,
            None => current_price,
        };
        let volume = match m.regular_market_volume {
            Some(v) => v,
            None => 0,
        };
        let mut market_data = MarketData::new(symbol.to_owned(), current_price, volume);
        if let (Some(high), Some(low)) = (m.regular_market_day_high, m.regular_market_day_low) {
            market_data = market_data.with_day_range(high, low);
        }
        market_data = market_data.with_change(previous_close);
        market_data.market_cap = m.market_cap;
        Ok(market_data)
    }

    /// Converts a decoded historical payload into a series: rows are
    /// kept exactly when every component is present and the OHLC
    /// values are coherent, each kept row is placed at its sorted
    /// position, and a payload without one usable row is
    /// `InsufficientHistoricalData`.  A missing result is
    /// `NoDataAvailable`.
    pub fn convert_to_historical_data(
        &self,
        symbol: &str,
        series: &Option<HistoricalSeries>,
        period: TimePeriod,
    ) -> (r: Result<HistoricalData, TradingPlatformError>)
        requires
            series matches Some(s) ==> s.wf(),
        ensures
            series is None ==> (r matches Err(TradingPlatformError::MarketData(
                MarketDataError::NoDataAvailable(s),
            )) && s@ == symbol@),
            series matches Some(rows) ==> {
                let kept = kept_points(*rows, rows.timestamps@.len() as int);
                if kept.len() == 0 {
                    r matches Err(TradingPlatformError::MarketData(
                        MarketDataError::InsufficientHistoricalData(s),
                    )) && s@ == symbol@
                } else {
                    r matches Ok(h) && {
                        &&& h.symbol@ == symbol@
                        &&& h.period == period
                        &&& h.data_points@ == stable_sorted(kept)
                        &&& time_sorted(h.data_points@)
                    }
                }
            },
    {
        let rows = match series {
            Some(rows) => rows,
            None => {
                return Err(TradingPlatformError::MarketData(
                    MarketDataError::NoDataAvailable(symbol.to_owned()),
                ));
            },
        };
        let n = rows.timestamps.len();
        let mut historical_data = HistoricalData::new(symbol.to_owned(), period);
        let mut i: usize = 0;
        while i < n
            invariant
                i <= n,
                n == rows.timestamps@.len(),
                rows.wf(),
                historical_data.symbol@ == symbol@,
                historical_data.period == period,
                historical_data.data_points@ == stable_sorted(kept_points(*rows, i as int)),
                time_sorted(historical_data.data_points@),
            decreases n - i,
        {
            let ghost kept_i = kept_points(*rows, i as int);
            let ghost kept_next = kept_points(*rows, i as int + 1);
            let usable = i < rows.opens.len() && i < rows.highs.len() && i < rows.lows.len() && i
                < rows.closes.len() && i < rows.volumes.len();
            let mut added = false;
            if usable {
                if let (Some(open), Some(high), Some(low), Some(close), Some(volume)) = (
                    rows.opens[i],
                    rows.highs[i],
                    rows.lows[i],
                    rows.closes[i],
                    rows.volumes[i],
                ) {
                    match PricePoint::new(rows.timestamps[i], open, high, low, close, volume) {
                        Ok(price_point) => {
                            proof {
                                assert(rows.row_kept(i as int));
                                assert(price_point == rows.row_point(i as int));
                                assert(kept_next == kept_i.push(price_point));
                                assert(kept_next.drop_last() =~= kept_i);
                                assert(kept_next.last() == price_point);
                            }
                            historical_data.add_price_point(price_point);
                            added = true;
                        },
                        Err(_) => {
                            proof {
                                assert(!rows.row_kept(i as int));
                            }
                        },
                    }
                } else {
                    proof {
                        assert(!rows.row_kept(i as int));
                    }
                }
            } else {
                proof {
                    assert(!rows.row_kept(i as int));
                }
            }
            proof {
                if !added {
                    assert(kept_next == kept_i);
                }
            }
            i = i + 1;
        }
        proof {
            lemma_stable_sorted_len(kept_points(*rows, n as int));
        }
        if historical_data.data_points.len() == 0 {
            return Err(TradingPlatformError::MarketData(
                MarketDataError::InsufficientHistoricalData(symbol.to_owned()),
            ));
        }
        Ok(historical_data)
    }
}

/// Classifies an HTTP status for a symbol request: success passes,
/// 404 is an unknown symbol, 429 an exhausted rate limit, and any
/// other failure an unavailable provider.
pub fn classify_http_status(status: u16, symbol: &str) -> (r: Option<MarketDataError>)
    ensures
        (200 <= status < 300) <==> r is None,
        status == 404 ==> (r matches Some(MarketDataError::SymbolNotFound(s)) && s@ == symbol@),
        status == 429 ==> r == Some(MarketDataError::RateLimitExceeded),
        (!(200 <= status < 300) && status != 404 && status != 429) ==> r == Some(
            MarketDataError::ProviderUnavailable,
        ),
{
    if 200 <= status && status < 300 {
        None
    } else if status == 404 {
        Some(MarketDataError::SymbolNotFound(symbol.to_owned()))
    } else if status == 429 {
        Some(MarketDataError::RateLimitExceeded)
    } else {
        Some(MarketDataError::ProviderUnavailable)
    }
}

/// The decoded metadata of a quote payload; prices in units.
#[derive(Debug, Clone, PartialEq)]
pub struct QuoteMeta {
    pub regular_market_price: Option<i64>,
    pub previous_close: Option<i64>,
    pub regular_market_volume: Option<u64>,
    pub regular_market_day_high: Option<i64>,
    pub regular_market_day_low: Option<i64>,
    pub market_cap: Option<u64>,
}

impl QuoteMeta {
    /// All present prices lie within the accepted range.
    pub open spec fn wf(self) -> bool {
        &&& (self.regular_market_price matches Some(p) ==> -PRICE_MAX <= p <= PRICE_MAX)
        &&& (self.previous_close matches Some(p) ==> -PRICE_MAX <= p <= PRICE_MAX)
    }
}

/// The decoded rows of a historical payload: one timestamp per row
/// and per-component columns that may be missing entries.
#[derive(Debug, Clone, PartialEq)]
pub struct HistoricalSeries {
    /// Unix seconds.
    pub timestamps: Vec<i64>,
    pub opens: Vec<Option<i64>>,
    pub highs: Vec<Option<i64>>,
    pub lows: Vec<Option<i64>>,
    pub closes: Vec<Option<i64>>,
    pub volumes: Vec<Option<u64>>,
}

/// The component of a column at a row, None past the column's end.
pub open spec fn col_at<A>(v: Seq<Option<A>>, i: int) -> Option<A> {
    if 0 <= i < v.len() {
        v[i]
    } else {
        None
    }
}

impl HistoricalSeries {
    /// All present prices lie within the accepted range.
    pub open spec fn wf(self) -> bool {
        &&& (forall|i: int|
            0 <= i < self.highs@.len() ==> (#[trigger] self.highs@[i] matches Some(p) ==> 0 <= p
                <= PRICE_MAX))
    }

    /// Whether row `i` is kept: every component present and the OHLC
    /// values coherent.
    pub open spec fn row_kept(self, i: int) -> bool {
        &&& col_at(self.opens@, i) is Some
        &&& col_at(self.highs@, i) is Some
        &&& col_at(self.lows@, i) is Some
        &&& col_at(self.closes@, i) is Some
        &&& col_at(self.volumes@, i) is Some
        &&& ohlc_valid(
            opt_or(col_at(self.opens@, i), 0) as int,
            opt_or(col_at(self.highs@, i), 0) as int,
            opt_or(col_at(self.lows@, i), 0) as int,
            opt_or(col_at(self.closes@, i), 0) as int,
        )
    }

    /// The point row `i` decodes to.
    pub open spec fn row_point(self, i: int) -> PricePoint {
        PricePoint {
            timestamp: self.timestamps@[i],
            open: opt_or(col_at(self.opens@, i), 0),
            high: opt_or(col_at(self.highs@, i), 0),
            low: opt_or(col_at(self.lows@, i), 0),
            close: opt_or(col_at(self.closes@, i), 0),
            volume: opt_or(col_at(self.volumes@, i), 0),
            adjusted_close: None,
        }
    }
}

/// The option's value, or a default when absent.
pub open spec fn opt_or<A>(o: Option<A>, dflt: A) -> A {
    match o {
        Some(x) => x,
        None => dflt,
    }
}

/// The points of the first `n` kept rows, in row order.
pub open spec fn kept_points(rows: HistoricalSeries, n: int) -> Seq<PricePoint>
    decreases n,
{
    if n <= 0 {
        Seq::empty()
    } else if rows.row_kept(n - 1) {
        kept_points(rows, n - 1).push(rows.row_point(n - 1))
    } else {
        kept_points(rows, n - 1)
    }
}

/// The result of inserting each point in turn at its stable sorted
/// position: the order a series reaches by re-sorting stably after
/// every append.
pub open spec fn stable_sorted(s: Seq<PricePoint>) -> Seq<PricePoint>
    decreases s.len(),
{
    if s.len() == 0 {
        Seq::empty()
    } else {
        let prefix = stable_sorted(s.drop_last());
        prefix.insert(insertion_index(prefix, s.last().timestamp), s.last())
    }
}

/// A stably sorted series has as many points as went in.
pub proof fn lemma_stable_sorted_len(s: Seq<PricePoint>)
    ensures
        stable_sorted(s).len() == s.len(),
    decreases s.len(),
{
    if s.len() > 0 {
        lemma_stable_sorted_len(s.drop_last());
        crate::data::lemma_insertion_index_props(
            stable_sorted(s.drop_last()),
            s.last().timestamp,
        );
    }
}

/// The range and interval keys the live source expects for a period.
pub fn period_params(period: &TimePeriod) -> (r: (String, String))
    ensures
        match *period {
            TimePeriod::OneDay => r.0@ == "1d"@ && r.1@ == "1m"@,
            TimePeriod::OneWeek => r.0@ == "7d"@ && r.1@ == "5m"@,
            TimePeriod::OneMonth => r.0@ == "1mo"@ && r.1@ == "1h"@,
            TimePeriod::ThreeMonths => r.0@ == "3mo"@ && r.1@ == "1d"@,
            TimePeriod::SixMonths => r.0@ == "6mo"@ && r.1@ == "1d"@,
            TimePeriod::OneYear => r.0@ == "1y"@ && r.1@ == "1d"@,
            TimePeriod::TwoYears => r.0@ == "2y"@ && r.1@ == "1wk"@,
            TimePeriod::FiveYears => r.0@ == "5y"@ && r.1@ == "1mo"@,
            TimePeriod::Custom { days } => if days <= 7 {
                r.0@ == "7d"@ && r.1@ == "1h"@
            } else if days <= 30 {
                r.0@ == "1mo"@ && r.1@ == "1d"@
            } else {
                r.0@ == "1y"@ && r.1@ == "1d"@
            },
        },
{
    match period {
        TimePeriod::OneDay => (String::from_str("1d"), String::from_str("1m")),
        TimePeriod::OneWeek => (String::from_str("7d"), String::from_str("5m")),
        TimePeriod::OneMonth => (String::from_str("1mo"), String::from_str("1h")),
        TimePeriod::ThreeMonths => (String::from_str("3mo"), String::from_str("1d")),
        TimePeriod::SixMonths => (String::from_str("6mo"), String::from_str("1d")),
        TimePeriod::OneYear => (String::from_str("1y"), String::from_str("1d")),
        TimePeriod::TwoYears => (String::from_str("2y"), String::from_str("1wk")),
        TimePeriod::FiveYears => (String::from_str("5y"), String::from_str("1mo")),
        TimePeriod::Custom { days } => {
            if *days <= 7 {
                (String::from_str("7d"), String::from_str("1h"))
            } else if *days <= 30 {
                (String::from_str("1mo"), String::from_str("1d"))
            } else {
                (String::from_str("1y"), String::from_str("1d"))
            }
        },
    }
}

} // verus!
