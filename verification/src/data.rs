//! Market data model: point-in-time quotes, OHLC price points and
//! historical series with derived queries.
//!
//! Prices are fixed-point amounts (see [`crate::amount`]); timestamps
//! are Unix seconds.

use vstd::prelude::*;

verus! {

use crate::amount::{
    floor_div, lemma_sum_range_bound, lemma_sum_range_snoc, price_ok, sum_range, PRICE_MAX, SCALE,
};
use crate::error::{MarketDataError, TradingPlatformError};
use crate::runtime::now_seconds;

/// Percentage of `numer` relative to `denom`, as a fixed-point value:
/// the floor of `numer / denom * 100`, in units.  Zero when `denom` is
/// zero.
pub open spec fn pct_of(numer: int, denom: int) -> int {
    if denom > 0 {
        (numer * 100 * SCALE) / denom
    } else if denom < 0 {
        ((-numer) * 100 * SCALE) / (-denom)
    } else {
        0
    }
}

/// Computes [`pct_of`] exactly.
pub fn pct_fp(numer: i64, denom: i64) -> (r: i128)
    ensures
        r == pct_of(numer as int, denom as int),
{
    let scaled: i128 = numer as i128 * 1_000_000;
    proof {
        assert(scaled == numer as int * 100 * SCALE);
    }
    if denom > 0 {
        floor_div(scaled, denom as i128)
    } else if denom < 0 {
        floor_div(-scaled, -(denom as i128))
    } else {
        0
    }
}

/// A point-in-time quote for one symbol.
#[derive(Debug, Clone, PartialEq)]
pub struct MarketData {
    pub symbol: String,
    /// Last traded price, in units.
    pub price: i64,
    pub volume: u64,
    /// Unix seconds.
    pub timestamp: i64,
    /// Price change relative to the previous close, in units.
    pub change: i64,
    /// Percentage change relative to the previous close, in units.
    pub change_percent: i128,
    pub market_cap: Option<u64>,
    pub day_high: Option<i64>,
    pub day_low: Option<i64>,
    pub previous_close: Option<i64>,
}

impl MarketData {
    /// A valid quote: non-empty symbol, positive price, and a coherent
    /// day range when one is present.
    pub open spec fn valid(self) -> bool {
        &&& self.symbol@.len() > 0
        &&& self.price > 0
        &&& match (self.day_high, self.day_low) {
            (Some(h), Some(l)) => l <= h && l <= self.price <= h,
            _ => true,
        }
    }

    /// Builds a quote with no change, day-range or market-cap
    /// information; the timestamp is taken from the clock.
    pub fn new(symbol: String, price: i64, volume: u64) -> (r: MarketData)
        ensures
            r.symbol == symbol,
            r.price == price,
            r.volume == volume,
            r.change == 0,
            r.change_percent == 0,
            r.market_cap is None,
            r.day_high is None,
            r.day_low is None,
            r.previous_close is None,
    {
        MarketData {
            symbol,
            price,
            volume,
            timestamp: now_seconds(),
            change: 0,
            change_percent: 0,
            market_cap: None,
            day_high: None,
            day_low: None,
            previous_close: None,
        }
    }

    /// Records the previous close and derives the absolute and
    /// percentage change from it.
    pub fn with_change(self, previous_close: i64) -> (r: MarketData)
        requires
            -PRICE_MAX <= self.price <= PRICE_MAX,
            -PRICE_MAX <= previous_close <= PRICE_MAX,
        ensures
            r.change == self.price - previous_close,
            r.change_percent == pct_of(self.price - previous_close, previous_close as int),
            r.previous_close == Some(previous_close),
            r.symbol == self.symbol,
            r.price == self.price,
            r.volume == self.volume,
            r.timestamp == self.timestamp,
            r.market_cap == self.market_cap,
            r.day_high == self.day_high,
            r.day_low == self.day_low,
    {
        let change = self.price - previous_close;
        let change_percent = pct_fp(change, previous_close);
        MarketData { change, change_percent, previous_close: Some(previous_close), ..self }
    }

    /// Records the day's high and low.
    pub fn with_day_range(self, high: i64, low: i64) -> (r: MarketData)
        ensures
            r.day_high == Some(high),
            r.day_low == Some(low),
            r.symbol == self.symbol,
            r.price == self.price,
            r.volume == self.volume,
            r.timestamp == self.timestamp,
            r.change == self.change,
            r.change_percent == self.change_percent,
            r.market_cap == self.market_cap,
            r.previous_close == self.previous_close,
    {
        MarketData { day_high: Some(high), day_low: Some(low), ..self }
    }

    /// Accepts exactly the quotes satisfying [`MarketData::valid`];
    /// every rejection is an `InvalidFormat` error.
    pub fn validate(&self) -> (r: Result<(), TradingPlatformError>)
        ensures
            r is Ok <==> self.valid(),
            r is Err ==> r == Err::<(), TradingPlatformError>(
                TradingPlatformError::MarketData(MarketDataError::InvalidFormat),
            ),
    {
        if self.symbol.as_str().is_empty() {
            return Err(TradingPlatformError::MarketData(MarketDataError::InvalidFormat));
        }
        if self.price <= 0 {
            return Err(TradingPlatformError::MarketData(MarketDataError::InvalidFormat));
        }
        if let (Some(high), Some(low)) = (self.day_high, self.day_low) {
            if high < low {
                return Err(TradingPlatformError::MarketData(MarketDataError::InvalidFormat));
            }
            if self.price > high || self.price < low {
                return Err(TradingPlatformError::MarketData(MarketDataError::InvalidFormat));
            }
        }
        Ok(())
    }

    /// True exactly when the magnitude of the percentage change reaches
    /// the threshold (both in percent units).
    pub fn is_significant_change(&self, threshold: i128) -> (r: bool)
        requires
            self.change_percent > i128::MIN,
        ensures
            r == (if self.change_percent >= 0 {
                self.change_percent >= threshold
            } else {
                -self.change_percent >= threshold
            }),
    {
        let magnitude: i128 = if self.change_percent >= 0 {
            self.change_percent
        } else {
            -self.change_percent
        };
        magnitude >= threshold
    }
}

/// One OHLC observation.
#[derive(Debug, Clone, PartialEq)]
pub struct PricePoint {
    /// Unix seconds.
    pub timestamp: i64,
    pub open: i64,
    pub high: i64,
    pub low: i64,
    pub close: i64,
    pub volume: u64,
    pub adjusted_close: Option<i64>,
}

/// The OHLC validity condition: all prices non-negative, and open and
/// close within the low..high range.
pub open spec fn ohlc_valid(open: int, high: int, low: int, close: int) -> bool {
    &&& 0 <= low
    &&& low <= open <= high
    &&& low <= close <= high
}

impl PricePoint {
    /// Field-wise validity of a stored point.
    pub open spec fn valid(self) -> bool {
        ohlc_valid(self.open as int, self.high as int, self.low as int, self.close as int)
    }

    /// Accepts exactly the inputs satisfying [`ohlc_valid`]; every
    /// rejection is an `InvalidFormat` error.
    pub fn new(timestamp: i64, open: i64, high: i64, low: i64, close: i64, volume: u64) -> (r:
        Result<PricePoint, TradingPlatformError>)
        ensures
            r is Ok <==> ohlc_valid(open as int, high as int, low as int, close as int),
            r matches Ok(p) ==> p == (PricePoint {
                timestamp,
                open,
                high,
                low,
                close,
                volume,
                adjusted_close: None,
            }),
            r is Err ==> r == Err::<PricePoint, TradingPlatformError>(
                TradingPlatformError::MarketData(MarketDataError::InvalidFormat),
            ),
    {
        if high < low || open < 0 || close < 0 || high < 0 || low < 0 {
            return Err(TradingPlatformError::MarketData(MarketDataError::InvalidFormat));
        }
        if open > high || open < low || close > high || close < low {
            return Err(TradingPlatformError::MarketData(MarketDataError::InvalidFormat));
        }
        Ok(PricePoint { timestamp, open, high, low, close, volume, adjusted_close: None })
    }

    /// Records an adjusted close.
    pub fn with_adjusted_close(self, adjusted_close: i64) -> (r: PricePoint)
        ensures
            r == (PricePoint { adjusted_close: Some(adjusted_close), ..self }),
    {
        PricePoint { adjusted_close: Some(adjusted_close), ..self }
    }

    /// Mean of high, low and close, rounded down.
    pub fn typical_price(&self) -> (r: i64)
        requires
            self.valid(),
            self.high <= PRICE_MAX,
        ensures
            r == (self.high + self.low + self.close) as int / 3,
    {
        let sum: u128 = self.high as u128 + self.low as u128 + self.close as u128;
        (sum / 3) as i64
    }

    /// Height of the high-low range.
    pub fn price_range(&self) -> (r: i64)
        requires
            self.valid(),
        ensures
            r == self.high - self.low,
    {
        self.high - self.low
    }

    /// Magnitude of the open-to-close move.
    pub fn body_size(&self) -> (r: i64)
        requires
            self.valid(),
        ensures
            r == (if self.close >= self.open {
                self.close - self.open
            } else {
                self.open - self.close
            }),
    {
        if self.close >= self.open {
            self.close - self.open
        } else {
            self.open - self.close
        }
    }

    /// The close lies above the open.
    pub fn is_bullish(&self) -> (r: bool)
        ensures
            r == (self.close > self.open),
    {
        self.close > self.open
    }

    /// The close lies below the open.
    pub fn is_bearish(&self) -> (r: bool)
        ensures
            r == (self.close < self.open),
    {
        self.close < self.open
    }
}

/// The declared span of a historical series.
#[derive(Debug, Clone, Copy, PartialEq, Eq, Structural)]
pub enum TimePeriod {
    OneDay,
    OneWeek,
    OneMonth,
    ThreeMonths,
    SixMonths,
    OneYear,
    TwoYears,
    FiveYears,
    Custom { days: u32 },
}

/// Number of days covered by a period.
pub open spec fn days_of(p: TimePeriod) -> int {
    match p {
        TimePeriod::OneDay => 1,
        TimePeriod::OneWeek => 7,
        TimePeriod::OneMonth => 30,
        TimePeriod::ThreeMonths => 90,
        TimePeriod::SixMonths => 180,
        TimePeriod::OneYear => 365,
        TimePeriod::TwoYears => 730,
        TimePeriod::FiveYears => 1825,
        TimePeriod::Custom { days } => days as int,
    }
}

impl TimePeriod {
    /// Number of days covered by this period.
    pub fn to_days(&self) -> (r: u32)
        ensures
            r == days_of(*self),
    {
        match self {
            TimePeriod::OneDay => 1,
            TimePeriod::OneWeek => 7,
            TimePeriod::OneMonth => 30,
            TimePeriod::ThreeMonths => 90,
            TimePeriod::SixMonths => 180,
            TimePeriod::OneYear => 365,
            TimePeriod::TwoYears => 730,
            TimePeriod::FiveYears => 1825,
            TimePeriod::Custom { days } => *days,
        }
    }
}

/// The closing prices of a series of points.
pub open spec fn closes_of(s: Seq<PricePoint>) -> Seq<i64> {
    Seq::new(s.len(), |i: int| s[i].close)
}

/// All closes within the accepted price range.
pub open spec fn closes_ok(s: Seq<PricePoint>) -> bool {
    forall|i: int| 0 <= i < s.len() ==> price_ok(#[trigger] s[i].close as int)
}

/// Sorted by timestamp, oldest first.
pub open spec fn time_sorted(s: Seq<PricePoint>) -> bool {
    forall|i: int, j: int| 0 <= i <= j < s.len() ==> #[trigger] s[i].timestamp <= #[trigger] s[j].timestamp
}

/// The position at which a point with timestamp `t` is placed when a
/// series is re-sorted stably: after every stored point whose
/// timestamp is at most `t`.
pub open spec fn insertion_index(s: Seq<PricePoint>, t: i64) -> int
    decreases s.len(),
{
    if s.len() == 0 {
        0
    } else if s.last().timestamp <= t {
        s.len() as int
    } else {
        insertion_index(s.drop_last(), t)
    }
}

/// Properties of [`insertion_index`]: it is a position in the series,
/// the point before it (if any) has timestamp at most `t`, and every
/// point from it onward has timestamp above `t`.
pub proof fn lemma_insertion_index_props(s: Seq<PricePoint>, t: i64)
    ensures
        0 <= insertion_index(s, t) <= s.len(),
        insertion_index(s, t) > 0 ==> s[insertion_index(s, t) - 1].timestamp <= t,
        forall|j: int|
            insertion_index(s, t) <= j < s.len() ==> #[trigger] s[j].timestamp > t,
    decreases s.len(),
{
    if s.len() > 0 && s.last().timestamp > t {
        lemma_insertion_index_props(s.drop_last(), t);
        let ii = insertion_index(s, t);
        assert(ii == insertion_index(s.drop_last(), t));
        if ii > 0 {
            assert(s.drop_last()[ii - 1] == s[ii - 1]);
        }
        assert forall|j: int| ii <= j < s.len() implies #[trigger] s[j].timestamp > t by {
            if j < s.len() - 1 {
                assert(s.drop_last()[j] == s[j]);
            } else {
                assert(s.last() == s[j]);
            }
        }
    }
}

/// A symbol's price history over a declared period, kept ordered by
/// timestamp.
#[derive(Debug, Clone, PartialEq)]
pub struct HistoricalData {
    pub symbol: String,
    pub data_points: Vec<PricePoint>,
    pub period: TimePeriod,
    /// Unix seconds.
    pub last_updated: i64,
}

impl HistoricalData {
    /// Builds an empty series.
    pub fn new(symbol: String, period: TimePeriod) -> (r: HistoricalData)
        ensures
            r.symbol == symbol,
            r.period == period,
            r.data_points@.len() == 0,
    {
        HistoricalData { symbol, data_points: Vec::new(), period, last_updated: now_seconds() }
    }

    /// Inserts a point at its stable sorted position (equivalent to
    /// appending and re-sorting by timestamp with a stable sort) and
    /// refreshes the update time.
    pub fn add_price_point(&mut self, price_point: PricePoint)
        ensures
            final(self).data_points@ == old(self).data_points@.insert(
                insertion_index(old(self).data_points@, price_point.timestamp),
                price_point,
            ),
            time_sorted(old(self).data_points@) ==> time_sorted(final(self).data_points@),
            final(self).symbol == old(self).symbol,
            final(self).period == old(self).period,
    {
        let ghost s = self.data_points@;
        let ghost t = price_point.timestamp;
        proof {
            assert(s.subrange(0, s.len() as int) =~= s);
            lemma_insertion_index_props(s, t);
        }
        let mut k: usize = self.data_points.len();
        while k > 0 && self.data_points[k - 1].timestamp > price_point.timestamp
            invariant
                *self == *old(self),
                s == self.data_points@,
                t == price_point.timestamp,
                k <= s.len(),
                insertion_index(s, t) == insertion_index(s.subrange(0, k as int), t),
                insertion_index(s, t) <= k,
            decreases k,
        {
            proof {
                let pre = s.subrange(0, k as int);
                assert(pre.last() == s[k - 1]);
                assert(pre.drop_last() =~= s.subrange(0, k as int - 1));
                lemma_insertion_index_props(s.subrange(0, k as int - 1), t);
            }
            k = k - 1;
        }
        proof {
            let pre = s.subrange(0, k as int);
            if k > 0 {
                assert(pre.last() == s[k - 1]);
            } else {
                assert(pre.len() == 0);
            }
            assert(insertion_index(s, t) == k);
            lemma_insertion_index_props(s, t);
        }
        self.data_points.insert(k, price_point);
        proof {
            let ii = insertion_index(s, t) as int;
            let ns = self.data_points@;
            if time_sorted(s) {
                assert forall|i: int, j: int| 0 <= i <= j < ns.len() implies #[trigger] ns[i].timestamp
                    <= #[trigger] ns[j].timestamp by {
                    if i < ii && j < ii {
                    } else if i > ii && j > ii {
                    } else if i == ii && j == ii {
                    } else if j == ii {
                        // i < ii: ns[i] == s[i] and s[ii - 1] has timestamp <= t
                    } else if i == ii {
                        // j > ii: ns[j] == s[j - 1] with timestamp > t
                    }
                }
            }
        }
        self.last_updated = now_seconds();
    }

    /// The most recent point, if any.
    pub fn get_latest(&self) -> (r: Option<&PricePoint>)
        ensures
            self.data_points@.len() == 0 ==> r is None,
            self.data_points@.len() > 0 ==> (r matches Some(p) && *p == self.data_points@.last()),
    {
        if self.data_points.len() == 0 {
            None
        } else {
            Some(&self.data_points[self.data_points.len() - 1])
        }
    }

    /// The closing prices, oldest first.
    pub fn get_closing_prices(&self) -> (r: Vec<i64>)
        ensures
            r@ == closes_of(self.data_points@),
    {
        let mut r: Vec<i64> = Vec::new();
        let mut i: usize = 0;
        while i < self.data_points.len()
            invariant
                i <= self.data_points@.len(),
                r@.len() == i,
                forall|j: int| 0 <= j < i ==> r@[j] == self.data_points@[j].close,
            decreases self.data_points@.len() - i,
        {
            r.push(self.data_points[i].close);
            i = i + 1;
        }
        proof {
            assert(r@ =~= closes_of(self.data_points@));
        }
        r
    }

    /// The traded volumes, oldest first.
    pub fn get_volumes(&self) -> (r: Vec<u64>)
        ensures
            r@.len() == self.data_points@.len(),
            forall|j: int| 0 <= j < r@.len() ==> r@[j] == self.data_points@[j].volume,
    {
        let mut r: Vec<u64> = Vec::new();
        let mut i: usize = 0;
        while i < self.data_points.len()
            invariant
                i <= self.data_points@.len(),
                r@.len() == i,
                forall|j: int| 0 <= j < i ==> r@[j] == self.data_points@[j].volume,
            decreases self.data_points@.len() - i,
        {
            r.push(self.data_points[i].volume);
            i = i + 1;
        }
        r
    }

    /// Unweighted mean of the last `period` closes, rounded down; None
    /// when the series is shorter than the window or the window is
    /// empty.
    pub fn calculate_simple_moving_average(&self, period: usize) -> (r: Option<i64>)
        requires
            closes_ok(self.data_points@),
        ensures
            r is Some <==> 0 < period <= self.data_points@.len(),
            r matches Some(v) ==> v == sum_range(
                closes_of(self.data_points@),
                self.data_points@.len() - period,
                self.data_points@.len() as int,
            ) / period as int,
    {
        let n = self.data_points.len();
        if period == 0 || n < period {
            return None;
        }
        let ghost cs = closes_of(self.data_points@);
        let start = n - period;
        let mut acc: i128 = 0;
        let mut i: usize = start;
        while i < n
            invariant
                start <= i <= n,
                n == self.data_points@.len(),
                cs == closes_of(self.data_points@),
                closes_ok(self.data_points@),
                acc == sum_range(cs, start as int, i as int),
                0 <= acc <= (i - start) * PRICE_MAX,
            decreases n - i,
        {
            proof {
                lemma_sum_range_snoc(cs, start as int, i as int);
                assert((i + 1 - start) * PRICE_MAX == (i - start) * PRICE_MAX + PRICE_MAX) by (
                nonlinear_arith);
            }
            acc = acc + self.data_points[i].close as i128;
            i = i + 1;
        }
        proof {
            lemma_sum_range_bound(cs, start as int, n as int, PRICE_MAX as int);
            assert(acc / period as i128 == acc as int / period as int);
            assert(0 <= acc as int / period as int <= PRICE_MAX) by (nonlinear_arith)
                requires
                    0 <= acc <= (n - start) * (PRICE_MAX as int),
                    n - start == period,
                    period >= 1,
            ;
        }
        let avg: u128 = (acc as u128) / (period as u128);
        Some(avg as i64)
    }

    /// Whether the series is older than the given age, judged against
    /// the given current time.
    pub fn stale_given(&self, now: i64, max_age_minutes: i64) -> (r: bool)
        ensures
            r == ((now - self.last_updated) / 60 > max_age_minutes),
    {
        let age_minutes: i128 = floor_div(now as i128 - self.last_updated as i128, 60);
        age_minutes > max_age_minutes as i128
    }

    /// Whether the series is older than the given age, judged against
    /// the clock.
    pub fn is_stale(&self, max_age_minutes: i64) -> bool {
        let now = now_seconds();
        self.stale_given(now, max_age_minutes)
    }
}

/// Computed indicator values for one symbol.
#[derive(Debug, Clone, PartialEq)]
pub struct MarketIndicators {
    pub symbol: String,
    /// Unix seconds.
    pub timestamp: i64,
    /// Window length paired with the average's value, one entry per
    /// window.
    pub moving_averages: Vec<(usize, i64)>,
    pub rsi: Option<i64>,
    pub bollinger_bands: Option<BollingerBands>,
    pub volume_average: Option<i64>,
}

/// Bollinger band levels, in units.
#[derive(Debug, Clone, PartialEq, Eq, Structural)]
pub struct BollingerBands {
    pub upper: i64,
    pub middle: i64,
    pub lower: i64,
}

/// The value stored for a window length, scanning from the front.
pub open spec fn ma_lookup(s: Seq<(usize, i64)>, period: usize) -> Option<i64>
    decreases s.len(),
{
    if s.len() == 0 {
        None
    } else if s[0].0 == period {
        Some(s[0].1)
    } else {
        ma_lookup(s.drop_first(), period)
    }
}

impl MarketIndicators {
    /// Builds an empty indicator record; the timestamp is taken from
    /// the clock.
    pub fn new(symbol: String) -> (r: MarketIndicators)
        ensures
            r.symbol == symbol,
            r.moving_averages@.len() == 0,
            r.rsi is None,
            r.bollinger_bands is None,
            r.volume_average is None,
    {
        MarketIndicators {
            symbol,
            timestamp: now_seconds(),
            moving_averages: Vec::new(),
            rsi: None,
            bollinger_bands: None,
            volume_average: None,
        }
    }

    /// Stores the average for a window, replacing any previous value
    /// for the same window.
    pub fn add_moving_average(&mut self, period: usize, value: i64)
        ensures
            ma_lookup(final(self).moving_averages@, period) == Some(value),
            forall|q: usize|
                q != period ==> #[trigger] ma_lookup(final(self).moving_averages@, q) == ma_lookup(
                    old(self).moving_averages@,
                    q,
                ),
            final(self).symbol == old(self).symbol,
            final(self).timestamp == old(self).timestamp,
            final(self).rsi == old(self).rsi,
            final(self).bollinger_bands == old(self).bollinger_bands,
            final(self).volume_average == old(self).volume_average,
    {
        let ghost s0 = self.moving_averages@;
        let n = self.moving_averages.len();
        let mut i: usize = 0;
        while i < n
            invariant
                *self == *old(self),
                s0 == self.moving_averages@,
                i <= n,
                n == s0.len(),
                forall|j: int| 0 <= j < i ==> (#[trigger] s0[j]).0 != period,
            decreases n - i,
        {
            if self.moving_averages[i].0 == period {
                self.moving_averages.set(i, (period, value));
                proof {
                    lemma_ma_lookup_update(s0, i as int, period, value);
                }
                return ;
            }
            i = i + 1;
        }
        self.moving_averages.push((period, value));
        proof {
            lemma_ma_lookup_push(s0, period, value);
        }
    }

    /// The stored average for a window, if any.
    pub fn get_moving_average(&self, period: usize) -> (r: Option<i64>)
        ensures
            r == ma_lookup(self.moving_averages@, period),
    {
        let n = self.moving_averages.len();
        proof {
            assert(self.moving_averages@.subrange(0, n as int) =~= self.moving_averages@);
        }
        let mut i: usize = 0;
        while i < n
            invariant
                i <= n,
                n == self.moving_averages@.len(),
                ma_lookup(self.moving_averages@, period) == ma_lookup(
                    self.moving_averages@.subrange(i as int, n as int),
                    period,
                ),
                forall|j: int| 0 <= j < i ==> (#[trigger] self.moving_averages@[j]).0 != period,
            decreases n - i,
        {
            proof {
                let rest = self.moving_averages@.subrange(i as int, n as int);
                assert(rest[0] == self.moving_averages@[i as int]);
                assert(rest.drop_first() =~= self.moving_averages@.subrange(i as int + 1, n as int));
            }
            if self.moving_averages[i].0 == period {
                return Some(self.moving_averages[i].1);
            }
            i = i + 1;
        }
        proof {
            assert(self.moving_averages@.subrange(n as int, n as int).len() == 0);
        }
        None
    }
}

/// Updating the first entry holding `period` to `value` changes the
/// lookup for `period` alone, provided no earlier entry holds it.
proof fn lemma_ma_lookup_update(s: Seq<(usize, i64)>, i: int, period: usize, value: i64)
    requires
        0 <= i < s.len(),
        s[i].0 == period,
        forall|j: int| 0 <= j < i ==> (#[trigger] s[j]).0 != period,
    ensures
        ma_lookup(s.update(i, (period, value)), period) == Some(value),
        forall|q: usize|
            q != period ==> #[trigger] ma_lookup(s.update(i, (period, value)), q) == ma_lookup(s, q),
    decreases s.len(),
{
    let t = s.update(i, (period, value));
    if i == 0 {
        assert(t[0] == (period, value));
        assert(ma_lookup(t, period) == Some(value));
        assert forall|q: usize| q != period implies #[trigger] ma_lookup(t, q) == ma_lookup(s, q) by {
            assert(t.drop_first() =~= s.drop_first());
            assert(ma_lookup(t, q) == ma_lookup(t.drop_first(), q));
            assert(ma_lookup(s, q) == ma_lookup(s.drop_first(), q));
        }
    } else {
        lemma_ma_lookup_update(s.drop_first(), i - 1, period, value);
        assert(t.drop_first() =~= s.drop_first().update(i - 1, (period, value)));
        assert(t[0] == s[0]);
        assert(t[0].0 != period);
        assert(ma_lookup(t, period) == ma_lookup(t.drop_first(), period));
        assert(ma_lookup(t, period) == Some(value));
        assert forall|q: usize| q != period implies #[trigger] ma_lookup(t, q) == ma_lookup(s, q) by {
            if t[0].0 == q {
            } else {
                assert(ma_lookup(t, q) == ma_lookup(t.drop_first(), q));
                assert(ma_lookup(s, q) == ma_lookup(s.drop_first(), q));
            }
        }
    }
}

/// Appending an entry for a window absent from the sequence changes
/// the lookup for that window alone.
proof fn lemma_ma_lookup_push(s: Seq<(usize, i64)>, period: usize, value: i64)
    requires
        forall|j: int| 0 <= j < s.len() ==> (#[trigger] s[j]).0 != period,
    ensures
        ma_lookup(s.push((period, value)), period) == Some(value),
        forall|q: usize|
            q != period ==> #[trigger] ma_lookup(s.push((period, value)), q) == ma_lookup(s, q),
    decreases s.len(),
{
    let t = s.push((period, value));
    if s.len() == 0 {
        assert(t[0] == (period, value));
        assert(ma_lookup(t, period) == Some(value));
        assert forall|q: usize| q != period implies #[trigger] ma_lookup(t, q) == ma_lookup(s, q) by {
            assert(t.drop_first() =~= Seq::<(usize, i64)>::empty());
            assert(ma_lookup(t, q) == ma_lookup(t.drop_first(), q));
            assert(ma_lookup(t.drop_first(), q) is None);
            assert(ma_lookup(s, q) is None);
        }
    } else {
        lemma_ma_lookup_push(s.drop_first(), period, value);
        assert(t[0] == s[0]);
        assert(t[0].0 != period);
        assert(t.drop_first() =~= s.drop_first().push((period, value)));
        assert(ma_lookup(t, period) == ma_lookup(t.drop_first(), period));
        assert(ma_lookup(t, period) == Some(value));
        assert forall|q: usize| q != period implies #[trigger] ma_lookup(t, q) == ma_lookup(s, q) by {
            if t[0].0 == q {
            } else {
                assert(ma_lookup(t, q) == ma_lookup(t.drop_first(), q));
                assert(ma_lookup(s, q) == ma_lookup(s.drop_first(), q));
            }
        }
    }
}

/// Exchange session status.
#[derive(Debug, Clone, PartialEq, Eq, Structural)]
pub enum MarketStatus {
    Open,
    Closed,
    PreMarket,
    AfterHours,
    Holiday,
}

impl Default for MarketStatus {
    /// The default status is `Closed`.
    fn default() -> (r: MarketStatus)
        ensures
            r == MarketStatus::Closed,
    {
        MarketStatus::Closed
    }
}

/// A one-line summary of a symbol's current state.
#[derive(Debug, Clone, PartialEq)]
pub struct MarketSummary {
    pub symbol: String,
    pub current_price: i64,
    pub daily_change: i64,
    pub daily_change_percent: i128,
    pub volume: u64,
    pub market_status: MarketStatus,
    /// Unix seconds.
    pub last_trade_time: i64,
}

} // verus!
