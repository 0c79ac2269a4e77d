//! A deterministic-when-seeded mock market-data provider.
//!
//! It serves pseudo-random quotes and histories over a symbol-to-base
//! price table, never fails except through an explicit health toggle,
//! and is the fault-injection counterpart of the live provider.

use vstd::prelude::*;

verus! {

use crate::amount::{floor_div, PRICE_MAX, SCALE};
use crate::data::{pct_of, HistoricalData, MarketData, PricePoint, TimePeriod};
use crate::error::{MarketDataError, TradingPlatformError};
use crate::market::RateLimitInfo;
use crate::performance::{lookup_price, price_lookup};
use crate::runtime::{now_seconds, rng_from_entropy, rng_range_i64, rng_range_u64, rng_seed_from_u64};

/// Smallest price the mock ever quotes, in units (one hundredth of a
/// whole).
pub const MOCK_MIN_PRICE: i64 = 100;

/// Largest base price the mock accepts, in units; a five percent
/// upward swing then still stays below the global price bound.
pub const MOCK_BASE_MAX: i64 = 900_000_000_000;

/// Bound on clock readings used for generated timestamps, in Unix
/// seconds.
pub const MOCK_CLOCK_MAX_S: i64 = 4_000_000_000_000;

/// Mock market data provider for development and fault-injection
/// testing.
pub struct MockMarketDataProvider {
    pub rng: rand::rngs::StdRng,
    /// Symbol-to-base-price table, at most one entry per symbol.
    pub base_prices: Vec<(String, i64)>,
    pub healthy: bool,
}

/// Every base price positive and within the mock's bound, and at most
/// one entry per symbol.
pub open spec fn table_wf(s: Seq<(String, i64)>) -> bool {
    &&& forall|i: int| 0 <= i < s.len() ==> 0 < (#[trigger] s[i]).1 <= MOCK_BASE_MAX
    &&& forall|i: int, j: int| 0 <= i < j < s.len() ==> (#[trigger] s[i]).0@ != (#[trigger] s[j]).0@
}

/// The price quoted for a base price under a drawn variation `v` (in
/// twentieths of a percent): the base moved by `v`, floored to the
/// unit grid and clamped up to the mock's minimum.
pub open spec fn varied_price(base: int, v: int) -> int {
    let moved = base + (base * v) / (SCALE as int);
    if moved < MOCK_MIN_PRICE {
        MOCK_MIN_PRICE as int
    } else {
        moved
    }
}

/// The shape of every quote the mock serves for a symbol known to
/// `table`: the symbol echoed back, a price within five percent of
/// the base price (never below the minimum), a plausible volume, the
/// base price as previous close with the exact change and percentage
/// against it, and a two-percent day range around the price.
pub open spec fn mock_quote_ok(table: Seq<(String, i64)>, sym: Seq<char>, md: MarketData) -> bool {
    match price_lookup(table, sym) {
        Some(base) => {
            &&& md.symbol@ == sym
            &&& MOCK_MIN_PRICE <= md.price <= PRICE_MAX
            &&& (exists|v: int| -500 <= v < 500 && md.price == varied_price(base as int, v))
            &&& 100_000 <= md.volume < 10_000_000
            &&& md.previous_close == Some(base)
            &&& md.change == md.price - base
            &&& md.change_percent == pct_of(md.price - base, base as int)
            &&& md.day_high == Some(((md.price * 102) / 100) as i64)
            &&& md.day_low == Some(((md.price * 98) / 100) as i64)
            &&& (sym.len() > 0 ==> md.valid())
        },
        None => false,
    }
}

/// Number of points and spacing (in seconds) of a generated history.
pub open spec fn mock_points_of(period: TimePeriod) -> (int, int) {
    match period {
        TimePeriod::OneDay => (96int, 900int),
        TimePeriod::OneWeek => (168int, 3600int),
        TimePeriod::OneMonth => (30int, 86400int),
        TimePeriod::ThreeMonths => (90int, 86400int),
        TimePeriod::SixMonths => (180int, 86400int),
        TimePeriod::OneYear => (252int, 86400int),
        TimePeriod::TwoYears => (104int, 604800int),
        TimePeriod::FiveYears => (60int, 2592000int),
        TimePeriod::Custom { days } => (if days <= 365 {
            if days == 0 {
                0int
            } else {
                days as int
            }
        } else {
            365int
        }, 86400int),
    }
}

impl MockMarketDataProvider {
    /// The provider's table is well-formed.
    pub open spec fn wf(self) -> bool {
        table_wf(self.base_prices@)
    }

    /// Builds a mock over eight well-known symbols, seeded from
    /// system entropy and healthy.
    pub fn new() -> (r: MockMarketDataProvider)
        ensures
            r.healthy,
            r.base_prices@.len() == 8,
            price_lookup(r.base_prices@, "AAPL"@) == Some(1_500_000i64),
            price_lookup(r.base_prices@, "GOOGL"@) == Some(28_000_000i64),
            price_lookup(r.base_prices@, "MSFT"@) == Some(3_000_000i64),
            price_lookup(r.base_prices@, "TSLA"@) == Some(8_000_000i64),
            price_lookup(r.base_prices@, "AMZN"@) == Some(32_000_000i64),
            price_lookup(r.base_prices@, "META"@) == Some(3_200_000i64),
            price_lookup(r.base_prices@, "NVDA"@) == Some(4_500_000i64),
            price_lookup(r.base_prices@, "NFLX"@) == Some(4_000_000i64),
            r.wf(),
    {
        let mut base_prices: Vec<(String, i64)> = Vec::new();
        base_prices.push((String::from_str("AAPL"), 150 * SCALE));
        base_prices.push((String::from_str("GOOGL"), 2800 * SCALE));
        base_prices.push((String::from_str("MSFT"), 300 * SCALE));
        base_prices.push((String::from_str("TSLA"), 800 * SCALE));
        base_prices.push((String::from_str("AMZN"), 3200 * SCALE));
        base_prices.push((String::from_str("META"), 320 * SCALE));
        base_prices.push((String::from_str("NVDA"), 450 * SCALE));
        base_prices.push((String::from_str("NFLX"), 400 * SCALE));
        proof {
            reveal_strlit("AAPL");
            reveal_strlit("GOOGL");
            reveal_strlit("MSFT");
            reveal_strlit("TSLA");
            reveal_strlit("AMZN");
            reveal_strlit("META");
            reveal_strlit("NVDA");
            reveal_strlit("NFLX");
            let t = base_prices@;
            assert(t[0].0@ == "AAPL"@);
            assert(t[1].0@ == "GOOGL"@);
            assert(t[2].0@ == "MSFT"@);
            assert(t[3].0@ == "TSLA"@);
            assert(t[4].0@ == "AMZN"@);
            assert(t[5].0@ == "META"@);
            assert(t[6].0@ == "NVDA"@);
            assert(t[7].0@ == "NFLX"@);
            assert("AAPL"@[0] == 'A' && "AAPL"@[1] == 'A');
            assert("GOOGL"@.len() == 5);
            assert("MSFT"@[0] == 'M' && "MSFT"@[1] == 'S');
            assert("TSLA"@[0] == 'T' && "TSLA"@[1] == 'S');
            assert("AMZN"@[0] == 'A' && "AMZN"@[1] == 'M');
            assert("META"@[0] == 'M' && "META"@[1] == 'E');
            assert("NVDA"@[0] == 'N' && "NVDA"@[1] == 'V');
            assert("NFLX"@[0] == 'N' && "NFLX"@[1] == 'F');
            lemma_table_lookup(t, 0);
            lemma_table_lookup(t, 1);
            lemma_table_lookup(t, 2);
            lemma_table_lookup(t, 3);
            lemma_table_lookup(t, 4);
            lemma_table_lookup(t, 5);
            lemma_table_lookup(t, 6);
            lemma_table_lookup(t, 7);
        }
        MockMarketDataProvider { rng: rng_from_entropy(), base_prices, healthy: true }
    }

    /// Builds a mock over three well-known symbols with a fixed seed
    /// for deterministic testing.
    pub fn new_with_seed(seed: u64) -> (r: MockMarketDataProvider)
        ensures
            r.healthy,
            r.base_prices@.len() == 3,
            price_lookup(r.base_prices@, "AAPL"@) == Some(1_500_000i64),
            price_lookup(r.base_prices@, "GOOGL"@) == Some(28_000_000i64),
            price_lookup(r.base_prices@, "MSFT"@) == Some(3_000_000i64),
            r.wf(),
    {
        let mut base_prices: Vec<(String, i64)> = Vec::new();
        base_prices.push((String::from_str("AAPL"), 150 * SCALE));
        base_prices.push((String::from_str("GOOGL"), 2800 * SCALE));
        base_prices.push((String::from_str("MSFT"), 300 * SCALE));
        proof {
            reveal_strlit("AAPL");
            reveal_strlit("GOOGL");
            reveal_strlit("MSFT");
            let t = base_prices@;
            assert(t[0].0@ == "AAPL"@);
            assert(t[1].0@ == "GOOGL"@);
            assert(t[2].0@ == "MSFT"@);
            assert("AAPL"@[0] == 'A');
            assert("GOOGL"@.len() == 5);
            assert("MSFT"@[0] == 'M');
            lemma_table_lookup(t, 0);
            lemma_table_lookup(t, 1);
            lemma_table_lookup(t, 2);
        }
        MockMarketDataProvider { rng: rng_seed_from_u64(seed), base_prices, healthy: true }
    }

    /// Toggles the health flag used for fault-injection.
    pub fn set_health_status(&mut self, healthy: bool)
        ensures
            final(self).healthy == healthy,
            final(self).base_prices == old(self).base_prices,
    {
        self.healthy = healthy;
    }

    /// Adds or replaces the base price for a symbol.
    pub fn set_base_price(&mut self, symbol: &str, price: i64)
        requires
            old(self).wf(),
            0 < price <= MOCK_BASE_MAX,
        ensures
            price_lookup(final(self).base_prices@, symbol@) == Some(price),
            forall|q: Seq<char>|
                q != symbol@ ==> #[trigger] price_lookup(final(self).base_prices@, q)
                    == price_lookup(old(self).base_prices@, q),
            final(self).healthy == old(self).healthy,
            final(self).wf(),
    {
        let ghost s0 = self.base_prices@;
        let sym = symbol.to_owned();
        let n = self.base_prices.len();
        let mut i: usize = 0;
        while i < n
            invariant
                i <= n,
                n == s0.len(),
                s0 == self.base_prices@,
                s0 == old(self).base_prices@,
                sym@ == symbol@,
                forall|j: int| 0 <= j < i ==> (#[trigger] s0[j]).0@ != symbol@,
                self.healthy == old(self).healthy,
                table_wf(s0),
                0 < price <= MOCK_BASE_MAX,
            decreases n - i,
        {
            if self.base_prices[i].0 == sym {
                self.base_prices.set(i, (sym, price));
                proof {
                    let upd = self.base_prices@[i as int];
                    assert(self.base_prices@ =~= s0.update(i as int, upd));
                    lemma_price_lookup_update(s0, i as int, symbol@, upd);
                    assert forall|a: int, b: int|
                        0 <= a < b < self.base_prices@.len() implies (
                    #[trigger] self.base_prices@[a]).0@ != (#[trigger] self.base_prices@[b]).0@ by {
                        assert(s0[a].0@ != s0[b].0@);
                    }
                    assert forall|a: int|
                        0 <= a < self.base_prices@.len() implies 0 < (
                    #[trigger] self.base_prices@[a]).1 <= MOCK_BASE_MAX by {
                        assert(0 < s0[a].1 <= MOCK_BASE_MAX);
                    }
                    assert forall|q: Seq<char>|
                        q != symbol@ implies #[trigger] price_lookup(self.base_prices@, q)
                        == price_lookup(s0, q) by {
                        assert(self.base_prices@ == s0.update(i as int, upd));
                    }
                }
                return ;
            }
            i = i + 1;
        }
        self.base_prices.push((sym, price));
        proof {
            let pushed = self.base_prices@.last();
            lemma_price_lookup_push_one(s0, symbol@, pushed);
            assert forall|a: int, b: int|
                0 <= a < b < self.base_prices@.len() implies (
            #[trigger] self.base_prices@[a]).0@ != (#[trigger] self.base_prices@[b]).0@ by {
                if b < s0.len() {
                    assert(s0[a].0@ != s0[b].0@);
                } else {
                    assert(self.base_prices@[b] == pushed);
                    assert(s0[a].0@ != symbol@);
                }
            }
            assert forall|a: int|
                0 <= a < self.base_prices@.len() implies 0 < (
            #[trigger] self.base_prices@[a]).1 <= MOCK_BASE_MAX by {
                if a < s0.len() {
                    assert(0 < s0[a].1 <= MOCK_BASE_MAX);
                }
            }
        }
    }

    /// Quotes a price near the base price: within five percent of it
    /// (some drawn variation of at most five hundred fixed-point
    /// twentieths applied to the base), and never below the mock's
    /// minimum.
    fn generate_price_variation(&mut self, base_price: i64) -> (r: i64)
        requires
            0 < base_price <= MOCK_BASE_MAX,
        ensures
            MOCK_MIN_PRICE <= r <= PRICE_MAX,
            exists|v: int| -500 <= v < 500 && r == varied_price(base_price as int, v),
            final(self).base_prices == old(self).base_prices,
            final(self).healthy == old(self).healthy,
    {
        let variation_units = rng_range_i64(&mut self.rng, -(SCALE / 20), SCALE / 20);
        proof {
            assert(-(MOCK_BASE_MAX as int) * 500 <= base_price as int * variation_units as int
                <= MOCK_BASE_MAX as int * 500) by (nonlinear_arith)
                requires
                    0 < base_price as int <= MOCK_BASE_MAX,
                    -500 <= variation_units as int,
                    (variation_units as int) < 500,
            ;
            assert(base_price as int * variation_units as int / SCALE as int
                <= MOCK_BASE_MAX as int * 500 / SCALE as int) by (nonlinear_arith)
                requires
                    base_price as int * variation_units as int <= MOCK_BASE_MAX as int * 500,
                    SCALE as int > 0,
            ;
            assert(-(MOCK_BASE_MAX as int * 500 / SCALE as int) - 1 <= base_price as int
                * variation_units as int / SCALE as int) by (nonlinear_arith)
                requires
                    -(MOCK_BASE_MAX as int) * 500 <= base_price as int * variation_units as int,
                    SCALE as int > 0,
            ;
        }
        let variation: i64 = floor_div(
            base_price as i128 * variation_units as i128,
            SCALE as i128,
        ) as i64;
        let moved = base_price + variation;
        let quoted = if moved < MOCK_MIN_PRICE {
            MOCK_MIN_PRICE
        } else {
            moved
        };
        proof {
            assert(-500 <= variation_units as int && (variation_units as int) < 500 && quoted
                == varied_price(base_price as int, variation_units as int));
        }
        quoted
    }

    /// Draws a plausible traded volume.
    fn generate_volume(&mut self) -> (r: u64)
        ensures
            100_000 <= r < 10_000_000,
            final(self).base_prices == old(self).base_prices,
            final(self).healthy == old(self).healthy,
    {
        rng_range_u64(&mut self.rng, 100_000, 10_000_000)
    }

    /// Serves a quote: fails with `ProviderUnavailable` when toggled
    /// unhealthy, with `SymbolNotFound` for a symbol missing from the
    /// table; otherwise the quote carries a price within five percent
    /// of the base price, the base price as previous close, the exact
    /// change against it, and a two-percent day range around the
    /// price.
    pub fn get_current_price(&mut self, symbol: &str) -> (r: Result<
        MarketData,
        TradingPlatformError,
    >)
        requires
            old(self).wf(),
        ensures
            !old(self).healthy <==> r == Err::<MarketData, TradingPlatformError>(
                TradingPlatformError::MarketData(MarketDataError::ProviderUnavailable),
            ),
            old(self).healthy && price_lookup(old(self).base_prices@, symbol@) is None ==> (r
                matches Err(TradingPlatformError::MarketData(MarketDataError::SymbolNotFound(s)))
                && s@ == symbol@),
            old(self).healthy && price_lookup(old(self).base_prices@, symbol@) is Some ==> (r
                matches Ok(md) && mock_quote_ok(old(self).base_prices@, symbol@, md)),
            final(self).base_prices == old(self).base_prices,
            final(self).healthy == old(self).healthy,
    {
        if !self.healthy {
            return Err(TradingPlatformError::MarketData(MarketDataError::ProviderUnavailable));
        }
        let sym = symbol.to_owned();
        let base_price = match lookup_price(&self.base_prices, &sym) {
            Some(p) => p,
            None => {
                return Err(TradingPlatformError::MarketData(
                    MarketDataError::SymbolNotFound(symbol.to_owned()),
                ));
            },
        };
        proof {
            lemma_price_lookup_positive(self.base_prices@, symbol@);
        }
        let current_price = self.generate_price_variation(base_price);
        let volume = self.generate_volume();
        let market_data = MarketData::new(symbol.to_owned(), current_price, volume);
        let market_data = market_data.with_change(base_price);
        let day_high: i64 = ((current_price as u128 * 102) / 100) as i64;
        let day_low: i64 = ((current_price as u128 * 98) / 100) as i64;
        proof {
            assert(day_low <= current_price <= day_high) by (nonlinear_arith)
                requires
                    day_low == current_price as int * 98 / 100,
                    day_high == current_price as int * 102 / 100,
                    0 < current_price as int <= PRICE_MAX,
            ;
        }
        let market_data = market_data.with_day_range(day_high, day_low);
        proof {
            let v = choose|v: int|
                -500 <= v < 500 && current_price == varied_price(base_price as int, v);
            assert(-500 <= v < 500 && market_data.price == varied_price(base_price as int, v));
        }
        Ok(market_data)
    }

    /// Serves a generated history: the same failure rules as
    /// [`MockMarketDataProvider::get_current_price`], and otherwise
    /// guaranteed success — every generated candle is a valid OHLC
    /// row, so the series carries the requested symbol and period,
    /// is ordered by timestamp, holds only valid points, and has
    /// exactly the period's point count.  Only a period covering no
    /// points at all is an `InsufficientHistoricalData` error.
    pub fn get_historical_data(&mut self, symbol: &str, period: TimePeriod) -> (r: Result<
        HistoricalData,
        TradingPlatformError,
    >)
        requires
            old(self).wf(),
        ensures
            !old(self).healthy <==> r == Err::<HistoricalData, TradingPlatformError>(
                TradingPlatformError::MarketData(MarketDataError::ProviderUnavailable),
            ),
            old(self).healthy && price_lookup(old(self).base_prices@, symbol@) is None ==> (r
                matches Err(TradingPlatformError::MarketData(MarketDataError::SymbolNotFound(s)))
                && s@ == symbol@),
            old(self).healthy && price_lookup(old(self).base_prices@, symbol@) is Some ==> (if
                mock_points_of(period).0 == 0 {
                r matches Err(TradingPlatformError::MarketData(
                    MarketDataError::InsufficientHistoricalData(s),
                )) && s@ == symbol@
            } else {
                r matches Ok(h) && {
                    &&& h.symbol@ == symbol@
                    &&& h.period == period
                    &&& crate::data::time_sorted(h.data_points@)
                    &&& h.data_points@.len() == mock_points_of(period).0
                    &&& forall|i: int|
                        0 <= i < h.data_points@.len() ==> (#[trigger] h.data_points@[i]).valid()
                }
            }),
            final(self).base_prices == old(self).base_prices,
            final(self).healthy == old(self).healthy,
    {
        if !self.healthy {
            return Err(TradingPlatformError::MarketData(MarketDataError::ProviderUnavailable));
        }
        let sym = symbol.to_owned();
        let base_price = match lookup_price(&self.base_prices, &sym) {
            Some(p) => p,
            None => {
                return Err(TradingPlatformError::MarketData(
                    MarketDataError::SymbolNotFound(symbol.to_owned()),
                ));
            },
        };
        proof {
            lemma_price_lookup_positive(self.base_prices@, symbol@);
        }
        let (num_points, interval_secs) = mock_schedule(period);
        let now_raw = now_seconds();
        let now: i64 = if now_raw < 0 {
            0
        } else if now_raw > MOCK_CLOCK_MAX_S {
            MOCK_CLOCK_MAX_S
        } else {
            now_raw
        };
        proof {
            assert(0 <= interval_secs as int * num_points as int <= 1_000_000_000) by (
            nonlinear_arith)
                requires
                    1 <= interval_secs as int <= 2_592_000,
                    0 <= num_points as int <= 365,
            ;
        }
        let start_time: i64 = now - interval_secs * num_points as i64;
        let mut historical_data = HistoricalData::new(symbol.to_owned(), period);
        let mut current_price = base_price;
        let mut i: u32 = 0;
        while i < num_points
            invariant
                i <= num_points,
                num_points == mock_points_of(period).0,
                num_points <= 365,
                1 <= interval_secs <= 2_592_000,
                -(4_000_000_000_000_000int) <= start_time <= MOCK_CLOCK_MAX_S,
                0 < current_price <= MOCK_BASE_MAX,
                historical_data.symbol@ == symbol@,
                historical_data.period == period,
                historical_data.data_points@.len() == i,
                crate::data::time_sorted(historical_data.data_points@),
                forall|k: int|
                    0 <= k < historical_data.data_points@.len() ==> (
                    #[trigger] historical_data.data_points@[k]).valid(),
                self.base_prices == old(self).base_prices,
                self.healthy == old(self).healthy,
            decreases num_points - i,
        {
            proof {
                assert(0 <= interval_secs as int * i as int <= 1_000_000_000) by (nonlinear_arith)
                    requires
                        1 <= interval_secs as int <= 2_592_000,
                        0 <= i as int <= 365,
                ;
            }
            let timestamp: i64 = start_time + interval_secs * i as i64;
            let step = rng_range_i64(&mut self.rng, -(SCALE / 50), SCALE / 50);
            proof {
                lemma_scaled_move_bounds(current_price as int, step as int);
            }
            let moved: i64 = current_price + floor_div(
                current_price as i128 * step as i128,
                SCALE as i128,
            ) as i64;
            current_price = if moved < MOCK_MIN_PRICE {
                MOCK_MIN_PRICE
            } else if moved > MOCK_BASE_MAX {
                MOCK_BASE_MAX
            } else {
                moved
            };
            let volatility = rng_range_i64(&mut self.rng, SCALE / 200, SCALE / 50);
            proof {
                lemma_scaled_move_bounds(current_price as int, volatility as int);
                lemma_scaled_move_bounds(current_price as int, -(volatility as int));
            }
            let high: i64 = current_price + floor_div(
                current_price as i128 * volatility as i128,
                SCALE as i128,
            ) as i64;
            let low: i64 = current_price + floor_div(
                current_price as i128 * (-(volatility as i128)),
                SCALE as i128,
            ) as i64;
            let open_factor = rng_range_i64(&mut self.rng, SCALE - SCALE / 200, SCALE + SCALE / 200);
            proof {
                lemma_scaled_open_bounds(current_price as int, open_factor as int);
            }
            let open: i64 = floor_div(
                current_price as i128 * open_factor as i128,
                SCALE as i128,
            ) as i64;
            let close = current_price;
            let volume = self.generate_volume();
            proof {
                lemma_generated_candle_valid(
                    current_price as int,
                    volatility as int,
                    open_factor as int,
                );
            }
            match PricePoint::new(timestamp, open, high, low, close, volume) {
                Ok(price_point) => {
                    let ghost pre = historical_data.data_points@;
                    proof {
                        crate::data::lemma_insertion_index_props(pre, price_point.timestamp);
                    }
                    historical_data.add_price_point(price_point);
                    proof {
                        let ii = crate::data::insertion_index(pre, price_point.timestamp);
                        let ns = historical_data.data_points@;
                        assert(ns.len() == pre.len() + 1);
                        assert forall|k: int| 0 <= k < ns.len() implies (#[trigger] ns[k]).valid() by {
                            if k < ii {
                                assert(ns[k] == pre[k]);
                            } else if k == ii {
                                assert(ns[k] == price_point);
                            } else {
                                assert(ns[k] == pre[k - 1]);
                            }
                        }
                    }
                },
                Err(_) => {
                    proof {
                        // the candle lemma rules this arm out
                        assert(false);
                    }
                },
            }
            i = i + 1;
        }
        if historical_data.data_points.len() == 0 {
            return Err(TradingPlatformError::MarketData(
                MarketDataError::InsufficientHistoricalData(symbol.to_owned()),
            ));
        }
        Ok(historical_data)
    }

    /// Best-effort quotes for several symbols: per-symbol failures
    /// are swallowed and omitted; the result holds one entry per
    /// requested symbol the table knows, in request order, each with
    /// a quote of the shape [`mock_quote_ok`] describes; it is an
    /// error only when every symbol failed (`NoDataAvailable`, which
    /// also covers an unhealthy provider, where every symbol fails).
    pub fn get_multiple_prices(&mut self, symbols: &Vec<String>) -> (r: Result<
        Vec<(String, MarketData)>,
        TradingPlatformError,
    >)
        requires
            old(self).wf(),
        ensures
            r matches Ok(v) ==> 1 <= v@.len() <= symbols@.len(),
            r matches Err(e) ==> e matches TradingPlatformError::MarketData(
                MarketDataError::NoDataAvailable(_),
            ),
            !old(self).healthy ==> r is Err,
            old(self).healthy ==> {
                let ks = known_symbols_upto(
                    old(self).base_prices@,
                    symbols@,
                    symbols@.len() as int,
                );
                &&& (r is Ok <==> ks.len() > 0)
                &&& (r matches Ok(v) ==> v@.len() == ks.len() && forall|k: int|
                    0 <= k < v@.len() ==> (#[trigger] v@[k]).0@ == ks[k] && mock_quote_ok(
                        old(self).base_prices@,
                        v@[k].0@,
                        v@[k].1,
                    ))
            },
            final(self).base_prices == old(self).base_prices,
            final(self).healthy == old(self).healthy,
    {
        let mut results: Vec<(String, MarketData)> = Vec::new();
        let mut i: usize = 0;
        while i < symbols.len()
            invariant
                i <= symbols@.len(),
                self.wf(),
                self.base_prices == old(self).base_prices,
                self.healthy == old(self).healthy,
                results@.len() <= i,
                !old(self).healthy ==> results@.len() == 0,
                old(self).healthy ==> {
                    let ks = known_symbols_upto(old(self).base_prices@, symbols@, i as int);
                    &&& results@.len() == ks.len()
                    &&& forall|k: int|
                        0 <= k < results@.len() ==> (#[trigger] results@[k]).0@ == ks[k]
                            && mock_quote_ok(
                            old(self).base_prices@,
                            results@[k].0@,
                            results@[k].1,
                        )
                },
            decreases symbols@.len() - i,
        {
            let symbol = &symbols[i];
            match self.get_current_price(symbol.as_str()) {
                Ok(market_data) => {
                    results.push((symbol.clone(), market_data));
                },
                Err(_) => {},
            }
            i = i + 1;
        }
        if results.len() == 0 {
            return Err(TradingPlatformError::MarketData(
                MarketDataError::NoDataAvailable(String::from_str(
                    "No data available for any symbol",
                )),
            ));
        }
        Ok(results)
    }

    /// Reports the health toggle: `Ok` exactly when healthy.
    pub fn health_check(&self) -> (r: Result<(), TradingPlatformError>)
        ensures
            r is Ok <==> self.healthy,
            r is Err ==> r == Err::<(), TradingPlatformError>(
                TradingPlatformError::MarketData(MarketDataError::ProviderUnavailable),
            ),
    {
        if self.healthy {
            Ok(())
        } else {
            Err(TradingPlatformError::MarketData(MarketDataError::ProviderUnavailable))
        }
    }

    /// The provider's display name.
    pub fn provider_name(&self) -> (r: String)
        ensures
            r@ == "Mock Provider"@,
    {
        String::from_str("Mock Provider")
    }

    /// The mock's generous request quota.
    pub fn rate_limit_info(&self) -> (r: RateLimitInfo)
        ensures
            r.requests_per_minute == 1000,
            r.requests_per_hour == 60000,
            r.current_usage == 0,
            r.reset_time is None,
    {
        RateLimitInfo {
            requests_per_minute: 1000,
            requests_per_hour: 60000,
            current_usage: 0,
            reset_time: None,
        }
    }
}

impl Default for MockMarketDataProvider {
    /// The default mock is the entropy-seeded one over the full
    /// symbol table.
    fn default() -> (r: MockMarketDataProvider)
        ensures
            r.healthy,
            r.base_prices@.len() == 8,
            r.wf(),
    {
        MockMarketDataProvider::new()
    }
}

/// The first `i` requested symbols that the table knows, in request
/// order.
pub open spec fn known_symbols_upto(
    table: Seq<(String, i64)>,
    syms: Seq<String>,
    i: int,
) -> Seq<Seq<char>>
    decreases i,
{
    if i <= 0 {
        Seq::empty()
    } else if price_lookup(table, syms[i - 1]@) is Some {
        known_symbols_upto(table, syms, i - 1).push(syms[i - 1]@)
    } else {
        known_symbols_upto(table, syms, i - 1)
    }
}

/// Computes [`mock_points_of`] for a period.
fn mock_schedule(period: TimePeriod) -> (r: (u32, i64))
    ensures
        r.0 == mock_points_of(period).0,
        r.1 == mock_points_of(period).1,
        r.0 <= 365,
        1 <= r.1 <= 2_592_000,
{
    match period {
        TimePeriod::OneDay => (96, 900),
        TimePeriod::OneWeek => (168, 3600),
        TimePeriod::OneMonth => (30, 86400),
        TimePeriod::ThreeMonths => (90, 86400),
        TimePeriod::SixMonths => (180, 86400),
        TimePeriod::OneYear => (252, 86400),
        TimePeriod::TwoYears => (104, 604800),
        TimePeriod::FiveYears => (60, 2592000),
        TimePeriod::Custom { days } => {
            let capped: u32 = if days > 365 {
                365
            } else {
                days
            };
            (capped, 86400)
        },
    }
}

/// Every generated candle is a valid OHLC row: an open drawn within
/// half a percent of the close stays inside a high/low band drawn at
/// half a percent or more, and the band never goes below zero.
proof fn lemma_generated_candle_valid(c: int, vol: int, f: int)
    requires
        1 <= c <= MOCK_BASE_MAX,
        50 <= vol < 200,
        (SCALE as int) - 50 <= f < (SCALE as int) + 50,
    ensures
        crate::data::ohlc_valid(
            (c * f) / (SCALE as int),
            c + (c * vol) / (SCALE as int),
            c + (c * (-vol)) / (SCALE as int),
            c,
        ),
{
    let s = SCALE as int;
    let up = (c * vol) / s;
    let down = (c * (-vol)) / s;
    let open = (c * f) / s;
    assert(0 <= c * 49 <= c * 50 <= c * vol <= c * 200 && c * 200 <= c * s) by (nonlinear_arith)
        requires
            1 <= c,
            50 <= vol < 200,
            s == 10_000,
    ;
    assert(c * (-vol) == -(c * vol) && (-c) * s == -(c * s) && (-c) * s == s * (-c)) by (
    nonlinear_arith);
    assert(c * (s - 50) <= c * f <= c * (s + 49)) by (nonlinear_arith)
        requires
            1 <= c,
            s - 50 <= f <= s + 49,
    ;
    assert(c * (s - 50) == c * s - c * 50 && c * (s + 49) == c * s + c * 49) by (nonlinear_arith);
    // the band straddles the close
    vstd::arithmetic::div_mod::lemma_div_pos_is_pos(c * vol, s);
    vstd::arithmetic::div_mod::lemma_div_is_ordered(c * (-vol), 0, s);
    vstd::arithmetic::div_mod::lemma_div_of0(s);
    // the low end stays non-negative
    vstd::arithmetic::div_mod::lemma_div_is_ordered((-c) * s, c * (-vol), s);
    vstd::arithmetic::div_mod::lemma_div_multiples_vanish(-c, s);
    assert(down >= -c);
    // the open stays at or above the low end
    vstd::arithmetic::div_mod::lemma_hoist_over_denominator(-(c * 50), c, s as nat);
    vstd::arithmetic::div_mod::lemma_div_is_ordered(-(c * 50) + c * s, c * f, s);
    vstd::arithmetic::div_mod::lemma_div_is_ordered(c * (-vol), -(c * 50), s);
    assert(open >= c + down);
    // the open stays at or below the high end
    vstd::arithmetic::div_mod::lemma_hoist_over_denominator(c * 49, c, s as nat);
    vstd::arithmetic::div_mod::lemma_div_is_ordered(c * f, c * 49 + c * s, s);
    vstd::arithmetic::div_mod::lemma_div_is_ordered(c * 49, c * vol, s);
    assert(open <= c + up);
}

/// A price within the mock's base bound moved by at most a five
/// percent step stays comfortably within the global price bound.
proof fn lemma_scaled_move_bounds(price: int, step: int)
    requires
        0 < price <= MOCK_BASE_MAX,
        -500 <= step <= 500,
    ensures
        -(MOCK_BASE_MAX / 20) - 1 <= price * step / (SCALE as int) <= MOCK_BASE_MAX / 20,
        price + price * step / (SCALE as int) <= PRICE_MAX,
{
    assert(-(MOCK_BASE_MAX as int) * 500 <= price * step <= MOCK_BASE_MAX as int * 500) by (
    nonlinear_arith)
        requires
            0 < price <= MOCK_BASE_MAX,
            -500 <= step <= 500,
    ;
    assert(-(MOCK_BASE_MAX / 20) - 1 <= price * step / (SCALE as int) <= MOCK_BASE_MAX / 20) by (
    nonlinear_arith)
        requires
            -(MOCK_BASE_MAX as int) * 500 <= price * step <= MOCK_BASE_MAX as int * 500,
            SCALE == 10_000i64,
            MOCK_BASE_MAX == 900_000_000_000i64,
    ;
}

/// An open drawn within half a percent of the close stays within the
/// global price bound.
proof fn lemma_scaled_open_bounds(price: int, factor: int)
    requires
        0 < price <= MOCK_BASE_MAX,
        SCALE - SCALE / 200 <= factor < SCALE + SCALE / 200,
    ensures
        0 <= price * factor / (SCALE as int) <= PRICE_MAX,
{
    assert(0 <= price * factor <= MOCK_BASE_MAX as int * (SCALE as int + 50)) by (nonlinear_arith)
        requires
            0 < price <= MOCK_BASE_MAX,
            0 < factor <= SCALE as int + 50,
            SCALE == 10_000i64,
    ;
    assert(0 <= price * factor / (SCALE as int) <= PRICE_MAX) by (nonlinear_arith)
        requires
            0 <= price * factor <= MOCK_BASE_MAX as int * (SCALE as int + 50),
            SCALE == 10_000i64,
            MOCK_BASE_MAX == 900_000_000_000i64,
            PRICE_MAX == 1_000_000_000_000i64,
    ;
}

/// A symbol whose first table occurrence is at `k` looks up to that
/// entry's price.
proof fn lemma_table_lookup(s: Seq<(String, i64)>, k: int)
    requires
        0 <= k < s.len(),
        forall|j: int| 0 <= j < k ==> (#[trigger] s[j]).0@ != s[k].0@,
    ensures
        price_lookup(s, s[k].0@) == Some(s[k].1),
    decreases k,
{
    if k > 0 {
        assert forall|j: int| 0 <= j < k - 1 implies (#[trigger] s.drop_first()[j]).0@
            != s.drop_first()[k - 1].0@ by {
            assert(s.drop_first()[j] == s[j + 1]);
            assert(s.drop_first()[k - 1] == s[k]);
        }
        assert(s.drop_first()[k - 1] == s[k]);
        lemma_table_lookup(s.drop_first(), k - 1);
        assert(s[0].0@ != s[k].0@);
        assert(price_lookup(s, s[k].0@) == price_lookup(s.drop_first(), s[k].0@));
    }
}

/// A price found in a well-formed table is positive and within the
/// mock's base bound.
proof fn lemma_price_lookup_positive(s: Seq<(String, i64)>, sym: Seq<char>)
    requires
        table_wf(s),
    ensures
        price_lookup(s, sym) matches Some(p) ==> 0 < p <= MOCK_BASE_MAX,
    decreases s.len(),
{
    if s.len() > 0 && s[0].0@ != sym {
        assert forall|i: int| 0 <= i < s.drop_first().len() implies 0 < (
        #[trigger] s.drop_first()[i]).1 <= MOCK_BASE_MAX by {
            assert(s.drop_first()[i] == s[i + 1]);
        }
        assert forall|i: int, j: int|
            0 <= i < j < s.drop_first().len() implies (#[trigger] s.drop_first()[i]).0@ != (
        #[trigger] s.drop_first()[j]).0@ by {
            assert(s.drop_first()[i] == s[i + 1]);
            assert(s.drop_first()[j] == s[j + 1]);
        }
        lemma_price_lookup_positive(s.drop_first(), sym);
    }
}

/// Updating the matching entry to a new pair carrying the same
/// symbol changes the lookup for that symbol alone.
proof fn lemma_price_lookup_update(s: Seq<(String, i64)>, i: int, sym: Seq<char>, entry: (String, i64))
    requires
        0 <= i < s.len(),
        s[i].0@ == sym,
        forall|j: int| 0 <= j < i ==> (#[trigger] s[j]).0@ != sym,
        entry.0@ == sym,
    ensures
        price_lookup(s.update(i, entry), sym) == Some(entry.1),
        forall|q: Seq<char>|
            q != sym ==> #[trigger] price_lookup(s.update(i, entry), q) == price_lookup(s, q),
    decreases s.len(),
{
    let t = s.update(i, entry);
    if i == 0 {
        assert(t[0] == entry);
        assert(price_lookup(t, sym) == Some(entry.1));
        assert forall|q: Seq<char>| q != sym implies #[trigger] price_lookup(t, q) == price_lookup(
            s,
            q,
        ) by {
            assert(t.drop_first() =~= s.drop_first());
            assert(price_lookup(t, q) == price_lookup(t.drop_first(), q));
            if s[0].0@ == q {
            } else {
                assert(price_lookup(s, q) == price_lookup(s.drop_first(), q));
            }
        }
    } else {
        assert forall|j: int| 0 <= j < i - 1 implies (#[trigger] s.drop_first()[j]).0@ != sym by {
            assert(s.drop_first()[j] == s[j + 1]);
        }
        lemma_price_lookup_update(s.drop_first(), i - 1, sym, entry);
        assert(t.drop_first() =~= s.drop_first().update(i - 1, entry));
        assert(t[0] == s[0]);
        assert(t[0].0@ != sym);
        assert(price_lookup(t, sym) == price_lookup(t.drop_first(), sym));
        assert(price_lookup(t, sym) == Some(entry.1));
        assert forall|q: Seq<char>| q != sym implies #[trigger] price_lookup(t, q) == price_lookup(
            s,
            q,
        ) by {
            if t[0].0@ == q {
            } else {
                assert(price_lookup(t, q) == price_lookup(t.drop_first(), q));
                assert(price_lookup(s, q) == price_lookup(s.drop_first(), q));
            }
        }
    }
}

/// Appending one entry for an absent symbol: the lookup for that
/// symbol becomes the entry's price and no other lookup changes.
proof fn lemma_price_lookup_push_one(s: Seq<(String, i64)>, sym: Seq<char>, entry: (String, i64))
    requires
        forall|j: int| 0 <= j < s.len() ==> (#[trigger] s[j]).0@ != sym,
        entry.0@ == sym,
    ensures
        price_lookup(s.push(entry), sym) == Some(entry.1),
        forall|q: Seq<char>|
            q != sym ==> #[trigger] price_lookup(s.push(entry), q) == price_lookup(s, q),
    decreases s.len(),
{
    let t = s.push(entry);
    if s.len() == 0 {
        assert(t[0] == entry);
        assert(price_lookup(t, sym) == Some(entry.1));
        assert forall|q: Seq<char>| q != sym implies #[trigger] price_lookup(t, q) == price_lookup(
            s,
            q,
        ) by {
            assert(t.drop_first() =~= Seq::<(String, i64)>::empty());
            assert(price_lookup(t, q) == price_lookup(t.drop_first(), q));
            assert(price_lookup(t.drop_first(), q) is None);
            assert(price_lookup(s, q) is None);
        }
    } else {
        assert forall|j: int| 0 <= j < s.drop_first().len() implies (
        #[trigger] s.drop_first()[j]).0@ != sym by {
            assert(s.drop_first()[j] == s[j + 1]);
        }
        lemma_price_lookup_push_one(s.drop_first(), sym, entry);
        assert(t[0] == s[0]);
        assert(t[0].0@ != sym);
        assert(t.drop_first() =~= s.drop_first().push(entry));
        assert(price_lookup(t, sym) == price_lookup(t.drop_first(), sym));
        assert forall|q: Seq<char>| q != sym implies #[trigger] price_lookup(t, q) == price_lookup(
            s,
            q,
        ) by {
            if t[0].0@ == q {
            } else {
                assert(price_lookup(t, q) == price_lookup(t.drop_first(), q));
                assert(price_lookup(s, q) == price_lookup(s.drop_first(), q));
            }
        }
    }
}

} // verus!
