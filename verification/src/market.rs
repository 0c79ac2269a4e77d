//! Market-data access layer: rate limiting, retry with exponential
//! backoff, provider configuration and the provider factory.
//!
//! The pieces that touch the network live elsewhere; here stand the
//! decision rules they follow: how long to wait between requests, how
//! many attempts to make and with which delays, and which provider a
//! configuration selects.

use vstd::prelude::*;

verus! {

use vstd::arithmetic::power::{lemma_pow_positive, pow};

use crate::error::TradingPlatformError;
use crate::live::YahooFinanceProvider;
use crate::mock::MockMarketDataProvider;

/// Published request quota of a provider.
#[derive(Debug, Clone, PartialEq)]
pub struct RateLimitInfo {
    pub requests_per_minute: u32,
    pub requests_per_hour: u32,
    pub current_usage: u32,
    /// Unix seconds.
    pub reset_time: Option<i64>,
}

impl Default for RateLimitInfo {
    /// The default quota: sixty requests a minute, two thousand an
    /// hour, none used.
    fn default() -> (r: RateLimitInfo)
        ensures
            r.requests_per_minute == 60,
            r.requests_per_hour == 2000,
            r.current_usage == 0,
            r.reset_time is None,
    {
        RateLimitInfo {
            requests_per_minute: 60,
            requests_per_hour: 2000,
            current_usage: 0,
            reset_time: None,
        }
    }
}

/// Configuration for market data providers.
#[derive(Debug, Clone, PartialEq)]
pub struct MarketDataConfig {
    pub provider: String,
    pub api_key: Option<String>,
    pub base_url: String,
    pub timeout_seconds: u64,
    pub max_retries: u32,
    pub retry_delay_ms: u64,
    pub rate_limit_delay_ms: u64,
    pub cache_ttl_seconds: u64,
}

impl Default for MarketDataConfig {
    /// The default configuration selects the live provider.
    fn default() -> (r: MarketDataConfig)
        ensures
            r.provider@ == "yahoo_finance"@,
            r.api_key is None,
            r.base_url@ == "https://query1.finance.yahoo.com"@,
            r.timeout_seconds == 30,
            r.max_retries == 3,
            r.retry_delay_ms == 1000,
            r.rate_limit_delay_ms == 100,
            r.cache_ttl_seconds == 60,
    {
        MarketDataConfig {
            provider: String::from_str("yahoo_finance"),
            api_key: None,
            base_url: String::from_str("https://query1.finance.yahoo.com"),
            timeout_seconds: 30,
            max_retries: 3,
            retry_delay_ms: 1000,
            rate_limit_delay_ms: 100,
            cache_ttl_seconds: 60,
        }
    }
}

impl MarketDataConfig {
    /// An exact copy of the configuration.
    pub fn duplicate(&self) -> (r: MarketDataConfig)
        ensures
            r == *self,
    {
        MarketDataConfig {
            provider: self.provider.clone(),
            api_key: match &self.api_key {
                Some(k) => Some(k.clone()),
                None => None,
            },
            base_url: self.base_url.clone(),
            timeout_seconds: self.timeout_seconds,
            max_retries: self.max_retries,
            retry_delay_ms: self.retry_delay_ms,
            rate_limit_delay_ms: self.rate_limit_delay_ms,
            cache_ttl_seconds: self.cache_ttl_seconds,
        }
    }
}

/// Enforces a minimum spacing between outbound requests.  The caller
/// supplies the clock reading and performs the actual waiting; this
/// type holds the rule and the last-request mark.
#[derive(Debug, Clone, PartialEq)]
pub struct RateLimiter {
    /// Minimum spacing between requests.
    pub delay_ms: u64,
    /// When the last permitted request was (or will be) issued, in
    /// Unix milliseconds; None before the first request.
    pub last_request: Option<i64>,
}

/// Bound on clock readings the limiter accepts, in Unix milliseconds.
pub const CLOCK_MAX_MS: i64 = 4_000_000_000_000_000;

/// Bound on the spacing a limiter may be configured with.
pub const LIMIT_DELAY_MAX_MS: u64 = 86_400_000;

impl RateLimiter {
    /// A limiter's clock state stays within the accepted range.
    pub open spec fn wf(self) -> bool {
        &&& self.delay_ms <= LIMIT_DELAY_MAX_MS
        &&& match self.last_request {
            Some(t) => 0 <= t <= CLOCK_MAX_MS + LIMIT_DELAY_MAX_MS,
            None => true,
        }
    }

    /// Builds a limiter that has not yet issued a request.
    pub fn new(delay_ms: u64) -> (r: RateLimiter)
        requires
            delay_ms <= LIMIT_DELAY_MAX_MS,
        ensures
            r.delay_ms == delay_ms,
            r.last_request is None,
            r.wf(),
    {
        RateLimiter { delay_ms, last_request: None }
    }

    /// Admits one request at clock reading `now_ms`: returns how long
    /// the caller must still wait to respect the spacing (zero for
    /// the first request), and records the end of that wait as the
    /// new last-request mark.
    pub fn note_request(&mut self, now_ms: i64) -> (wait: u64)
        requires
            old(self).wf(),
            0 <= now_ms <= CLOCK_MAX_MS,
        ensures
            wait == match old(self).last_request {
                None => 0int,
                Some(t) => {
                    let elapsed = if now_ms >= t {
                        now_ms - t
                    } else {
                        0int
                    };
                    if elapsed < old(self).delay_ms {
                        old(self).delay_ms - elapsed
                    } else {
                        0int
                    }
                },
            },
            final(self).last_request == Some((now_ms + wait) as i64),
            final(self).delay_ms == old(self).delay_ms,
            final(self).wf(),
    {
        let wait: u64 = match self.last_request {
            None => 0,
            Some(t) => {
                let elapsed: i64 = if now_ms >= t {
                    now_ms - t
                } else {
                    0
                };
                if elapsed < self.delay_ms as i64 {
                    (self.delay_ms as i64 - elapsed) as u64
                } else {
                    0
                }
            },
        };
        self.last_request = Some(now_ms + wait as i64);
        wait
    }
}

/// Retry with bounded attempts and exponential backoff.  The
/// multiplier is a whole factor of at least one.
#[derive(Debug, Clone, PartialEq)]
pub struct RetryPolicy {
    pub max_retries: u32,
    pub base_delay_ms: u64,
    pub max_delay_ms: u64,
    pub backoff_multiplier: u64,
}

impl Default for RetryPolicy {
    /// The default policy: three retries, one second base delay,
    /// thirty seconds cap, doubling.
    fn default() -> (r: RetryPolicy)
        ensures
            r.max_retries == 3,
            r.base_delay_ms == 1000,
            r.max_delay_ms == 30_000,
            r.backoff_multiplier == 2,
            r.wf(),
    {
        RetryPolicy {
            max_retries: 3,
            base_delay_ms: 1000,
            max_delay_ms: 30_000,
            backoff_multiplier: 2,
        }
    }
}

/// The delay before the given attempt: zero before the first, then
/// the base delay grown by the multiplier once per further attempt,
/// capped at the maximum delay.
pub open spec fn delay_of(base: int, mult: int, cap: int, attempt: int) -> int {
    if attempt <= 0 {
        0
    } else if base * pow(mult, (attempt - 1) as nat) <= cap {
        base * pow(mult, (attempt - 1) as nat)
    } else {
        cap
    }
}

/// The position of the first success among the first `n` outcomes,
/// scanning from `i`; `n` when all of them fail.
pub open spec fn first_ok_at<T>(
    s: Seq<Result<T, TradingPlatformError>>,
    i: int,
    n: int,
) -> int
    decreases n - i,
{
    if i >= n {
        n
    } else if s[i] is Ok {
        i
    } else {
        first_ok_at(s, i + 1, n)
    }
}

impl RetryPolicy {
    /// A meaningful policy: growth factor at least one.
    pub open spec fn wf(self) -> bool {
        self.backoff_multiplier >= 1
    }

    /// Computes [`delay_of`] for this policy.
    pub fn calculate_delay(&self, attempt: u32) -> (r: u64)
        requires
            self.wf(),
        ensures
            r == delay_of(
                self.base_delay_ms as int,
                self.backoff_multiplier as int,
                self.max_delay_ms as int,
                attempt as int,
            ),
    {
        if attempt == 0 {
            return 0;
        }
        let ghost base = self.base_delay_ms as int;
        let ghost mult = self.backoff_multiplier as int;
        let ghost cap = self.max_delay_ms as int;
        let mut d: u128 = self.base_delay_ms as u128;
        let mut k: u32 = 1;
        proof {
            vstd::arithmetic::power::lemma_pow0(mult);
        }
        while k < attempt && d < self.max_delay_ms as u128
            invariant
                1 <= k <= attempt,
                mult >= 1,
                base == self.base_delay_ms as int,
                mult == self.backoff_multiplier as int,
                cap == self.max_delay_ms as int,
                d == base * pow(mult, (k - 1) as nat),
            decreases attempt - k,
        {
            proof {
                vstd::arithmetic::power::lemma_pow1(mult);
                vstd::arithmetic::power::lemma_pow_adds(mult, 1, (k - 1) as nat);
                assert(pow(mult, k as nat) == mult * pow(mult, (k - 1) as nat));
                assert((base * pow(mult, (k - 1) as nat)) * mult == base * (mult * pow(
                    mult,
                    (k - 1) as nat,
                ))) by (nonlinear_arith);
                assert(d as int * mult <= u128::MAX) by (nonlinear_arith)
                    requires
                        0 <= d as int,
                        (d as int) <= u64::MAX,
                        0 <= mult,
                        mult <= u64::MAX,
                ;
            }
            d = d * self.backoff_multiplier as u128;
            k = k + 1;
        }
        if d >= self.max_delay_ms as u128 {
            proof {
                lemma_pow_positive(mult, (attempt - k) as nat);
                vstd::arithmetic::power::lemma_pow_adds(
                    mult,
                    (k - 1) as nat,
                    (attempt - k) as nat,
                );
                assert(base * (pow(mult, (k - 1) as nat) * pow(mult, (attempt - k) as nat)) == (
                base * pow(mult, (k - 1) as nat)) * pow(mult, (attempt - k) as nat)) by (
                nonlinear_arith);
                assert(d * pow(mult, (attempt - k) as nat) >= d * 1) by (nonlinear_arith)
                    requires
                        pow(mult, (attempt - k) as nat) >= 1,
                        d >= 0,
                ;
            }
            self.max_delay_ms
        } else {
            proof {
                assert(k == attempt);
                vstd::arithmetic::power::lemma_pow0(mult);
            }
            d as u64
        }
    }

    /// Plays the retry schedule against a prepared list of attempt
    /// outcomes: attempts run until the first success, up to
    /// `max_retries + 1` in total; the result is the first success,
    /// or the last attempt's error when every attempt fails.  Also
    /// returns how many attempts were made.
    pub fn run_with_outcomes<T>(&self, outcomes: Vec<Result<T, TradingPlatformError>>) -> (r: (
        Result<T, TradingPlatformError>,
        usize,
    ))
        requires
            outcomes@.len() >= self.max_retries + 1,
        ensures
            ({
                let n = self.max_retries + 1;
                let first = first_ok_at(outcomes@, 0, n as int);
                &&& r.1 == (if first < n {
                    first + 1
                } else {
                    n as int
                })
                &&& (first < n ==> r.0 == outcomes@[first])
                &&& (first == n ==> r.0 == outcomes@[n - 1] && r.0 is Err)
            }),
    {
        let ghost s = outcomes@;
        let mut rest = outcomes;
        let total = rest.len();
        proof {
            assert(self.max_retries + 1 <= total);
        }
        let n: usize = self.max_retries as usize + 1;
        let mut i: usize = 0;
        #[verifier::loop_isolation(false)]
        loop
            invariant
                i < n,
                n == self.max_retries + 1,
                s.len() >= n,
                rest@ == s.subrange(i as int, s.len() as int),
                first_ok_at(s, 0, n as int) == first_ok_at(s, i as int, n as int),
                forall|j: int| 0 <= j < i ==> !((#[trigger] s[j]) is Ok),
            decreases n - i,
        {
            let cur = rest.remove(0);
            proof {
                assert(cur == s[i as int]);
                assert(rest@ =~= s.subrange(i as int + 1, s.len() as int));
            }
            match cur {
                Ok(v) => {
                    proof {
                        assert(first_ok_at(s, i as int, n as int) == i);
                    }
                    return (Ok(v), i + 1);
                },
                Err(e) => {
                    if i + 1 == n {
                        proof {
                            assert(first_ok_at(s, i as int + 1, n as int) == n);
                            assert(first_ok_at(s, i as int, n as int) == n);
                        }
                        return (Err(e), n);
                    }
                    proof {
                        assert(first_ok_at(s, i as int, n as int) == first_ok_at(
                            s,
                            i as int + 1,
                            n as int,
                        ));
                    }
                },
            }
            i = i + 1;
        }
    }
}

/// A configured market-data provider: the deterministic mock or the
/// live HTTP-backed one.  The live variant holds the decision state
/// (configuration, retry policy, rate limiter); its network calls are
/// driven from outside the library.
pub enum ProviderInstance {
    Mock(MockMarketDataProvider),
    YahooFinance(YahooFinanceProvider),
}

/// Creates market data providers from configuration.
pub struct MarketDataProviderFactory;

impl MarketDataProviderFactory {
    /// Selects a provider by the configuration's provider key:
    /// `yahoo_finance` or `mock`; any other key is a configuration
    /// error.
    pub fn create_provider(config: &MarketDataConfig) -> (r: Result<
        ProviderInstance,
        TradingPlatformError,
    >)
        requires
            config.rate_limit_delay_ms <= LIMIT_DELAY_MAX_MS,
        ensures
            r is Ok <==> (config.provider@ == "yahoo_finance"@ || config.provider@ == "mock"@),
            config.provider@ == "yahoo_finance"@ ==> (r matches Ok(
                ProviderInstance::YahooFinance(p),
            ) && p.config == *config),
            config.provider@ == "mock"@ ==> (r matches Ok(ProviderInstance::Mock(_))),
            r matches Err(e) ==> e matches TradingPlatformError::Config(_),
    {
        proof {
            reveal_strlit("yahoo_finance");
            reveal_strlit("mock");
            assert("yahoo_finance"@.len() == 13);
            assert("mock"@.len() == 4);
        }
        let yahoo_key = String::from_str("yahoo_finance");
        let mock_key = String::from_str("mock");
        if config.provider == yahoo_key {
            let provider = YahooFinanceProvider::new(config.duplicate());
            Ok(ProviderInstance::YahooFinance(provider))
        } else if config.provider == mock_key {
            let provider = MockMarketDataProvider::new();
            Ok(ProviderInstance::Mock(provider))
        } else {
            Err(TradingPlatformError::config("Unknown market data provider"))
        }
    }
}

} // verus!
