//! Fixed-point amounts.
//!
//! Every monetary quantity in this crate is an `i64` counting
//! [`SCALE`]ths of one currency unit, so `25_000` units stand for `2.5`.
//! Percentages and ratios use the same grid.  The constants below bound
//! the values the accounting code accepts, so that all intermediate
//! products provably fit in the machine integers used to compute them.

use vstd::prelude::*;

verus! {

use vstd::arithmetic::div_mod::lemma_fundamental_div_mod;
use vstd::arithmetic::div_mod::lemma_fundamental_div_mod_converse;

/// Number of fixed-point units in one whole currency unit.
pub const SCALE: i64 = 10_000;

/// Largest accepted price per share, in units (one hundred million whole).
pub const PRICE_MAX: i64 = 1_000_000_000_000;

/// Largest accepted share count for a single position or trade.
pub const SHARES_MAX: u64 = 1_000_000;

/// Largest accepted value of a single position or trade
/// (`PRICE_MAX * SHARES_MAX`).
pub const VALUE_MAX: i64 = 1_000_000_000_000_000_000;

/// Largest accepted cash balance or aggregate amount.
pub const AMOUNT_MAX: i64 = 4_000_000_000_000_000_000;

/// A valid per-share price: non-negative and within the accepted range.
pub open spec fn price_ok(p: int) -> bool {
    0 <= p <= PRICE_MAX
}

/// A valid share count.
pub open spec fn shares_ok(s: int) -> bool {
    0 <= s <= SHARES_MAX
}

/// A valid single-position or single-trade value.
pub open spec fn value_ok(v: int) -> bool {
    -VALUE_MAX <= v <= VALUE_MAX
}

/// A valid cash balance or aggregate amount.
pub open spec fn amount_ok(a: int) -> bool {
    -AMOUNT_MAX <= a <= AMOUNT_MAX
}

/// Floor division of a (possibly negative) numerator by a positive
/// denominator, matching mathematical integer division.
pub fn floor_div(n: i128, d: i128) -> (q: i128)
    requires
        d > 0,
        n > i128::MIN,
    ensures
        q == n as int / d as int,
{
    if n >= 0 {
        let nu: u128 = n as u128;
        let du: u128 = d as u128;
        let qu: u128 = nu / du;
        let rem: u128 = nu % du;
        proof {
            lemma_fundamental_div_mod(nu as int, du as int);
            lemma_fundamental_div_mod_converse(n as int, d as int, qu as int, rem as int);
        }
        qu as i128
    } else {
        let m: u128 = (-n) as u128;
        let du: u128 = d as u128;
        let qu: u128 = m / du;
        let rem: u128 = m % du;
        proof {
            lemma_fundamental_div_mod(m as int, du as int);
        }
        if rem == 0 {
            proof {
                assert(n as int == (-(qu as int)) * (d as int) + 0) by (nonlinear_arith)
                    requires
                        m as int == (du as int) * (qu as int) + (rem as int),
                        rem as int == 0,
                        n as int == -(m as int),
                        du as int == d as int,
                ;
                lemma_fundamental_div_mod_converse(n as int, d as int, -(qu as int), 0);
            }
            -(qu as i128)
        } else {
            proof {
                assert(n as int == (-(qu as int) - 1) * (d as int) + (du - rem)) by (
                nonlinear_arith)
                    requires
                        m as int == (du as int) * (qu as int) + (rem as int),
                        n as int == -(m as int),
                        du as int == d as int,
                ;
                lemma_fundamental_div_mod_converse(
                    n as int,
                    d as int,
                    -(qu as int) - 1,
                    (du - rem) as int,
                );
            }
            -(qu as i128) - 1
        }
    }
}

/// Sum of the entries `s[i..j]` of a sequence of amounts.
pub open spec fn sum_range(s: Seq<i64>, i: int, j: int) -> int
    decreases j - i,
{
    if i >= j {
        0
    } else {
        s[i] + sum_range(s, i + 1, j)
    }
}

/// Extending the summed range by one entry on the right adds that entry.
pub proof fn lemma_sum_range_snoc(s: Seq<i64>, i: int, j: int)
    requires
        i <= j,
    ensures
        sum_range(s, i, j + 1) == sum_range(s, i, j) + s[j],
    decreases j - i,
{
    if i < j {
        lemma_sum_range_snoc(s, i + 1, j);
    } else {
        assert(sum_range(s, j, j + 1) == s[j] + sum_range(s, j + 1, j + 1));
        assert(sum_range(s, j + 1, j + 1) == 0);
        assert(sum_range(s, j, j) == 0);
    }
}

/// A sum of entries that all lie within `[-b, b]` lies within
/// `[-(j - i) * b, (j - i) * b]`.
pub proof fn lemma_sum_range_bound(s: Seq<i64>, i: int, j: int, b: int)
    requires
        i <= j,
        forall|k: int| i <= k < j ==> -b <= #[trigger] s[k] <= b,
        b >= 0,
    ensures
        -((j - i) * b) <= sum_range(s, i, j) <= (j - i) * b,
    decreases j - i,
{
    if i < j {
        lemma_sum_range_bound(s, i + 1, j, b);
        assert((j - i) * b == (j - i - 1) * b + b) by (nonlinear_arith);
    } else {
        assert(sum_range(s, i, j) == 0);
        assert((j - i) * b == 0) by (nonlinear_arith)
            requires
                j == i,
        ;
    }
}

} // verus!
