//! Portfolio accounting: positions, trades, cash, and derived
//! performance statistics.
//!
//! A position keeps the weighted-average invariant `cost_basis ==
//! shares * average_price` at all times; a portfolio applies trades
//! atomically — a rejected trade leaves every field unchanged.

use vstd::prelude::*;

verus! {

use crate::amount::{
    amount_ok, floor_div, lemma_sum_range_bound, lemma_sum_range_snoc, price_ok, shares_ok,
    sum_range, value_ok, AMOUNT_MAX, PRICE_MAX, SCALE, SHARES_MAX, VALUE_MAX,
};
use crate::data::{pct_fp, pct_of};
use crate::error::TradingPlatformError;
use crate::runtime::{new_id, now_seconds};
use crate::strategy::Action;

/// A holding of one symbol.  All prices and values are fixed-point
/// units; `unrealized_pnl_percent` is a fixed-point percentage.
#[derive(Debug, Clone, PartialEq)]
pub struct Position {
    pub symbol: String,
    pub shares: u64,
    pub average_price: i64,
    pub current_price: i64,
    pub current_value: i64,
    pub unrealized_pnl: i64,
    pub unrealized_pnl_percent: i128,
    pub cost_basis: i64,
    /// Unix seconds.
    pub last_updated: i64,
}

impl Position {
    /// The bookkeeping core of a position: bounded shares, a bounded
    /// average price, and the weighted-average invariant
    /// `cost_basis == shares * average_price`.
    pub open spec fn core_wf(self) -> bool {
        &&& shares_ok(self.shares as int)
        &&& price_ok(self.average_price as int)
        &&& self.cost_basis == self.shares * self.average_price
    }

    /// Full well-formedness: the core plus consistent market-price
    /// fields.
    pub open spec fn wf(self) -> bool {
        &&& self.core_wf()
        &&& price_ok(self.current_price as int)
        &&& self.current_value == self.shares * self.current_price
        &&& self.unrealized_pnl == self.current_value - self.cost_basis
        &&& self.unrealized_pnl_percent == pct_of(
            self.unrealized_pnl as int,
            self.cost_basis as int,
        )
    }

    /// Builds a closed position with no shares and zeroed values.
    pub fn empty(symbol: String) -> (r: Position)
        ensures
            r.symbol == symbol,
            r.shares == 0,
            r.average_price == 0,
            r.current_price == 0,
            r.current_value == 0,
            r.unrealized_pnl == 0,
            r.unrealized_pnl_percent == 0,
            r.cost_basis == 0,
            r.wf(),
    {
        Position {
            symbol,
            shares: 0,
            average_price: 0,
            current_price: 0,
            current_value: 0,
            unrealized_pnl: 0,
            unrealized_pnl_percent: 0,
            cost_basis: 0,
            last_updated: now_seconds(),
        }
    }

    /// Builds an open position bought at one price: the cost basis is
    /// exactly `shares * price` and there is no unrealized profit yet.
    pub fn new(symbol: String, shares: u64, price: i64) -> (r: Position)
        requires
            shares_ok(shares as int),
            price_ok(price as int),
        ensures
            r.symbol == symbol,
            r.shares == shares,
            r.average_price == price,
            r.current_price == price,
            r.cost_basis == shares * price,
            r.current_value == shares * price,
            r.unrealized_pnl == 0,
            r.unrealized_pnl_percent == 0,
            r.wf(),
    {
        proof {
            assert(0 <= shares as int * price as int <= VALUE_MAX) by (nonlinear_arith)
                requires
                    0 <= shares as int <= SHARES_MAX,
                    0 <= price as int <= PRICE_MAX,
            ;
        }
        let cost_basis: i64 = (shares as i128 * price as i128) as i64;
        Position {
            symbol,
            shares,
            average_price: price,
            current_price: price,
            current_value: cost_basis,
            unrealized_pnl: 0,
            unrealized_pnl_percent: 0,
            cost_basis,
            last_updated: now_seconds(),
        }
    }

    /// Re-marks the position at a new market price, recomputing the
    /// current value and the unrealized profit and its percentage.
    pub fn update_price(&mut self, new_price: i64)
        requires
            old(self).core_wf(),
            price_ok(new_price as int),
        ensures
            final(self).current_price == new_price,
            final(self).current_value == old(self).shares * new_price,
            final(self).unrealized_pnl == final(self).current_value - final(self).cost_basis,
            final(self).unrealized_pnl_percent == pct_of(
                final(self).unrealized_pnl as int,
                final(self).cost_basis as int,
            ),
            final(self).symbol == old(self).symbol,
            final(self).shares == old(self).shares,
            final(self).average_price == old(self).average_price,
            final(self).cost_basis == old(self).cost_basis,
            final(self).wf(),
    {
        proof {
            let sh = old(self).shares as int;
            let ap = old(self).average_price as int;
            let cb = old(self).cost_basis as int;
            assert(0 <= sh * new_price as int <= VALUE_MAX) by (nonlinear_arith)
                requires
                    0 <= sh <= SHARES_MAX,
                    0 <= new_price as int <= PRICE_MAX,
            ;
            assert(0 <= cb <= VALUE_MAX) by (nonlinear_arith)
                requires
                    cb == sh * ap,
                    0 <= sh <= SHARES_MAX,
                    0 <= ap <= PRICE_MAX,
            ;
        }
        self.current_price = new_price;
        self.current_value = (self.shares as i128 * new_price as i128) as i64;
        self.unrealized_pnl = self.current_value - self.cost_basis;
        self.unrealized_pnl_percent = pct_fp(self.unrealized_pnl, self.cost_basis);
        self.last_updated = now_seconds();
    }

    /// Merges a purchase into the position: the share counts add, the
    /// average price becomes the weighted mean (rounded down to the
    /// unit grid), the cost basis stays `shares * average_price`, and
    /// the position is re-marked at the purchase price.
    pub fn add_shares(&mut self, additional_shares: u64, price: i64)
        requires
            old(self).core_wf(),
            price_ok(price as int),
            shares_ok(old(self).shares + additional_shares),
        ensures
            final(self).shares == old(self).shares + additional_shares,
            final(self).average_price == (if old(self).shares + additional_shares > 0 {
                (old(self).cost_basis + additional_shares * price) as int / (old(self).shares
                    + additional_shares) as int
            } else {
                old(self).average_price as int
            }),
            final(self).cost_basis == final(self).shares * final(self).average_price,
            final(self).current_price == price,
            final(self).current_value == final(self).shares * price,
            final(self).unrealized_pnl == final(self).current_value - final(self).cost_basis,
            final(self).unrealized_pnl_percent == pct_of(
                final(self).unrealized_pnl as int,
                final(self).cost_basis as int,
            ),
            final(self).symbol == old(self).symbol,
            final(self).wf(),
    {
        proof {
            assert(0 <= additional_shares as int * price as int <= VALUE_MAX) by (nonlinear_arith)
                requires
                    0 <= additional_shares as int <= SHARES_MAX,
                    0 <= price as int <= PRICE_MAX,
            ;
            let sh = old(self).shares as int;
            let ap = old(self).average_price as int;
            let cb = old(self).cost_basis as int;
            assert(0 <= cb <= VALUE_MAX) by (nonlinear_arith)
                requires
                    cb == sh * ap,
                    0 <= sh <= SHARES_MAX,
                    0 <= ap <= PRICE_MAX,
            ;
        }
        let additional_cost: i64 = (additional_shares as i128 * price as i128) as i64;
        let ghost s0 = *self;
        proof {
            assert(s0.cost_basis + additional_cost
                <= (s0.shares + additional_shares) as int * PRICE_MAX) by (nonlinear_arith)
                requires
                    s0.cost_basis == s0.shares as int * s0.average_price as int,
                    additional_cost == additional_shares as int * price as int,
                    0 <= s0.average_price as int <= PRICE_MAX,
                    0 <= price as int <= PRICE_MAX,
                    0 <= s0.shares as int,
                    0 <= additional_shares as int,
            ;
        }
        let total_cost: i128 = self.cost_basis as i128 + additional_cost as i128;
        let total_shares: u64 = self.shares + additional_shares;
        if total_shares > 0 {
            proof {
                assert(0 <= total_cost as int / total_shares as int <= PRICE_MAX) by (
                nonlinear_arith)
                    requires
                        0 <= total_cost as int <= total_shares as int * PRICE_MAX,
                        total_shares as int >= 1,
                ;
            }
            self.average_price = ((total_cost as u128) / (total_shares as u128)) as i64;
        }
        self.shares = total_shares;
        proof {
            assert(0 <= total_shares as int * self.average_price as int <= VALUE_MAX) by (
            nonlinear_arith)
                requires
                    0 <= total_shares as int <= SHARES_MAX,
                    0 <= self.average_price as int <= PRICE_MAX,
            ;
        }
        self.cost_basis = (total_shares as i128 * self.average_price as i128) as i64;
        self.update_price(price);
    }

    /// Removes shares at a sale price, returning the realized profit
    /// `quantity * (price - average_price)`.  Selling more shares than
    /// held fails and leaves the position unchanged.
    pub fn remove_shares(&mut self, shares_to_remove: u64, price: i64) -> (r: Result<
        i64,
        TradingPlatformError,
    >)
        requires
            old(self).wf(),
            price_ok(price as int),
        ensures
            r is Err <==> shares_to_remove > old(self).shares,
            r is Err ==> *final(self) == *old(self) && (r matches Err(
                TradingPlatformError::Internal(_),
            )),
            r matches Ok(pnl) ==> {
                &&& pnl == shares_to_remove * (price - old(self).average_price)
                &&& final(self).shares == old(self).shares - shares_to_remove
                &&& final(self).average_price == old(self).average_price
                &&& final(self).cost_basis == final(self).shares * final(self).average_price
                &&& final(self).current_price == price
                &&& final(self).current_value == final(self).shares * price
                &&& final(self).unrealized_pnl == final(self).current_value - final(self).cost_basis
                &&& final(self).unrealized_pnl_percent == pct_of(
                    final(self).unrealized_pnl as int,
                    final(self).cost_basis as int,
                )
                &&& final(self).symbol == old(self).symbol
                &&& final(self).wf()
            },
    {
        if shares_to_remove > self.shares {
            return Err(TradingPlatformError::internal("Cannot remove more shares than owned"));
        }
        proof {
            let ap = old(self).average_price as int;
            assert(value_ok(shares_to_remove as int * (price - ap))) by (nonlinear_arith)
                requires
                    0 <= shares_to_remove as int <= SHARES_MAX,
                    0 <= price as int <= PRICE_MAX,
                    0 <= ap <= PRICE_MAX,
            ;
        }
        let realized_pnl: i64 = (shares_to_remove as i128 * (price as i128
            - self.average_price as i128)) as i64;
        self.shares = self.shares - shares_to_remove;
        proof {
            assert(0 <= self.shares as int * self.average_price as int <= VALUE_MAX) by (
            nonlinear_arith)
                requires
                    0 <= self.shares as int <= SHARES_MAX,
                    0 <= self.average_price as int <= PRICE_MAX,
            ;
        }
        self.cost_basis = (self.shares as i128 * self.average_price as i128) as i64;
        self.update_price(price);
        Ok(realized_pnl)
    }

    /// A position with no shares is considered closed.
    pub fn is_empty(&self) -> (r: bool)
        ensures
            r == (self.shares == 0),
    {
        self.shares == 0
    }
}

/// Weighted-average invariant: in any well-formed position the cost
/// basis equals shares times average price — and buying preserves
/// well-formedness (see [`Position::add_shares`]), so it holds after
/// any buy sequence.
pub proof fn lemma_cost_basis_weighted_average(p: Position)
    requires
        p.wf(),
    ensures
        p.cost_basis == p.shares * p.average_price,
{
}

/// One executed (or recorded) trade.
#[derive(Debug, Clone, PartialEq)]
pub struct Trade {
    pub id: String,
    pub strategy_id: String,
    pub symbol: String,
    pub action: Action,
    pub quantity: u64,
    pub price: i64,
    /// Unix seconds.
    pub timestamp: i64,
    pub explanation: String,
    pub commission: i64,
    pub realized_pnl: Option<i64>,
    /// Always `quantity * price`.
    pub trade_value: i64,
}

impl Trade {
    /// A well-formed trade: bounded quantity, price and commission,
    /// and `trade_value == quantity * price`.
    pub open spec fn wf(self) -> bool {
        &&& shares_ok(self.quantity as int)
        &&& price_ok(self.price as int)
        &&& 0 <= self.commission <= VALUE_MAX
        &&& self.trade_value == self.quantity * self.price
        &&& 0 <= self.trade_value <= VALUE_MAX
    }

    /// Builds a trade with a fresh identifier, the clock's timestamp,
    /// no realized profit, and `trade_value = quantity * price`.
    pub fn new(
        strategy_id: String,
        symbol: String,
        action: Action,
        quantity: u64,
        price: i64,
        explanation: String,
        commission: i64,
    ) -> (r: Trade)
        requires
            shares_ok(quantity as int),
            price_ok(price as int),
            0 <= commission <= VALUE_MAX,
        ensures
            r.strategy_id == strategy_id,
            r.symbol == symbol,
            r.action == action,
            r.quantity == quantity,
            r.price == price,
            r.explanation == explanation,
            r.commission == commission,
            r.realized_pnl is None,
            r.trade_value == quantity * price,
            r.id@.len() == 36,
            r.wf(),
    {
        proof {
            assert(0 <= quantity as int * price as int <= VALUE_MAX) by (nonlinear_arith)
                requires
                    0 <= quantity as int <= SHARES_MAX,
                    0 <= price as int <= PRICE_MAX,
            ;
        }
        let trade_value: i64 = (quantity as i128 * price as i128) as i64;
        Trade {
            id: new_id(),
            strategy_id,
            symbol,
            action,
            quantity,
            price,
            timestamp: now_seconds(),
            explanation,
            commission,
            realized_pnl: None,
            trade_value,
        }
    }

    /// Stamps a realized profit onto the trade.
    pub fn with_realized_pnl(self, pnl: i64) -> (r: Trade)
        ensures
            r == (Trade { realized_pnl: Some(pnl), ..self }),
    {
        Trade { realized_pnl: Some(pnl), ..self }
    }

    /// Cash-flow view of the trade: buys cost value plus commission,
    /// sells yield value minus commission, holds move nothing.
    pub fn net_value(&self) -> (r: i64)
        requires
            self.wf(),
        ensures
            r == match self.action {
                Action::Buy => -(self.trade_value + self.commission),
                Action::Sell => self.trade_value - self.commission,
                Action::Hold => 0,
            },
    {
        match self.action {
            Action::Buy => -(self.trade_value + self.commission),
            Action::Sell => self.trade_value - self.commission,
            Action::Hold => 0,
        }
    }
}

/// Index of the first position carrying `sym`, or the sequence length
/// when no position does.
pub open spec fn sym_index(s: Seq<Position>, sym: Seq<char>) -> int
    decreases s.len(),
{
    if s.len() == 0 {
        0
    } else if s[0].symbol@ == sym {
        0
    } else {
        1 + sym_index(s.drop_first(), sym)
    }
}

/// Whether some position carries `sym`.
pub open spec fn has_sym(s: Seq<Position>, sym: Seq<char>) -> bool {
    sym_index(s, sym) < s.len()
}

/// [`sym_index`] is a position in the sequence (or its length), names
/// a matching position when it is one, and nothing before it matches.
pub proof fn lemma_sym_index_props(s: Seq<Position>, sym: Seq<char>)
    ensures
        0 <= sym_index(s, sym) <= s.len(),
        sym_index(s, sym) < s.len() ==> s[sym_index(s, sym)].symbol@ == sym,
        forall|k: int| 0 <= k < sym_index(s, sym) ==> (#[trigger] s[k]).symbol@ != sym,
    decreases s.len(),
{
    if s.len() > 0 && s[0].symbol@ != sym {
        lemma_sym_index_props(s.drop_first(), sym);
        let ii = sym_index(s, sym);
        if ii < s.len() {
            assert(s.drop_first()[ii - 1] == s[ii]);
        }
        assert forall|k: int| 0 <= k < ii implies (#[trigger] s[k]).symbol@ != sym by {
            if k > 0 {
                assert(s.drop_first()[k - 1] == s[k]);
            }
        }
    }
}

/// When nothing before `i` matches and `s[i]` does, the first match
/// is at `i`.
pub proof fn lemma_sym_index_found(s: Seq<Position>, sym: Seq<char>, i: int)
    requires
        0 <= i < s.len(),
        s[i].symbol@ == sym,
        forall|k: int| 0 <= k < i ==> (#[trigger] s[k]).symbol@ != sym,
    ensures
        sym_index(s, sym) == i,
    decreases i,
{
    if i > 0 {
        assert(s.drop_first()[i - 1] == s[i]);
        assert forall|k: int| 0 <= k < i - 1 implies (#[trigger] s.drop_first()[k]).symbol@
            != sym by {
            assert(s.drop_first()[k] == s[k + 1]);
        }
        lemma_sym_index_found(s.drop_first(), sym, i - 1);
    }
}

/// When nothing matches, the first-match index is the length.
pub proof fn lemma_sym_index_absent(s: Seq<Position>, sym: Seq<char>)
    requires
        forall|k: int| 0 <= k < s.len() ==> (#[trigger] s[k]).symbol@ != sym,
    ensures
        sym_index(s, sym) == s.len(),
    decreases s.len(),
{
    if s.len() > 0 {
        assert forall|k: int| 0 <= k < s.drop_first().len() implies (#[trigger] s.drop_first()[k]).symbol@
            != sym by {
            assert(s.drop_first()[k] == s[k + 1]);
        }
        lemma_sym_index_absent(s.drop_first(), sym);
    }
}

/// The result of merging a purchase of `t.quantity` at `t.price` into
/// a position previously holding `shares0` shares with cost `cost0`
/// and average `avg0`.
pub open spec fn bought_fields(
    shares0: int,
    cost0: int,
    avg0: int,
    np: Position,
    t: Trade,
) -> bool {
    let ts = shares0 + t.quantity;
    let tc = cost0 + t.quantity * t.price;
    &&& np.shares == ts
    &&& np.average_price == (if ts > 0 {
        tc / ts
    } else {
        avg0
    })
    &&& np.cost_basis == np.shares * np.average_price
    &&& np.current_price == t.price
    &&& np.current_value == np.shares * t.price
    &&& np.unrealized_pnl == np.current_value - np.cost_basis
    &&& np.symbol@ == t.symbol@
    &&& np.wf()
}

/// The result of selling `t.quantity` at `t.price` out of `p0`.
pub open spec fn sold_fields(p0: Position, np: Position, t: Trade) -> bool {
    &&& np.shares == p0.shares - t.quantity
    &&& np.average_price == p0.average_price
    &&& np.cost_basis == np.shares * np.average_price
    &&& np.current_price == t.price
    &&& np.current_value == np.shares * t.price
    &&& np.unrealized_pnl == np.current_value - np.cost_basis
    &&& np.symbol == p0.symbol
    &&& np.wf()
}

/// A snapshot of portfolio value at one instant.
#[derive(Debug, Clone, PartialEq)]
pub struct PerformanceSnapshot {
    /// Unix seconds.
    pub timestamp: i64,
    pub total_value: i128,
    pub cash_balance: i64,
    pub positions_value: i128,
    pub total_return: i128,
    pub daily_return: i64,
    pub drawdown: i64,
}

/// The cash-and-positions book of one strategy.
#[derive(Debug, Clone, PartialEq)]
pub struct Portfolio {
    pub id: String,
    pub strategy_id: String,
    pub initial_capital: i64,
    pub current_capital: i64,
    /// Open positions, at most one per symbol.
    pub positions: Vec<Position>,
    pub trade_history: Vec<Trade>,
    pub performance_snapshots: Vec<PerformanceSnapshot>,
    /// Unix seconds.
    pub created_at: i64,
    /// Unix seconds.
    pub last_updated: i64,
}

/// Sum of the current values of a position sequence.
pub open spec fn positions_value(s: Seq<Position>) -> int
    decreases s.len(),
{
    if s.len() == 0 {
        0
    } else {
        positions_value(s.drop_last()) + s.last().current_value
    }
}

/// Sum of the unrealized profits of a position sequence.
pub open spec fn positions_pnl(s: Seq<Position>) -> int
    decreases s.len(),
{
    if s.len() == 0 {
        0
    } else {
        positions_pnl(s.drop_last()) + s.last().unrealized_pnl
    }
}

impl Portfolio {
    /// Well-formedness: bounded cash, well-formed positions, and at
    /// most one position per symbol.
    pub open spec fn wf(self) -> bool {
        &&& amount_ok(self.current_capital as int)
        &&& forall|i: int| 0 <= i < self.positions@.len() ==> (#[trigger] self.positions@[i]).wf()
        &&& forall|i: int, j: int|
            0 <= i < j < self.positions@.len() ==> (#[trigger] self.positions@[i]).symbol@ != (
            #[trigger] self.positions@[j]).symbol@
    }

    /// Builds an empty portfolio holding only its initial cash.
    pub fn new(strategy_id: String, initial_capital: i64) -> (r: Portfolio)
        requires
            amount_ok(initial_capital as int),
        ensures
            r.strategy_id == strategy_id,
            r.initial_capital == initial_capital,
            r.current_capital == initial_capital,
            r.positions@.len() == 0,
            r.trade_history@.len() == 0,
            r.performance_snapshots@.len() == 0,
            r.id@.len() == 36,
            r.wf(),
    {
        Portfolio {
            id: new_id(),
            strategy_id,
            initial_capital,
            current_capital: initial_capital,
            positions: Vec::new(),
            trade_history: Vec::new(),
            performance_snapshots: Vec::new(),
            created_at: now_seconds(),
            last_updated: now_seconds(),
        }
    }

    /// Index of this portfolio's position for a symbol, if it holds
    /// one.
    fn find_position(&self, symbol: &String) -> (r: Option<usize>)
        ensures
            r matches Some(i) ==> i == sym_index(self.positions@, symbol@) && has_sym(
                self.positions@,
                symbol@,
            ),
            r is None ==> !has_sym(self.positions@, symbol@),
    {
        let ghost s = self.positions@;
        let n = self.positions.len();
        let mut i: usize = 0;
        while i < n
            invariant
                i <= n,
                n == s.len(),
                s == self.positions@,
                forall|k: int| 0 <= k < i ==> (#[trigger] s[k]).symbol@ != symbol@,
            decreases n - i,
        {
            if self.positions[i].symbol == *symbol {
                proof {
                    lemma_sym_index_found(s, symbol@, i as int);
                }
                return Some(i);
            }
            i = i + 1;
        }
        proof {
            lemma_sym_index_absent(s, symbol@);
        }
        None
    }

    /// Applies a trade to cash and positions, atomically: a rejected
    /// trade returns an error and leaves the whole portfolio
    /// unchanged.  Buys need cash to cover value plus commission;
    /// sells need an existing position with enough shares; holds are
    /// recorded in the history with no other effect.
    pub fn execute_trade(&mut self, trade: Trade) -> (r: Result<(), TradingPlatformError>)
        requires
            old(self).wf(),
            trade.wf(),
            trade.action is Buy && has_sym(old(self).positions@, trade.symbol@) ==> old(self).positions@[sym_index(old(self).positions@, trade.symbol@)].shares + trade.quantity
                <= SHARES_MAX,
            trade.action is Sell ==> amount_ok(
                old(self).current_capital + trade.trade_value - trade.commission,
            ),
        ensures
            final(self).wf(),
            r is Err ==> *final(self) == *old(self),
            r is Err ==> r matches Err(TradingPlatformError::Internal(_)),
            trade.action is Buy ==> {
                let j = sym_index(old(self).positions@, trade.symbol@);
                &&& (r is Err <==> old(self).current_capital < trade.trade_value
                    + trade.commission)
                &&& r is Ok ==> {
                    &&& final(self).current_capital == old(self).current_capital
                        - trade.trade_value - trade.commission
                    &&& final(self).trade_history@ == old(self).trade_history@.push(trade)
                    &&& if has_sym(old(self).positions@, trade.symbol@) {
                        &&& final(self).positions@.len() == old(self).positions@.len()
                        &&& forall|k: int|
                            0 <= k < old(self).positions@.len() && k != j ==> final(self).positions@[k] == old(self).positions@[k]
                        &&& bought_fields(
                            old(self).positions@[j].shares as int,
                            old(self).positions@[j].cost_basis as int,
                            old(self).positions@[j].average_price as int,
                            final(self).positions@[j],
                            trade,
                        )
                    } else {
                        &&& final(self).positions@.len() == old(self).positions@.len() + 1
                        &&& forall|k: int|
                            0 <= k < old(self).positions@.len() ==> final(self).positions@[k]
                                == old(self).positions@[k]
                        &&& bought_fields(
                            0,
                            0,
                            0,
                            final(self).positions@.last(),
                            trade,
                        )
                    }
                }
            },
            trade.action is Sell ==> {
                let j = sym_index(old(self).positions@, trade.symbol@);
                &&& (r is Err <==> (!has_sym(old(self).positions@, trade.symbol@) || trade.quantity
                    > old(self).positions@[j].shares))
                &&& r is Ok ==> {
                    let realized = trade.quantity * (trade.price
                        - old(self).positions@[j].average_price);
                    &&& final(self).current_capital == old(self).current_capital
                        + trade.trade_value - trade.commission
                    &&& final(self).trade_history@ == old(self).trade_history@.push(
                        Trade { realized_pnl: Some(realized as i64), ..trade },
                    )
                    &&& if old(self).positions@[j].shares == trade.quantity {
                        final(self).positions@ == old(self).positions@.remove(j)
                    } else {
                        &&& final(self).positions@.len() == old(self).positions@.len()
                        &&& forall|k: int|
                            0 <= k < old(self).positions@.len() && k != j ==> final(self).positions@[k] == old(self).positions@[k]
                        &&& sold_fields(old(self).positions@[j], final(self).positions@[j], trade)
                    }
                }
            },
            trade.action is Hold ==> {
                &&& r is Ok
                &&& final(self).current_capital == old(self).current_capital
                &&& final(self).positions@ == old(self).positions@
                &&& final(self).trade_history@ == old(self).trade_history@.push(trade)
            },
            final(self).id == old(self).id,
            final(self).strategy_id == old(self).strategy_id,
            final(self).initial_capital == old(self).initial_capital,
            final(self).performance_snapshots@ == old(self).performance_snapshots@,
            r is Ok ==> final(self).created_at == old(self).created_at,
    {
        proof {
            lemma_sym_index_props(old(self).positions@, trade.symbol@);
        }
        match trade.action {
            Action::Buy => {
                if self.current_capital < trade.trade_value + trade.commission {
                    return Err(TradingPlatformError::internal("Insufficient capital for trade"));
                }
                self.current_capital = self.current_capital - trade.trade_value
                    - trade.commission;
                match self.find_position(&trade.symbol) {
                    Some(idx) => {
                        let ghost before = self.positions@;
                        let mut p = self.positions.remove(idx);
                        p.add_shares(trade.quantity, trade.price);
                        self.positions.insert(idx, p);
                        proof {
                            assert(self.positions@ =~= before.update(idx as int, p));
                        }
                    },
                    None => {
                        let mut p = Position::empty(trade.symbol.clone());
                        p.add_shares(trade.quantity, trade.price);
                        self.positions.push(p);
                    },
                }
                self.trade_history.push(trade);
                self.last_updated = now_seconds();
                Ok(())
            },
            Action::Sell => {
                match self.find_position(&trade.symbol) {
                    Some(idx) => {
                        if trade.quantity > self.positions[idx].shares {
                            return Err(TradingPlatformError::internal(
                                "Cannot remove more shares than owned",
                            ));
                        }
                        let ghost before = self.positions@;
                        let mut p = self.positions.remove(idx);
                        let realized_pnl = match p.remove_shares(trade.quantity, trade.price) {
                            Ok(v) => v,
                            Err(e) => {
                                // unreachable: the share count was checked above
                                return Err(e);
                            },
                        };
                        self.current_capital = self.current_capital + trade.trade_value
                            - trade.commission;
                        let updated_trade = trade.with_realized_pnl(realized_pnl);
                        self.trade_history.push(updated_trade);
                        if p.shares > 0 {
                            self.positions.insert(idx, p);
                            proof {
                                assert(self.positions@ =~= before.update(idx as int, p));
                            }
                        } else {
                            proof {
                                assert(self.positions@ =~= before.remove(idx as int));
                            }
                        }
                        self.last_updated = now_seconds();
                        Ok(())
                    },
                    None => Err(TradingPlatformError::internal("Cannot sell shares not owned")),
                }
            },
            Action::Hold => {
                self.trade_history.push(trade);
                self.last_updated = now_seconds();
                Ok(())
            },
        }
    }

    /// Re-marks every held position whose symbol appears in the price
    /// list at the listed price; positions without a listed price are
    /// untouched.  Trade execution is unaffected.
    pub fn update_position_prices(&mut self, prices: &Vec<(String, i64)>)
        requires
            old(self).wf(),
            forall|i: int|
                0 <= i < prices@.len() ==> price_ok((#[trigger] prices@[i]).1 as int),
        ensures
            final(self).wf(),
            final(self).positions@.len() == old(self).positions@.len(),
            forall|k: int|
                0 <= k < old(self).positions@.len() ==> match price_lookup(
                    prices@,
                    (#[trigger] old(self).positions@[k]).symbol@,
                ) {
                    Some(np) => {
                        &&& final(self).positions@[k].current_price == np
                        &&& final(self).positions@[k].current_value == old(self).positions@[k].shares * np
                        &&& final(self).positions@[k].unrealized_pnl == final(self).positions@[k].current_value - final(self).positions@[k].cost_basis
                        &&& final(self).positions@[k].symbol == old(self).positions@[k].symbol
                        &&& final(self).positions@[k].shares == old(self).positions@[k].shares
                        &&& final(self).positions@[k].average_price == old(self).positions@[k].average_price
                        &&& final(self).positions@[k].cost_basis == old(self).positions@[k].cost_basis
                    },
                    None => final(self).positions@[k] == old(self).positions@[k],
                },
            final(self).current_capital == old(self).current_capital,
            final(self).trade_history@ == old(self).trade_history@,
            final(self).id == old(self).id,
            final(self).strategy_id == old(self).strategy_id,
            final(self).initial_capital == old(self).initial_capital,
            final(self).performance_snapshots@ == old(self).performance_snapshots@,
    {
        let ghost orig = self.positions@;
        let mut k: usize = 0;
        while k < self.positions.len()
            invariant
                old(self).wf(),
                k <= self.positions@.len(),
                self.positions@.len() == orig.len(),
                orig == old(self).positions@,
                forall|i: int|
                    0 <= i < prices@.len() ==> price_ok((#[trigger] prices@[i]).1 as int),
                forall|i: int| k <= i < orig.len() ==> self.positions@[i] == orig[i],
                forall|i: int|
                    0 <= i < k ==> match price_lookup(prices@, (#[trigger] orig[i]).symbol@) {
                        Some(np) => {
                            &&& self.positions@[i].current_price == np
                            &&& self.positions@[i].current_value == orig[i].shares * np
                            &&& self.positions@[i].unrealized_pnl == self.positions@[i].current_value
                                - self.positions@[i].cost_basis
                            &&& self.positions@[i].unrealized_pnl_percent == pct_of(
                                self.positions@[i].unrealized_pnl as int,
                                self.positions@[i].cost_basis as int,
                            )
                            &&& self.positions@[i].symbol == orig[i].symbol
                            &&& self.positions@[i].shares == orig[i].shares
                            &&& self.positions@[i].average_price == orig[i].average_price
                            &&& self.positions@[i].cost_basis == orig[i].cost_basis
                            &&& self.positions@[i].wf()
                        },
                        None => self.positions@[i] == orig[i],
                    },
                self.current_capital == old(self).current_capital,
                self.trade_history@ == old(self).trade_history@,
                self.id == old(self).id,
                self.strategy_id == old(self).strategy_id,
                self.initial_capital == old(self).initial_capital,
                self.performance_snapshots@ == old(self).performance_snapshots@,
                self.created_at == old(self).created_at,
            decreases self.positions@.len() - k,
        {
            let new_price = lookup_price(prices, &self.positions[k].symbol);
            if let Some(np) = new_price {
                let ghost before = self.positions@;
                proof {
                    lemma_price_lookup_in_range(prices@, self.positions@[k as int].symbol@);
                    assert(self.positions@[k as int] == orig[k as int]);
                    assert(orig[k as int].wf());
                }
                let mut p = self.positions.remove(k);
                p.update_price(np);
                self.positions.insert(k, p);
                proof {
                    assert(self.positions@ =~= before.update(k as int, p));
                }
            }
            k = k + 1;
        }
        self.last_updated = now_seconds();
        proof {
            assert forall|i: int|
                0 <= i < self.positions@.len() implies ((#[trigger] self.positions@[i]).wf()
                && self.positions@[i].symbol == orig[i].symbol) by {
                assert(orig[i].wf());
                match price_lookup(prices@, orig[i].symbol@) {
                    Some(_) => {},
                    None => {},
                }
            }
            assert forall|i: int, j: int|
                0 <= i < j < self.positions@.len() implies (#[trigger] self.positions@[i]).symbol@
                != (#[trigger] self.positions@[j]).symbol@ by {
                assert(self.positions@[i].symbol == orig[i].symbol);
                assert(self.positions@[j].symbol == orig[j].symbol);
            }
        }
    }

    /// Cash plus the current value of every position.
    pub fn total_value(&self) -> (r: i128)
        requires
            self.wf(),
        ensures
            r == self.current_capital + positions_value(self.positions@),
    {
        let mut sum: i128 = 0;
        let mut i: usize = 0;
        let n = self.positions.len();
        while i < n
            invariant
                self.wf(),
                i <= n,
                n == self.positions@.len(),
                sum == positions_value(self.positions@.subrange(0, i as int)),
                0 <= sum <= i * VALUE_MAX,
            decreases n - i,
        {
            proof {
                let pre = self.positions@.subrange(0, i as int + 1);
                assert(pre.drop_last() =~= self.positions@.subrange(0, i as int));
                assert(pre.last() == self.positions@[i as int]);
                lemma_position_value_bounds(self.positions@[i as int]);
                assert((i + 1) * VALUE_MAX == i * VALUE_MAX + VALUE_MAX) by (nonlinear_arith);
            }
            sum = sum + self.positions[i].current_value as i128;
            i = i + 1;
        }
        proof {
            assert(self.positions@.subrange(0, n as int) =~= self.positions@);
        }
        self.current_capital as i128 + sum
    }

    /// Sum of the unrealized profits of every position.
    pub fn total_unrealized_pnl(&self) -> (r: i128)
        requires
            self.wf(),
        ensures
            r == positions_pnl(self.positions@),
    {
        let mut sum: i128 = 0;
        let mut i: usize = 0;
        let n = self.positions.len();
        while i < n
            invariant
                self.wf(),
                i <= n,
                n == self.positions@.len(),
                sum == positions_pnl(self.positions@.subrange(0, i as int)),
                -(i * VALUE_MAX) <= sum <= i * VALUE_MAX,
            decreases n - i,
        {
            proof {
                let pre = self.positions@.subrange(0, i as int + 1);
                assert(pre.drop_last() =~= self.positions@.subrange(0, i as int));
                assert(pre.last() == self.positions@[i as int]);
                lemma_position_value_bounds(self.positions@[i as int]);
                assert((i + 1) * VALUE_MAX == i * VALUE_MAX + VALUE_MAX) by (nonlinear_arith);
            }
            sum = sum + self.positions[i].unrealized_pnl as i128;
            i = i + 1;
        }
        proof {
            assert(self.positions@.subrange(0, n as int) =~= self.positions@);
        }
        sum
    }

    /// Appends a snapshot of the current value, cash and total return.
    pub fn create_snapshot(&mut self)
        requires
            old(self).wf(),
        ensures
            final(self).performance_snapshots@.len() == old(self).performance_snapshots@.len()
                + 1,
            ({
                let snap = final(self).performance_snapshots@.last();
                &&& snap.total_value == old(self).current_capital + positions_value(
                    old(self).positions@,
                )
                &&& snap.cash_balance == old(self).current_capital
                &&& snap.positions_value == positions_value(old(self).positions@)
                &&& snap.total_return == snap.total_value - old(self).initial_capital
                &&& snap.daily_return == 0
                &&& snap.drawdown == 0
            }),
            forall|k: int|
                0 <= k < old(self).performance_snapshots@.len() ==> final(self).performance_snapshots@[k] == old(self).performance_snapshots@[k],
            final(self).positions@ == old(self).positions@,
            final(self).current_capital == old(self).current_capital,
            final(self).trade_history@ == old(self).trade_history@,
            final(self).wf(),
    {
        let n = self.positions.len();
        proof {
            lemma_positions_value_seq_bounds(self.positions@);
            assert(positions_value(self.positions@) <= 18_446_744_073_709_551_615
                * 1_000_000_000_000_000_000) by (nonlinear_arith)
                requires
                    positions_value(self.positions@) <= n as int * VALUE_MAX,
                    n as int <= 18_446_744_073_709_551_615,
                    VALUE_MAX == 1_000_000_000_000_000_000i64,
            ;
        }
        let total = self.total_value();
        let positions_total = total - self.current_capital as i128;
        let snapshot = PerformanceSnapshot {
            timestamp: now_seconds(),
            total_value: total,
            cash_balance: self.current_capital,
            positions_value: positions_total,
            total_return: total - self.initial_capital as i128,
            daily_return: 0,
            drawdown: 0,
        };
        self.performance_snapshots.push(snapshot);
        self.last_updated = now_seconds();
    }
}

/// A well-formed position's value, cost and profit all lie within
/// one position-value bound.
pub proof fn lemma_position_value_bounds(p: Position)
    requires
        p.wf(),
    ensures
        0 <= p.current_value <= VALUE_MAX,
        0 <= p.cost_basis <= VALUE_MAX,
        -VALUE_MAX <= p.unrealized_pnl <= VALUE_MAX,
{
    assert(0 <= p.shares as int * p.current_price as int <= VALUE_MAX) by (nonlinear_arith)
        requires
            0 <= p.shares as int <= SHARES_MAX,
            0 <= p.current_price as int <= PRICE_MAX,
    ;
    assert(0 <= p.shares as int * p.average_price as int <= VALUE_MAX) by (nonlinear_arith)
        requires
            0 <= p.shares as int <= SHARES_MAX,
            0 <= p.average_price as int <= PRICE_MAX,
    ;
}

/// The total value and profit of a sequence of well-formed positions
/// grow at most linearly with its length.
pub proof fn lemma_positions_value_seq_bounds(s: Seq<Position>)
    requires
        forall|i: int| 0 <= i < s.len() ==> (#[trigger] s[i]).wf(),
    ensures
        0 <= positions_value(s) <= s.len() * VALUE_MAX,
        -(s.len() * VALUE_MAX) <= positions_pnl(s) <= s.len() * VALUE_MAX,
    decreases s.len(),
{
    if s.len() > 0 {
        assert forall|i: int| 0 <= i < s.drop_last().len() implies (#[trigger] s.drop_last()[i]).wf() by {
            assert(s.drop_last()[i] == s[i]);
        }
        lemma_positions_value_seq_bounds(s.drop_last());
        lemma_position_value_bounds(s.last());
        assert(s.len() as int * VALUE_MAX == (s.len() - 1) * VALUE_MAX + VALUE_MAX) by (
        nonlinear_arith);
    }
}

/// First listed price for a symbol, if any.
pub open spec fn price_lookup(s: Seq<(String, i64)>, sym: Seq<char>) -> Option<i64>
    decreases s.len(),
{
    if s.len() == 0 {
        None
    } else if s[0].0@ == sym {
        Some(s[0].1)
    } else {
        price_lookup(s.drop_first(), sym)
    }
}

/// A listed price found by lookup lies in the accepted price range
/// when every listed price does.
proof fn lemma_price_lookup_in_range(s: Seq<(String, i64)>, sym: Seq<char>)
    requires
        forall|i: int| 0 <= i < s.len() ==> price_ok((#[trigger] s[i]).1 as int),
    ensures
        price_lookup(s, sym) matches Some(p) ==> price_ok(p as int),
    decreases s.len(),
{
    if s.len() > 0 && s[0].0@ != sym {
        assert forall|i: int| 0 <= i < s.drop_first().len() implies price_ok(
            (#[trigger] s.drop_first()[i]).1 as int,
        ) by {
            assert(s.drop_first()[i] == s[i + 1]);
        }
        lemma_price_lookup_in_range(s.drop_first(), sym);
    }
}

/// Scans a price list for a symbol.
pub fn lookup_price(prices: &Vec<(String, i64)>, symbol: &String) -> (r: Option<i64>)
    ensures
        r == price_lookup(prices@, symbol@),
{
    let n = prices.len();
    proof {
        assert(prices@.subrange(0, n as int) =~= prices@);
    }
    let mut i: usize = 0;
    while i < n
        invariant
            i <= n,
            n == prices@.len(),
            price_lookup(prices@, symbol@) == price_lookup(
                prices@.subrange(i as int, n as int),
                symbol@,
            ),
        decreases n - i,
    {
        proof {
            let rest = prices@.subrange(i as int, n as int);
            assert(rest[0] == prices@[i as int]);
            assert(rest.drop_first() =~= prices@.subrange(i as int + 1, n as int));
        }
        if prices[i].0 == *symbol {
            return Some(prices[i].1);
        }
        i = i + 1;
    }
    proof {
        assert(prices@.subrange(n as int, n as int).len() == 0);
    }
    None
}

/// The first `i` entries' realized profit, counting trades without a
/// stamped profit as zero.
pub open spec fn realized_upto(s: Seq<Trade>, i: int) -> int
    decreases i,
{
    if i <= 0 {
        0
    } else {
        realized_upto(s, i - 1) + match s[i - 1].realized_pnl {
            Some(p) => p as int,
            None => 0,
        }
    }
}

/// Number of winning trades (stamped profit strictly positive) among
/// the first `i` entries.
pub open spec fn wins_upto(s: Seq<Trade>, i: int) -> int
    decreases i,
{
    if i <= 0 {
        0
    } else {
        wins_upto(s, i - 1) + match s[i - 1].realized_pnl {
            Some(p) => if p > 0 {
                1int
            } else {
                0int
            },
            None => 0int,
        }
    }
}

/// Number of losing trades (stamped profit strictly negative) among
/// the first `i` entries.
pub open spec fn losses_upto(s: Seq<Trade>, i: int) -> int
    decreases i,
{
    if i <= 0 {
        0
    } else {
        losses_upto(s, i - 1) + match s[i - 1].realized_pnl {
            Some(p) => if p < 0 {
                1int
            } else {
                0int
            },
            None => 0int,
        }
    }
}

/// Sum of the winning trades' profits among the first `i` entries.
pub open spec fn win_sum_upto(s: Seq<Trade>, i: int) -> int
    decreases i,
{
    if i <= 0 {
        0
    } else {
        win_sum_upto(s, i - 1) + match s[i - 1].realized_pnl {
            Some(p) => if p > 0 {
                p as int
            } else {
                0int
            },
            None => 0int,
        }
    }
}

/// Sum of the losing trades' loss magnitudes among the first `i`
/// entries.
pub open spec fn loss_sum_upto(s: Seq<Trade>, i: int) -> int
    decreases i,
{
    if i <= 0 {
        0
    } else {
        loss_sum_upto(s, i - 1) + match s[i - 1].realized_pnl {
            Some(p) => if p < 0 {
                -(p as int)
            } else {
                0int
            },
            None => 0int,
        }
    }
}

/// Every stamped profit in the sequence lies within the single-trade
/// value bound.
pub open spec fn pnls_ok(s: Seq<Trade>) -> bool {
    forall|k: int|
        0 <= k < s.len() ==> match (#[trigger] s[k]).realized_pnl {
            Some(p) => value_ok(p as int),
            None => true,
        }
}

/// Bounds on the aggregates over the first `i` trades.
pub proof fn lemma_aggregates_bounds(s: Seq<Trade>, i: int)
    requires
        pnls_ok(s),
        0 <= i <= s.len(),
    ensures
        0 <= wins_upto(s, i) <= i,
        0 <= losses_upto(s, i) <= i,
        0 <= win_sum_upto(s, i) <= wins_upto(s, i) * VALUE_MAX,
        0 <= loss_sum_upto(s, i) <= losses_upto(s, i) * VALUE_MAX,
        -(i * VALUE_MAX) <= realized_upto(s, i) <= i * VALUE_MAX,
    decreases i,
{
    if i > 0 {
        lemma_aggregates_bounds(s, i - 1);
        assert((wins_upto(s, i - 1) + 1) * VALUE_MAX == wins_upto(s, i - 1) * VALUE_MAX
            + VALUE_MAX) by (nonlinear_arith);
        assert((losses_upto(s, i - 1) + 1) * VALUE_MAX == losses_upto(s, i - 1) * VALUE_MAX
            + VALUE_MAX) by (nonlinear_arith);
        assert(i * VALUE_MAX == (i - 1) * VALUE_MAX + VALUE_MAX) by (nonlinear_arith);
        assert(wins_upto(s, i) * VALUE_MAX >= win_sum_upto(s, i)) by (nonlinear_arith)
            requires
                wins_upto(s, i) == wins_upto(s, i - 1) || wins_upto(s, i) == wins_upto(s, i - 1)
                    + 1,
                win_sum_upto(s, i) <= wins_upto(s, i - 1) * VALUE_MAX + if wins_upto(s, i)
                    == wins_upto(s, i - 1) + 1 {
                    VALUE_MAX as int
                } else {
                    0int
                },
                (wins_upto(s, i - 1) + 1) * VALUE_MAX == wins_upto(s, i - 1) * VALUE_MAX
                    + VALUE_MAX,
        ;
        assert(losses_upto(s, i) * VALUE_MAX >= loss_sum_upto(s, i)) by (nonlinear_arith)
            requires
                losses_upto(s, i) == losses_upto(s, i - 1) || losses_upto(s, i) == losses_upto(
                    s,
                    i - 1,
                ) + 1,
                loss_sum_upto(s, i) <= losses_upto(s, i - 1) * VALUE_MAX + if losses_upto(s, i)
                    == losses_upto(s, i - 1) + 1 {
                    VALUE_MAX as int
                } else {
                    0int
                },
                (losses_upto(s, i - 1) + 1) * VALUE_MAX == losses_upto(s, i - 1) * VALUE_MAX
                    + VALUE_MAX,
        ;
    }
}

/// `r` is the integer square root of `x`.
pub open spec fn is_sqrt(r: int, x: int) -> bool {
    &&& r >= 0
    &&& r * r <= x
    &&& x < (r + 1) * (r + 1)
}

/// The integer square root is unique.
pub proof fn lemma_is_sqrt_unique(a: int, b: int, x: int)
    requires
        is_sqrt(a, x),
        is_sqrt(b, x),
    ensures
        a == b,
{
    assert(a == b) by (nonlinear_arith)
        requires
            a >= 0,
            b >= 0,
            a * a <= x,
            x < (a + 1) * (a + 1),
            b * b <= x,
            x < (b + 1) * (b + 1),
    ;
}

/// Integer square root by bisection.
pub fn isqrt_u128(x: u128) -> (r: u64)
    ensures
        is_sqrt(r as int, x as int),
{
    let mut lo: u64 = 0;
    let mut hi: u64 = u64::MAX;
    proof {
        assert((hi as int + 1) * (hi as int + 1) > x as int) by (nonlinear_arith)
            requires
                hi == u64::MAX,
                x <= u128::MAX,
        ;
    }
    while lo < hi
        invariant
            lo <= hi,
            lo as int * lo as int <= x as int,
            (hi as int + 1) * (hi as int + 1) > x as int,
        decreases hi - lo,
    {
        let mid: u64 = hi - (hi - lo) / 2;
        proof {
            assert(mid as int * mid as int <= u128::MAX) by (nonlinear_arith)
                requires
                    mid <= u64::MAX,
            ;
        }
        let mm: u128 = (mid as u128) * (mid as u128);
        if mm <= x {
            lo = mid;
        } else {
            hi = mid - 1;
        }
    }
    lo
}

/// Sum of squared deviations of the first `i` entries from `m`.
pub open spec fn devsq_upto(s: Seq<i64>, m: int, i: int) -> int
    decreases i,
{
    if i <= 0 {
        0
    } else {
        devsq_upto(s, m, i - 1) + (s[i - 1] - m) * (s[i - 1] - m)
    }
}

/// Derived performance statistics, recomputed wholesale from a trade
/// list.
#[derive(Debug, Clone, PartialEq)]
pub struct PerformanceMetrics {
    pub strategy_id: String,
    pub total_return: i64,
    pub total_return_percent: i128,
    pub total_trades: u32,
    pub winning_trades: u32,
    pub losing_trades: u32,
    pub current_position: Position,
    pub max_drawdown: i64,
    pub max_drawdown_percent: i128,
    pub sharpe_ratio: Option<i64>,
    /// Wins over total, as a fixed-point percentage.
    pub win_rate: i64,
    pub average_win: i64,
    pub average_loss: i64,
    /// Average win over average loss, fixed-point.
    pub profit_factor: i128,
    pub initial_capital: i64,
    pub current_capital: i64,
    /// Unix seconds.
    pub last_updated: i64,
}

impl PerformanceMetrics {
    /// Builds zeroed metrics for a strategy with the given starting
    /// capital.
    pub fn new(strategy_id: String, initial_capital: i64) -> (r: PerformanceMetrics)
        ensures
            r.strategy_id == strategy_id,
            r.total_return == 0,
            r.total_return_percent == 0,
            r.total_trades == 0,
            r.winning_trades == 0,
            r.losing_trades == 0,
            r.max_drawdown == 0,
            r.max_drawdown_percent == 0,
            r.sharpe_ratio is None,
            r.win_rate == 0,
            r.average_win == 0,
            r.average_loss == 0,
            r.profit_factor == 0,
            r.initial_capital == initial_capital,
            r.current_capital == initial_capital,
    {
        PerformanceMetrics {
            strategy_id,
            total_return: 0,
            total_return_percent: 0,
            total_trades: 0,
            winning_trades: 0,
            losing_trades: 0,
            current_position: Position::empty(String::new()),
            max_drawdown: 0,
            max_drawdown_percent: 0,
            sharpe_ratio: None,
            win_rate: 0,
            average_win: 0,
            average_loss: 0,
            profit_factor: 0,
            initial_capital: initial_capital,
            current_capital: initial_capital,
            last_updated: now_seconds(),
        }
    }

    /// Recomputes counts, totals, win rate, average win and loss and
    /// profit factor wholesale from a trade list; nothing is carried
    /// over from a previous update.  Trades without a stamped profit
    /// count toward the total only.  A rate whose denominator is
    /// zero reads as zero, and the profit factor is zero when no
    /// losses are recorded to divide by.
    pub fn update_from_trades(&mut self, trades: &Vec<Trade>)
        requires
            trades@.len() <= u32::MAX,
            pnls_ok(trades@),
            amount_ok(realized_upto(trades@, trades@.len() as int)),
            amount_ok(
                old(self).initial_capital + realized_upto(trades@, trades@.len() as int),
            ),
        ensures
            ({
                let n = trades@.len() as int;
                let total = realized_upto(trades@, n);
                let wins = wins_upto(trades@, n);
                let losses = losses_upto(trades@, n);
                &&& final(self).total_trades == n
                &&& final(self).winning_trades == wins
                &&& final(self).losing_trades == losses
                &&& final(self).total_return == total
                &&& final(self).total_return_percent == (if old(self).initial_capital > 0 {
                    pct_of(total, old(self).initial_capital as int)
                } else {
                    0int
                })
                &&& final(self).current_capital == old(self).initial_capital + total
                &&& final(self).win_rate == (if n > 0 {
                    (wins * 100 * SCALE) / n
                } else {
                    0int
                })
                &&& final(self).average_win == (if wins > 0 {
                    win_sum_upto(trades@, n) / wins
                } else {
                    0int
                })
                &&& final(self).average_loss == (if losses > 0 {
                    loss_sum_upto(trades@, n) / losses
                } else {
                    0int
                })
                &&& final(self).profit_factor == (if final(self).average_loss > 0 {
                    (final(self).average_win * SCALE) / final(self).average_loss as int
                } else {
                    0int
                })
            }),
            final(self).strategy_id == old(self).strategy_id,
            final(self).initial_capital == old(self).initial_capital,
            final(self).max_drawdown == old(self).max_drawdown,
            final(self).max_drawdown_percent == old(self).max_drawdown_percent,
            final(self).sharpe_ratio == old(self).sharpe_ratio,
            final(self).current_position == old(self).current_position,
    {
        let n = trades.len();
        let ghost ts = trades@;
        let mut total_pnl: i128 = 0;
        let mut wins: u32 = 0;
        let mut losses: u32 = 0;
        let mut win_sum: i128 = 0;
        let mut loss_sum: i128 = 0;
        let mut i: usize = 0;
        while i < n
            invariant
                i <= n,
                n == ts.len(),
                ts == trades@,
                n <= u32::MAX,
                pnls_ok(ts),
                total_pnl == realized_upto(ts, i as int),
                wins == wins_upto(ts, i as int),
                losses == losses_upto(ts, i as int),
                win_sum == win_sum_upto(ts, i as int),
                loss_sum == loss_sum_upto(ts, i as int),
            decreases n - i,
        {
            proof {
                lemma_aggregates_bounds(ts, i as int);
                lemma_aggregates_bounds(ts, i as int + 1);
            }
            match trades[i].realized_pnl {
                Some(pnl) => {
                    total_pnl = total_pnl + pnl as i128;
                    if pnl > 0 {
                        wins = wins + 1;
                        win_sum = win_sum + pnl as i128;
                    } else if pnl < 0 {
                        losses = losses + 1;
                        loss_sum = loss_sum - pnl as i128;
                    }
                },
                None => {},
            }
            i = i + 1;
        }
        proof {
            lemma_aggregates_bounds(ts, n as int);
        }
        self.total_trades = n as u32;
        self.winning_trades = wins;
        self.losing_trades = losses;
        self.total_return = total_pnl as i64;
        self.total_return_percent = if self.initial_capital > 0 {
            pct_fp(self.total_return, self.initial_capital)
        } else {
            0
        };
        self.current_capital = self.initial_capital + total_pnl as i64;
        self.win_rate = if self.total_trades > 0 {
            let rate: u128 = (wins as u128) * 100 * (SCALE as u128) / (n as u128);
            proof {
                assert((wins as int * 100 * SCALE) / n as int <= 100 * SCALE) by (nonlinear_arith)
                    requires
                        0 <= wins as int <= n as int,
                        n as int >= 1,
                ;
            }
            rate as i64
        } else {
            0
        };
        self.average_win = if wins > 0 {
            proof {
                assert(win_sum as int / wins as int <= VALUE_MAX) by (nonlinear_arith)
                    requires
                        0 <= win_sum as int <= wins as int * VALUE_MAX,
                        wins as int >= 1,
                ;
            }
            ((win_sum as u128) / (wins as u128)) as i64
        } else {
            0
        };
        self.average_loss = if losses > 0 {
            proof {
                assert(loss_sum as int / losses as int <= VALUE_MAX) by (nonlinear_arith)
                    requires
                        0 <= loss_sum as int <= losses as int * VALUE_MAX,
                        losses as int >= 1,
                ;
            }
            ((loss_sum as u128) / (losses as u128)) as i64
        } else {
            0
        };
        self.profit_factor = if self.average_loss > 0 {
            let factor = floor_div(self.average_win as i128 * 10_000, self.average_loss as i128);
            proof {
                assert(self.average_win as i128 * 10_000 == self.average_win as int * SCALE);
            }
            factor
        } else {
            0
        };
        self.last_updated = now_seconds();
    }

    /// Computes the Sharpe ratio `(mean - risk_free) / stddev` over a
    /// return series, with the sample standard deviation rounded down
    /// to the unit grid; None when fewer than two observations exist
    /// or the rounded deviation is zero.
    pub fn calculate_sharpe_ratio(&mut self, observations: &Vec<i64>, risk_free_rate: i64)
        requires
            observations@.len() <= 1_000_000,
            forall|k: int|
                0 <= k < observations@.len() ==> -PRICE_MAX <= #[trigger] observations@[k] <= PRICE_MAX,
            -PRICE_MAX <= risk_free_rate <= PRICE_MAX,
        ensures
            observations@.len() < 2 ==> final(self).sharpe_ratio is None,
            observations@.len() >= 2 ==> ({
                let n = observations@.len() as int;
                let mean = sum_range(observations@, 0, n) / n;
                let variance = devsq_upto(observations@, mean, n) / (n - 1);
                forall|sd: int|
                    is_sqrt(sd, variance) ==> final(self).sharpe_ratio == (if sd > 0 {
                        Some((((mean - risk_free_rate) * SCALE) / sd) as i64)
                    } else {
                        None::<i64>
                    })
            }),
            final(self).strategy_id == old(self).strategy_id,
            final(self).total_return == old(self).total_return,
            final(self).total_trades == old(self).total_trades,
            final(self).winning_trades == old(self).winning_trades,
            final(self).losing_trades == old(self).losing_trades,
            final(self).win_rate == old(self).win_rate,
            final(self).average_win == old(self).average_win,
            final(self).average_loss == old(self).average_loss,
            final(self).profit_factor == old(self).profit_factor,
            final(self).max_drawdown == old(self).max_drawdown,
            final(self).max_drawdown_percent == old(self).max_drawdown_percent,
            final(self).initial_capital == old(self).initial_capital,
            final(self).current_capital == old(self).current_capital,
            final(self).current_position == old(self).current_position,
    {
        let n = observations.len();
        if n < 2 {
            self.sharpe_ratio = None;
            return ;
        }
        let ghost rs = observations@;
        let mut sum: i128 = 0;
        let mut i: usize = 0;
        while i < n
            invariant
                i <= n,
                n == rs.len(),
                rs == observations@,
                forall|k: int| 0 <= k < rs.len() ==> -PRICE_MAX <= #[trigger] rs[k] <= PRICE_MAX,
                sum == sum_range(rs, 0, i as int),
                -(i * PRICE_MAX) <= sum <= i * PRICE_MAX,
            decreases n - i,
        {
            proof {
                lemma_sum_range_snoc(rs, 0, i as int);
                lemma_sum_range_bound(rs, 0, i as int + 1, PRICE_MAX as int);
            }
            sum = sum + observations[i] as i128;
            i = i + 1;
        }
        let mean: i128 = floor_div(sum, n as i128);
        proof {
            assert(-(PRICE_MAX as int) - 1 <= sum as int / n as int <= PRICE_MAX) by (
            nonlinear_arith)
                requires
                    -(n as int * PRICE_MAX) <= sum as int <= n as int * PRICE_MAX,
                    n as int >= 2,
            ;
        }
        let ghost m = mean as int;
        let mut devsq: i128 = 0;
        let mut j: usize = 0;
        while j < n
            invariant
                j <= n,
                n == rs.len(),
                rs == observations@,
                n <= 1_000_000,
                forall|k: int| 0 <= k < rs.len() ==> -PRICE_MAX <= #[trigger] rs[k] <= PRICE_MAX,
                -(PRICE_MAX as int) - 1 <= mean <= PRICE_MAX,
                m == mean as int,
                devsq == devsq_upto(rs, m, j as int),
                0 <= devsq <= j * 5_000_000_000_000_000_000_000_000,
            decreases n - j,
        {
            proof {
                assert(-PRICE_MAX <= rs[j as int] <= PRICE_MAX);
            }
            let dev: i128 = observations[j] as i128 - mean;
            proof {
                assert(0 <= dev * dev <= 5_000_000_000_000_000_000_000_000) by (nonlinear_arith)
                    requires
                        -2_000_000_000_002 <= dev as int <= 2_000_000_000_002,
                ;
                assert(devsq_upto(rs, m, j as int + 1) == devsq_upto(rs, m, j as int) + (rs[j as int]
                    - m) * (rs[j as int] - m));
                assert((rs[j as int] - m) * (rs[j as int] - m) == dev * dev) by (nonlinear_arith)
                    requires
                        dev as int == rs[j as int] - m,
                ;
            }
            devsq = devsq + dev * dev;
            j = j + 1;
        }
        let variance: i128 = floor_div(devsq, n as i128 - 1);
        proof {
            assert(0 <= devsq as int / (n as int - 1) <= devsq as int) by (nonlinear_arith)
                requires
                    devsq as int >= 0,
                    n as int - 1 >= 1,
            ;
        }
        let std_dev: u64 = isqrt_u128(variance as u128);
        if std_dev > 0 {
            let numer: i128 = (mean - risk_free_rate as i128) * 10_000;
            let sharpe: i128 = floor_div(numer, std_dev as i128);
            proof {
                assert(numer == (m - risk_free_rate as int) * SCALE);
                assert(i64::MIN <= numer as int / std_dev as int <= i64::MAX) by (nonlinear_arith)
                    requires
                        -(3 * PRICE_MAX as int * SCALE) <= numer as int <= 3 * PRICE_MAX as int
                            * SCALE,
                        std_dev as int >= 1,
                        i64::MIN == -0x8000000000000000,
                        i64::MAX == 0x7fffffffffffffff,
                        PRICE_MAX == 1_000_000_000_000i64,
                        SCALE == 10_000i64,
                ;
            }
            self.sharpe_ratio = Some(sharpe as i64);
            proof {
                assert forall|sd: int| is_sqrt(sd, variance as int) implies self.sharpe_ratio
                    == (if sd > 0 {
                    Some((((m - risk_free_rate) * SCALE) / sd) as i64)
                } else {
                    None::<i64>
                }) by {
                    lemma_is_sqrt_unique(sd, std_dev as int, variance as int);
                }
            }
        } else {
            self.sharpe_ratio = None;
            proof {
                assert forall|sd: int| is_sqrt(sd, variance as int) implies self.sharpe_ratio
                    == (if sd > 0 {
                    Some((((m - risk_free_rate) * SCALE) / sd) as i64)
                } else {
                    None::<i64>
                }) by {
                    lemma_is_sqrt_unique(sd, std_dev as int, variance as int);
                }
            }
        }
        self.last_updated = now_seconds();
    }

    /// Feeds one observation to the running high-water-mark drawdown:
    /// the recorded maxima never decrease.
    pub fn update_drawdown(&mut self, current_value: i64, peak_value: i64)
        requires
            amount_ok(current_value as int),
            amount_ok(peak_value as int),
        ensures
            final(self).max_drawdown == (if peak_value - current_value
                > old(self).max_drawdown {
                peak_value - current_value
            } else {
                old(self).max_drawdown as int
            }),
            final(self).max_drawdown_percent == ({
                let dp = if peak_value > 0 {
                    pct_of(peak_value - current_value, peak_value as int)
                } else {
                    0int
                };
                if dp > old(self).max_drawdown_percent {
                    dp
                } else {
                    old(self).max_drawdown_percent as int
                }
            }),
            final(self).max_drawdown >= old(self).max_drawdown,
            final(self).max_drawdown_percent >= old(self).max_drawdown_percent,
            final(self).strategy_id == old(self).strategy_id,
            final(self).total_return == old(self).total_return,
            final(self).sharpe_ratio == old(self).sharpe_ratio,
            final(self).win_rate == old(self).win_rate,
            final(self).current_capital == old(self).current_capital,
    {
        let drawdown: i64 = peak_value - current_value;
        let drawdown_percent: i128 = if peak_value > 0 {
            pct_fp(drawdown, peak_value)
        } else {
            0
        };
        if drawdown > self.max_drawdown {
            self.max_drawdown = drawdown;
        }
        if drawdown_percent > self.max_drawdown_percent {
            self.max_drawdown_percent = drawdown_percent;
        }
    }
}

} // verus!
