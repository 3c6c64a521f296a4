//! Aggregate statistics of the trades that a backtest closed, in exact decimal amounts.

use vstd::prelude::*;
use crate::money::{Money, abs_money, sum_of, sum_amounts, all_wf, spec_div, checked_div, less_than};

verus! {

/// Slippage and commission charged to a trade.
#[derive(Debug, Clone, Copy, PartialEq, Eq, Structural)]
pub struct CostBreakdown {
    pub slippage: Money,
    pub commission: Money,
}

/// What the statistics read of one closed trade.
#[derive(Debug, Clone, Copy, PartialEq, Eq, Structural)]
pub struct TradeOutcome {
    /// P&L of the trade, net of costs when costs were applied.
    pub pnl: Money,
    /// P&L in percent.
    pub pnl_pct: Money,
    pub is_winner: bool,
    pub has_hedge_data: bool,
    pub hedge_pnl: Option<Money>,
    pub total_pnl_with_hedge: Option<Money>,
    /// Capital the trade required.
    pub capital_required: Money,
    pub has_costs: bool,
    pub total_costs: Option<Money>,
    /// P&L before costs, when costs were applied.
    pub gross_pnl: Option<Money>,
    pub cost_breakdown: Option<CostBreakdown>,
}

impl TradeOutcome {
    /// Whether every amount of the outcome is one rust_decimal can hold.
    pub open spec fn wf(self) -> bool {
        &&& self.pnl.wf()
        &&& self.pnl_pct.wf()
        &&& self.capital_required.wf()
        &&& (self.hedge_pnl matches Some(h) ==> h.wf())
        &&& (self.total_pnl_with_hedge matches Some(h) ==> h.wf())
        &&& (self.total_costs matches Some(c) ==> c.wf())
        &&& (self.gross_pnl matches Some(g) ==> g.wf())
        &&& (self.cost_breakdown matches Some(b) ==> b.slippage.wf() && b.commission.wf())
    }

    /// Whether the trade lost money.
    pub open spec fn is_loser(self) -> bool {
        self.pnl.scaled() < 0
    }
}

/// P&L of every trade.
pub open spec fn pnls(s: Seq<TradeOutcome>) -> Seq<Money>
    decreases s.len(),
{
    if s.len() == 0 {
        Seq::empty()
    } else {
        pnls(s.drop_last()).push(s.last().pnl)
    }
}

/// Hedge P&L of the trades that have one.
pub open spec fn hedge_pnls(s: Seq<TradeOutcome>) -> Seq<Money>
    decreases s.len(),
{
    if s.len() == 0 {
        Seq::empty()
    } else {
        match s.last().hedge_pnl {
            Some(h) => hedge_pnls(s.drop_last()).push(h),
            None => hedge_pnls(s.drop_last()),
        }
    }
}

/// P&L including hedges of every trade, or its P&L when it has none.
pub open spec fn pnls_with_hedge(s: Seq<TradeOutcome>) -> Seq<Money>
    decreases s.len(),
{
    if s.len() == 0 {
        Seq::empty()
    } else {
        pnls_with_hedge(s.drop_last()).push(
            match s.last().total_pnl_with_hedge {
                Some(t) => t,
                None => s.last().pnl,
            },
        )
    }
}

/// P&L of the winning trades.
pub open spec fn winner_pnls(s: Seq<TradeOutcome>) -> Seq<Money>
    decreases s.len(),
{
    if s.len() == 0 {
        Seq::empty()
    } else if s.last().is_winner {
        winner_pnls(s.drop_last()).push(s.last().pnl)
    } else {
        winner_pnls(s.drop_last())
    }
}

/// P&L of the losing trades.
pub open spec fn loser_pnls(s: Seq<TradeOutcome>) -> Seq<Money>
    decreases s.len(),
{
    if s.len() == 0 {
        Seq::empty()
    } else if s.last().is_loser() {
        loser_pnls(s.drop_last()).push(s.last().pnl)
    } else {
        loser_pnls(s.drop_last())
    }
}

/// Magnitudes of the losing trades' P&L.
pub open spec fn loser_losses(s: Seq<TradeOutcome>) -> Seq<Money>
    decreases s.len(),
{
    if s.len() == 0 {
        Seq::empty()
    } else if s.last().is_loser() {
        loser_losses(s.drop_last()).push(abs_money(s.last().pnl))
    } else {
        loser_losses(s.drop_last())
    }
}

/// Capital of every trade.
pub open spec fn capitals(s: Seq<TradeOutcome>) -> Seq<Money>
    decreases s.len(),
{
    if s.len() == 0 {
        Seq::empty()
    } else {
        capitals(s.drop_last()).push(s.last().capital_required)
    }
}

/// Total costs of the trades that have them.
pub open spec fn costs(s: Seq<TradeOutcome>) -> Seq<Money>
    decreases s.len(),
{
    if s.len() == 0 {
        Seq::empty()
    } else {
        match s.last().total_costs {
            Some(c) => costs(s.drop_last()).push(c),
            None => costs(s.drop_last()),
        }
    }
}

/// Gross P&L of every trade, or its P&L when none was recorded.
pub open spec fn gross_pnls(s: Seq<TradeOutcome>) -> Seq<Money>
    decreases s.len(),
{
    if s.len() == 0 {
        Seq::empty()
    } else {
        gross_pnls(s.drop_last()).push(
            match s.last().gross_pnl {
                Some(g) => g,
                None => s.last().pnl,
            },
        )
    }
}

/// Slippage of the trades with a cost breakdown.
pub open spec fn slippages(s: Seq<TradeOutcome>) -> Seq<Money>
    decreases s.len(),
{
    if s.len() == 0 {
        Seq::empty()
    } else {
        match s.last().cost_breakdown {
            Some(b) => slippages(s.drop_last()).push(b.slippage),
            None => slippages(s.drop_last()),
        }
    }
}

/// Commissions of the trades with a cost breakdown.
pub open spec fn commissions(s: Seq<TradeOutcome>) -> Seq<Money>
    decreases s.len(),
{
    if s.len() == 0 {
        Seq::empty()
    } else {
        match s.last().cost_breakdown {
            Some(b) => commissions(s.drop_last()).push(b.commission),
            None => commissions(s.drop_last()),
        }
    }
}

/// Number of trades with costs applied.
pub open spec fn count_with_costs(s: Seq<TradeOutcome>) -> nat
    decreases s.len(),
{
    if s.len() == 0 {
        0
    } else if s.last().has_costs {
        count_with_costs(s.drop_last()) + 1
    } else {
        count_with_costs(s.drop_last())
    }
}

/// Average of a sum over a count: zero for no items, else the checked quotient.
pub open spec fn average(total: Option<Money>, count: nat) -> Option<Money> {
    if count == 0 {
        Some(Money::spec_zero())
    } else {
        match total {
            None => None,
            Some(t) => spec_div(t, Money { mantissa: count as i128, scale: 0 }),
        }
    }
}

/// Gross profit against gross loss.
#[derive(Debug, Clone, Copy, PartialEq, Eq, Structural)]
pub enum ProfitFactor {
    /// No trade lost money; `has_profit` tells whether the gross profit is positive.
    NoLosses { has_profit: bool },
    /// Gross profit over gross loss.
    Ratio(Money),
}

/// The profit factor of a gross profit and a gross loss, when both sums exist.
pub open spec fn spec_profit_factor(profit: Option<Money>, loss: Option<Money>) -> Option<ProfitFactor> {
    match (profit, loss) {
        (Some(p), Some(l)) => if l.mantissa == 0 {
            Some(ProfitFactor::NoLosses { has_profit: p.scaled() > 0 })
        } else {
            match spec_div(p, l) {
                Some(q) => Some(ProfitFactor::Ratio(q)),
                None => None,
            }
        },
        _ => None,
    }
}

/// `numerator / base` (over the base's magnitude when `by_magnitude`), read the way the
/// statistics read it: the base is summed first, and a zero base gives `Some(None)`
/// without the numerator being summed.
pub open spec fn spec_ratio_over(base: Option<Money>, numerator: Option<Money>, by_magnitude: bool) -> Option<
    Option<Money>,
> {
    match base {
        None => None,
        Some(b) => if b.mantissa == 0 {
            Some(None)
        } else {
            match numerator {
                None => None,
                Some(n) => match spec_div(n, if by_magnitude { abs_money(b) } else { b }) {
                    Some(q) => Some(Some(q)),
                    None => None,
                },
            }
        },
    }
}

/// Results of a backtest.
#[derive(Debug, Clone)]
pub struct BacktestResult {
    pub results: Vec<TradeOutcome>,
    pub sessions_processed: usize,
    pub total_entries: usize,
    pub total_opportunities: usize,
}

/// Which amount of a trade a collection step picks.
#[derive(Debug, Clone, Copy, PartialEq, Eq, Structural)]
pub enum AmountKind {
    Pnl,
    HedgePnl,
    PnlWithHedge,
    WinnerPnl,
    LoserPnl,
    LoserLoss,
    Capital,
    TotalCosts,
    GrossPnl,
    Slippage,
    Commission,
}

/// The amounts of one kind, in trade order.
pub open spec fn amounts_of(kind: AmountKind, s: Seq<TradeOutcome>) -> Seq<Money> {
    match kind {
        AmountKind::Pnl => pnls(s),
        AmountKind::HedgePnl => hedge_pnls(s),
        AmountKind::PnlWithHedge => pnls_with_hedge(s),
        AmountKind::WinnerPnl => winner_pnls(s),
        AmountKind::LoserPnl => loser_pnls(s),
        AmountKind::LoserLoss => loser_losses(s),
        AmountKind::Capital => capitals(s),
        AmountKind::TotalCosts => costs(s),
        AmountKind::GrossPnl => gross_pnls(s),
        AmountKind::Slippage => slippages(s),
        AmountKind::Commission => commissions(s),
    }
}

/// Whether every outcome holds amounts rust_decimal can hold.
pub open spec fn all_outcomes_wf(s: Seq<TradeOutcome>) -> bool {
    forall|i: int| 0 <= i < s.len() ==> (#[trigger] s[i]).wf()
}

proof fn lemma_amounts_wf(kind: AmountKind, s: Seq<TradeOutcome>)
    requires
        all_outcomes_wf(s),
    ensures
        all_wf(amounts_of(kind, s)),
    decreases s.len(),
{
    if s.len() > 0 {
        assert(all_outcomes_wf(s.drop_last()));
        lemma_amounts_wf(kind, s.drop_last());
        assert(s.last() == s[s.len() - 1]);
        let prev = amounts_of(kind, s.drop_last());
        let cur = amounts_of(kind, s);
        assert forall|i: int| 0 <= i < cur.len() implies (#[trigger] cur[i]).wf() by {
            if i < prev.len() {
                assert(cur[i] == prev[i]);
            }
        }
    }
}

/// Collects the amounts of one kind, in trade order.
fn collect_amounts(kind: AmountKind, results: &Vec<TradeOutcome>) -> (r: Vec<Money>)
    requires
        all_outcomes_wf(results@),
    ensures
        r@ == amounts_of(kind, results@),
        all_wf(r@),
{
    let mut out: Vec<Money> = Vec::new();
    let mut i: usize = 0;
    while i < results.len()
        invariant
            i <= results@.len(),
            all_outcomes_wf(results@),
            out@ == amounts_of(kind, results@.take(i as int)),
        decreases results@.len() - i,
    {
        let t = results[i];
        assert(results@.take(i as int + 1).drop_last() =~= results@.take(i as int));
        assert(results@.take(i as int + 1).last() == t);
        let zero = Money::zero();
        proof {
            assert(zero.scaled() == 0) by (nonlinear_arith)
                requires zero.mantissa == 0;
        }
        match kind {
            AmountKind::Pnl => out.push(t.pnl),
            AmountKind::HedgePnl => {
                if let Some(h) = t.hedge_pnl {
                    out.push(h);
                }
            },
            AmountKind::PnlWithHedge => {
                match t.total_pnl_with_hedge {
                    Some(v) => out.push(v),
                    None => out.push(t.pnl),
                }
            },
            AmountKind::WinnerPnl => {
                if t.is_winner {
                    out.push(t.pnl);
                }
            },
            AmountKind::LoserPnl => {
                assert(t.pnl.wf());
                if less_than(t.pnl, zero) {
                    out.push(t.pnl);
                }
            },
            AmountKind::LoserLoss => {
                assert(t.pnl.wf());
                if less_than(t.pnl, zero) {
                    out.push(t.pnl.abs());
                }
            },
            AmountKind::Capital => out.push(t.capital_required),
            AmountKind::TotalCosts => {
                if let Some(c) = t.total_costs {
                    out.push(c);
                }
            },
            AmountKind::GrossPnl => {
                match t.gross_pnl {
                    Some(g) => out.push(g),
                    None => out.push(t.pnl),
                }
            },
            AmountKind::Slippage => {
                if let Some(b) = t.cost_breakdown {
                    out.push(b.slippage);
                }
            },
            AmountKind::Commission => {
                if let Some(b) = t.cost_breakdown {
                    out.push(b.commission);
                }
            },
        }
        i = i + 1;
    }
    assert(results@.take(results@.len() as int) =~= results@);
    proof {
        lemma_amounts_wf(kind, results@);
    }
    out
}

impl BacktestResult {
    /// Whether every trade holds amounts rust_decimal can hold.
    pub open spec fn wf(self) -> bool {
        all_outcomes_wf(self.results@)
    }

    /// Number of closed trades.
    pub fn successful_trades(&self) -> (r: usize)
        ensures
            r == self.results@.len(),
    {
        self.results.len()
    }

    /// Sum of the trades' P&L; `None` when the sum overflows.
    pub fn total_pnl(&self) -> (r: Option<Money>)
        requires
            self.wf(),
        ensures
            r == sum_of(pnls(self.results@)),
            r matches Some(m) ==> m.wf(),
    {
        let v = collect_amounts(AmountKind::Pnl, &self.results);
        sum_amounts(&v)
    }

    /// Whether any trade has hedging data.
    pub fn has_hedging(&self) -> (r: bool)
        ensures
            r == exists|i: int| 0 <= i < self.results@.len() && (#[trigger] self.results@[i]).has_hedge_data,
    {
        let mut i: usize = 0;
        while i < self.results.len()
            invariant
                i <= self.results@.len(),
                forall|j: int| 0 <= j < i ==> !(#[trigger] self.results@[j]).has_hedge_data,
            decreases self.results@.len() - i,
        {
            if self.results[i].has_hedge_data {
                return true;
            }
            i = i + 1;
        }
        false
    }

    /// Sum of the hedge P&L of the trades that have one.
    pub fn total_hedge_pnl(&self) -> (r: Option<Money>)
        requires
            self.wf(),
        ensures
            r == sum_of(hedge_pnls(self.results@)),
            r matches Some(m) ==> m.wf(),
    {
        let v = collect_amounts(AmountKind::HedgePnl, &self.results);
        sum_amounts(&v)
    }

    /// Sum of each trade's P&L including hedges, or of its P&L when it has none.
    pub fn total_pnl_with_hedge(&self) -> (r: Option<Money>)
        requires
            self.wf(),
        ensures
            r == sum_of(pnls_with_hedge(self.results@)),
            r matches Some(m) ==> m.wf(),
    {
        let v = collect_amounts(AmountKind::PnlWithHedge, &self.results);
        sum_amounts(&v)
    }

    /// Average P&L of the winning trades; zero when there is none.
    pub fn avg_winner(&self) -> (r: Option<Money>)
        requires
            self.wf(),
        ensures
            r == average(sum_of(winner_pnls(self.results@)), winner_pnls(self.results@).len()),
    {
        let v = collect_amounts(AmountKind::WinnerPnl, &self.results);
        if v.len() == 0 {
            return Some(Money::zero());
        }
        match sum_amounts(&v) {
            Some(total) => checked_div(total, Money::from_count(v.len())),
            None => None,
        }
    }

    /// Average P&L of the losing trades (P&L below zero); zero when there is none.
    pub fn avg_loser(&self) -> (r: Option<Money>)
        requires
            self.wf(),
        ensures
            r == average(sum_of(loser_pnls(self.results@)), loser_pnls(self.results@).len()),
    {
        let v = collect_amounts(AmountKind::LoserPnl, &self.results);
        if v.len() == 0 {
            return Some(Money::zero());
        }
        match sum_amounts(&v) {
            Some(total) => checked_div(total, Money::from_count(v.len())),
            None => None,
        }
    }

    /// Sum of the capital the trades required.
    pub fn total_capital_deployed(&self) -> (r: Option<Money>)
        requires
            self.wf(),
        ensures
            r == sum_of(capitals(self.results@)),
            r matches Some(m) ==> m.wf(),
    {
        let v = collect_amounts(AmountKind::Capital, &self.results);
        sum_amounts(&v)
    }

    /// Whether any trade has trading costs applied.
    pub fn has_trading_costs(&self) -> (r: bool)
        ensures
            r == exists|i: int| 0 <= i < self.results@.len() && (#[trigger] self.results@[i]).has_costs,
    {
        let mut i: usize = 0;
        while i < self.results.len()
            invariant
                i <= self.results@.len(),
                forall|j: int| 0 <= j < i ==> !(#[trigger] self.results@[j]).has_costs,
            decreases self.results@.len() - i,
        {
            if self.results[i].has_costs {
                return true;
            }
            i = i + 1;
        }
        false
    }

    /// Sum of the trading costs of the trades that have them.
    pub fn total_trading_costs(&self) -> (r: Option<Money>)
        requires
            self.wf(),
        ensures
            r == sum_of(costs(self.results@)),
            r matches Some(m) ==> m.wf(),
    {
        let v = collect_amounts(AmountKind::TotalCosts, &self.results);
        sum_amounts(&v)
    }

    /// Sum of the trades' P&L before costs (their P&L when no gross P&L was recorded).
    pub fn total_gross_pnl(&self) -> (r: Option<Money>)
        requires
            self.wf(),
        ensures
            r == sum_of(gross_pnls(self.results@)),
            r matches Some(m) ==> m.wf(),
    {
        let v = collect_amounts(AmountKind::GrossPnl, &self.results);
        sum_amounts(&v)
    }

    /// Sum of the slippage of the trades with a cost breakdown.
    pub fn total_slippage(&self) -> (r: Option<Money>)
        requires
            self.wf(),
        ensures
            r == sum_of(slippages(self.results@)),
            r matches Some(m) ==> m.wf(),
    {
        let v = collect_amounts(AmountKind::Slippage, &self.results);
        sum_amounts(&v)
    }

    /// Sum of the commissions of the trades with a cost breakdown.
    pub fn total_commissions(&self) -> (r: Option<Money>)
        requires
            self.wf(),
        ensures
            r == sum_of(commissions(self.results@)),
            r matches Some(m) ==> m.wf(),
    {
        let v = collect_amounts(AmountKind::Commission, &self.results);
        sum_amounts(&v)
    }

    /// Number of trades with trading costs applied.
    pub fn trades_with_costs(&self) -> (r: usize)
        ensures
            r == count_with_costs(self.results@),
            r <= self.results@.len(),
    {
        let mut n: usize = 0;
        let mut i: usize = 0;
        while i < self.results.len()
            invariant
                i <= self.results@.len(),
                n == count_with_costs(self.results@.take(i as int)),
                n <= i,
            decreases self.results@.len() - i,
        {
            assert(self.results@.take(i as int + 1).drop_last() =~= self.results@.take(i as int));
            if self.results[i].has_costs {
                n = n + 1;
            }
            i = i + 1;
        }
        assert(self.results@.take(self.results@.len() as int) =~= self.results@);
        n
    }

    /// Average trading cost over the trades with costs applied; zero when there is none.
    pub fn avg_cost_per_trade(&self) -> (r: Option<Money>)
        requires
            self.wf(),
        ensures
            r == average(sum_of(costs(self.results@)), count_with_costs(self.results@)),
    {
        let count = self.trades_with_costs();
        if count == 0 {
            return Some(Money::zero());
        }
        match self.total_trading_costs() {
            Some(total) => checked_div(total, Money::from_count(count)),
            None => None,
        }
    }

    /// Number of winning trades.
    pub fn winner_count(&self) -> (r: usize)
        ensures
            r == count_winners(self.results@),
            r <= self.results@.len(),
    {
        let mut n: usize = 0;
        let mut i: usize = 0;
        while i < self.results.len()
            invariant
                i <= self.results@.len(),
                n == count_winners(self.results@.take(i as int)),
                n <= i,
            decreases self.results@.len() - i,
        {
            assert(self.results@.take(i as int + 1).drop_last() =~= self.results@.take(i as int));
            if self.results[i].is_winner {
                n = n + 1;
            }
            i = i + 1;
        }
        assert(self.results@.take(self.results@.len() as int) =~= self.results@);
        n
    }

    /// Gross profit: the sum of the winning trades' P&L.
    pub fn gross_profit(&self) -> (r: Option<Money>)
        requires
            self.wf(),
        ensures
            r == sum_of(winner_pnls(self.results@)),
            r matches Some(m) ==> m.wf(),
    {
        let v = collect_amounts(AmountKind::WinnerPnl, &self.results);
        sum_amounts(&v)
    }

    /// Gross loss: the sum of the magnitudes of the losing trades' P&L.
    pub fn gross_loss(&self) -> (r: Option<Money>)
        requires
            self.wf(),
        ensures
            r == sum_of(loser_losses(self.results@)),
            r matches Some(m) ==> m.wf(),
    {
        let v = collect_amounts(AmountKind::LoserLoss, &self.results);
        sum_amounts(&v)
    }

    /// Gross profit over gross loss, as a decimal; without losses, whether there was a
    /// profit. `None` when a sum or the quotient overflows.
    pub fn profit_loss_ratio(&self) -> (r: Option<ProfitFactor>)
        requires
            self.wf(),
        ensures
            r == spec_profit_factor(sum_of(winner_pnls(self.results@)), sum_of(loser_losses(self.results@))),
            match (sum_of(winner_pnls(self.results@)), sum_of(loser_losses(self.results@))) {
                (Some(profit), Some(loss)) => if loss.mantissa == 0 {
                    r == Some(ProfitFactor::NoLosses { has_profit: profit.scaled() > 0 })
                } else {
                    match spec_div(profit, loss) {
                        None => r is None,
                        Some(q) => r == Some(ProfitFactor::Ratio(q)),
                    }
                },
                _ => r is None,
            },
    {
        let profit = match self.gross_profit() {
            Some(p) => p,
            None => return None,
        };
        let loss = match self.gross_loss() {
            Some(l) => l,
            None => return None,
        };
        if loss.is_zero() {
            Some(ProfitFactor::NoLosses { has_profit: less_than(Money::zero(), profit) })
        } else {
            match checked_div(profit, loss) {
                Some(q) => Some(ProfitFactor::Ratio(q)),
                None => None,
            }
        }
    }

    /// Total P&L including hedges over the total capital deployed: `Some(None)` when no
    /// capital was deployed, `None` when a sum or the quotient overflows.
    pub fn capital_return_ratio(&self) -> (r: Option<Option<Money>>)
        requires
            self.wf(),
        ensures
            r == spec_ratio_over(sum_of(capitals(self.results@)), sum_of(pnls_with_hedge(self.results@)), false),
            match sum_of(capitals(self.results@)) {
                None => r is None,
                Some(capital) => if capital.mantissa == 0 {
                    r == Some(None::<Money>)
                } else {
                    match sum_of(pnls_with_hedge(self.results@)) {
                        None => r is None,
                        Some(pnl) => match spec_div(pnl, capital) {
                            None => r is None,
                            Some(q) => r == Some(Some(q)),
                        },
                    }
                },
            },
    {
        let capital = match self.total_capital_deployed() {
            Some(c) => c,
            None => return None,
        };
        if capital.is_zero() {
            return Some(None);
        }
        let pnl = match self.total_pnl_with_hedge() {
            Some(p) => p,
            None => return None,
        };
        match checked_div(pnl, capital) {
            Some(q) => Some(Some(q)),
            None => None,
        }
    }

    /// Total trading costs over the magnitude of the total gross P&L: `Some(None)` when the
    /// gross P&L is zero, `None` when a sum or the quotient overflows.
    pub fn cost_impact_ratio(&self) -> (r: Option<Option<Money>>)
        requires
            self.wf(),
        ensures
            r == spec_ratio_over(sum_of(gross_pnls(self.results@)), sum_of(costs(self.results@)), true),
            match sum_of(gross_pnls(self.results@)) {
                None => r is None,
                Some(gross) => if gross.mantissa == 0 {
                    r == Some(None::<Money>)
                } else {
                    match sum_of(costs(self.results@)) {
                        None => r is None,
                        Some(total_costs) => match spec_div(total_costs, abs_money(gross)) {
                            None => r is None,
                            Some(q) => r == Some(Some(q)),
                        },
                    }
                },
            },
    {
        let gross = match self.total_gross_pnl() {
            Some(g) => g,
            None => return None,
        };
        if gross.is_zero() {
            return Some(None);
        }
        let costs_total = match self.total_trading_costs() {
            Some(c) => c,
            None => return None,
        };
        match checked_div(costs_total, gross.abs()) {
            Some(q) => Some(Some(q)),
            None => None,
        }
    }
}


/// When no trade carries a P&L including hedges, the total including hedges is the total P&L.
pub proof fn lemma_total_with_hedge_without_hedges(s: Seq<TradeOutcome>)
    requires
        forall|i: int| 0 <= i < s.len() ==> (#[trigger] s[i]).total_pnl_with_hedge is None,
    ensures
        pnls_with_hedge(s) == pnls(s),
        sum_of(pnls_with_hedge(s)) == sum_of(pnls(s)),
    decreases s.len(),
{
    if s.len() > 0 {
        let p = s.drop_last();
        assert forall|i: int| 0 <= i < p.len() implies (#[trigger] p[i]).total_pnl_with_hedge is None by {
            assert(p[i] == s[i]);
        }
        lemma_total_with_hedge_without_hedges(p);
        assert(s.last() == s[s.len() - 1]);
    }
}

/// When no trade recorded a P&L before costs, the total gross P&L is the total P&L.
pub proof fn lemma_total_gross_without_costs(s: Seq<TradeOutcome>)
    requires
        forall|i: int| 0 <= i < s.len() ==> (#[trigger] s[i]).gross_pnl is None,
    ensures
        gross_pnls(s) == pnls(s),
        sum_of(gross_pnls(s)) == sum_of(pnls(s)),
    decreases s.len(),
{
    if s.len() > 0 {
        let p = s.drop_last();
        assert forall|i: int| 0 <= i < p.len() implies (#[trigger] p[i]).gross_pnl is None by {
            assert(p[i] == s[i]);
        }
        lemma_total_gross_without_costs(p);
        assert(s.last() == s[s.len() - 1]);
    }
}

/// With no trade charged costs, the average cost per trade is zero.
pub proof fn lemma_no_costs_zero_average(s: Seq<TradeOutcome>)
    requires
        forall|i: int| 0 <= i < s.len() ==> !(#[trigger] s[i]).has_costs,
    ensures
        count_with_costs(s) == 0,
        average(sum_of(costs(s)), count_with_costs(s)) == Some(Money::spec_zero()),
    decreases s.len(),
{
    if s.len() > 0 {
        let p = s.drop_last();
        assert forall|i: int| 0 <= i < p.len() implies !(#[trigger] p[i]).has_costs by {
            assert(p[i] == s[i]);
        }
        lemma_no_costs_zero_average(p);
        assert(s.last() == s[s.len() - 1]);
    }
}

/// The number of winning trades.
pub open spec fn count_winners(s: Seq<TradeOutcome>) -> nat
    decreases s.len(),
{
    if s.len() == 0 {
        0
    } else if s.last().is_winner {
        count_winners(s.drop_last()) + 1
    } else {
        count_winners(s.drop_last())
    }
}

/// The average winner is taken over exactly the winning trades, and there are no more of
/// them than trades.
pub proof fn lemma_winner_count(s: Seq<TradeOutcome>)
    ensures
        winner_pnls(s).len() == count_winners(s),
        count_winners(s) <= s.len(),
    decreases s.len(),
{
    if s.len() > 0 {
        lemma_winner_count(s.drop_last());
    }
}

/// The cost impact does not depend on the sign of the gross P&L: it divides the costs by
/// the gross P&L's magnitude, so a gross loss gives the same ratio as a gross profit of the
/// same size, and a gross profit divides by the gross P&L itself.
pub proof fn lemma_cost_impact_over_gross_magnitude(gross: Money, costs_total: Option<Money>)
    requires
        gross.wf(),
    ensures
        spec_ratio_over(Some(gross), costs_total, true) == spec_ratio_over(
            Some(Money { mantissa: (-gross.mantissa) as i128, scale: gross.scale }),
            costs_total,
            true,
        ),
        gross.mantissa > 0 ==> spec_ratio_over(Some(gross), costs_total, true) == (match costs_total {
            None => None,
            Some(c) => match spec_div(c, gross) {
                None => None,
                Some(q) => Some(Some(q)),
            },
        }),
        gross.mantissa < 0 ==> spec_ratio_over(Some(gross), costs_total, true) == (match costs_total {
            None => None,
            Some(c) => match spec_div(c, Money { mantissa: (-gross.mantissa) as i128, scale: gross.scale }) {
                None => None,
                Some(q) => Some(Some(q)),
            },
        }),
{
}

/// The return on capital divides the total P&L by the capital as it is, sign included.
pub proof fn lemma_capital_return_over_capital(capital: Money, pnl: Option<Money>)
    ensures
        capital.mantissa != 0 ==> spec_ratio_over(Some(capital), pnl, false) == (match pnl {
            None => None,
            Some(p) => match spec_div(p, capital) {
                None => None,
                Some(q) => Some(Some(q)),
            },
        }),
        capital.mantissa == 0 ==> spec_ratio_over(Some(capital), pnl, false) == Some(None::<Money>),
{
}

/// The gross loss adds up magnitudes: every amount it sums is a losing trade's P&L with
/// its sign dropped, so none is negative, and there is one for each losing trade.
pub proof fn lemma_gross_loss_items_are_magnitudes(s: Seq<TradeOutcome>)
    requires
        all_outcomes_wf(s),
    ensures
        loser_losses(s).len() == loser_pnls(s).len(),
        forall|i: int| 0 <= i < loser_losses(s).len() ==> (#[trigger] loser_losses(s)[i]) == abs_money(
            loser_pnls(s)[i],
        ) && loser_losses(s)[i].mantissa >= 0,
    decreases s.len(),
{
    if s.len() > 0 {
        let p = s.drop_last();
        assert(all_outcomes_wf(p)) by {
            assert forall|i: int| 0 <= i < p.len() implies (#[trigger] p[i]).wf() by {
                assert(p[i] == s[i]);
            }
        }
        assert(s.last() == s[s.len() - 1]);
        assert(s.last().pnl.wf());
        lemma_gross_loss_items_are_magnitudes(p);
        assert forall|i: int| 0 <= i < loser_losses(s).len() implies (#[trigger] loser_losses(s)[i])
            == abs_money(loser_pnls(s)[i]) && loser_losses(s)[i].mantissa >= 0 by {
            if i < loser_losses(p).len() {
                assert(loser_losses(s)[i] == loser_losses(p)[i]);
                assert(loser_pnls(s)[i] == loser_pnls(p)[i]);
            }
        }
    }
}

/// The totals that read every trade read each one in place: the P&L, the P&L including
/// hedges (the trade's P&L when it has none), the gross P&L (the P&L when none was
/// recorded) and the capital of trade `i` are item `i` of the amounts summed.
pub proof fn lemma_per_trade_amounts(s: Seq<TradeOutcome>)
    ensures
        pnls(s).len() == s.len(),
        pnls_with_hedge(s).len() == s.len(),
        gross_pnls(s).len() == s.len(),
        capitals(s).len() == s.len(),
        forall|i: int| 0 <= i < s.len() ==> {
            &&& #[trigger] pnls(s)[i] == s[i].pnl
            &&& pnls_with_hedge(s)[i] == (match s[i].total_pnl_with_hedge {
                Some(t) => t,
                None => s[i].pnl,
            })
            &&& gross_pnls(s)[i] == (match s[i].gross_pnl {
                Some(g) => g,
                None => s[i].pnl,
            })
            &&& capitals(s)[i] == s[i].capital_required
        },
    decreases s.len(),
{
    if s.len() > 0 {
        let p = s.drop_last();
        lemma_per_trade_amounts(p);
        assert forall|i: int| 0 <= i < s.len() implies {
            &&& #[trigger] pnls(s)[i] == s[i].pnl
            &&& pnls_with_hedge(s)[i] == (match s[i].total_pnl_with_hedge {
                Some(t) => t,
                None => s[i].pnl,
            })
            &&& gross_pnls(s)[i] == (match s[i].gross_pnl {
                Some(g) => g,
                None => s[i].pnl,
            })
            &&& capitals(s)[i] == s[i].capital_required
        } by {
            if i < p.len() {
                assert(s[i] == p[i]);
            }
        }
    }
}

/// An average is zero over no items and the total over the count otherwise.
pub proof fn lemma_average_divides_by_count(total: Option<Money>, count: nat)
    ensures
        count == 0 ==> average(total, count) == Some(Money::spec_zero()),
        count > 0 ==> average(total, count) == (match total {
            None => None,
            Some(t) => spec_div(t, Money { mantissa: count as i128, scale: 0 }),
        }),
{
}

/// The average cost is taken over exactly the trades charged costs: there is one cost per
/// such trade.
pub proof fn lemma_costs_one_per_charged_trade(s: Seq<TradeOutcome>)
    requires
        forall|i: int| 0 <= i < s.len() ==> ((#[trigger] s[i]).has_costs <==> s[i].total_costs is Some),
    ensures
        costs(s).len() == count_with_costs(s),
    decreases s.len(),
{
    if s.len() > 0 {
        let p = s.drop_last();
        assert forall|i: int| 0 <= i < p.len() implies ((#[trigger] p[i]).has_costs <==> p[i].total_costs is Some) by {
            assert(p[i] == s[i]);
        }
        lemma_costs_one_per_charged_trade(p);
        assert(s.last() == s[s.len() - 1]);
    }
}

/// The average loser is taken over losing trades only: every P&L it sums is negative.
pub proof fn lemma_loser_pnls_negative(s: Seq<TradeOutcome>)
    ensures
        forall|i: int| 0 <= i < loser_pnls(s).len() ==> (#[trigger] loser_pnls(s)[i]).scaled() < 0,
    decreases s.len(),
{
    if s.len() > 0 {
        let p = s.drop_last();
        lemma_loser_pnls_negative(p);
        assert forall|i: int| 0 <= i < loser_pnls(s).len() implies (#[trigger] loser_pnls(s)[i]).scaled() < 0 by {
            if i < loser_pnls(p).len() {
                assert(loser_pnls(s)[i] == loser_pnls(p)[i]);
            }
        }
    }
}

/// The average winner is taken over trades flagged winners only: every P&L it sums is
/// that of some winning trade.
pub proof fn lemma_winner_pnls_from_winners(s: Seq<TradeOutcome>)
    ensures
        forall|i: int| 0 <= i < winner_pnls(s).len() ==> exists|j: int|
            0 <= j < s.len() && s[j].is_winner && s[j].pnl == #[trigger] winner_pnls(s)[i],
    decreases s.len(),
{
    if s.len() > 0 {
        let p = s.drop_last();
        lemma_winner_pnls_from_winners(p);
        assert forall|i: int| 0 <= i < winner_pnls(s).len() implies exists|j: int|
            0 <= j < s.len() && s[j].is_winner && s[j].pnl == #[trigger] winner_pnls(s)[i] by {
            if i < winner_pnls(p).len() {
                assert(winner_pnls(s)[i] == winner_pnls(p)[i]);
                let j = choose|j: int| 0 <= j < p.len() && p[j].is_winner && p[j].pnl == winner_pnls(p)[i];
                assert(s[j] == p[j]);
            } else {
                assert(s[s.len() - 1] == s.last());
            }
        }
    }
}

} // verus!
