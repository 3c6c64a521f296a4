//! Hedged against unhedged performance of straddle trades, in exact decimal amounts.
//!
//! The library computes every decimal and count; ratios taken as floating point (average
//! rehedges, average efficiency, Sharpe ratios) are left to the caller, from the values
//! returned here.

use vstd::prelude::*;
use crate::money::{Money, checked_sub, checked_div, less_than, spec_sub, spec_div, sum_of, sum_amounts, all_wf};
use crate::bpr::AmountOverflow;

verus! {

/// The delta hedge kept beside a trade.
#[derive(Debug, Clone, Copy, PartialEq, Eq, Structural)]
pub struct HedgePositionSummary {
    /// What the hedge trades cost in all.
    pub total_cost: Money,
    /// How many times the hedge was adjusted.
    pub rehedge_count: usize,
}

/// What the hedging analysis reads of one straddle trade.
#[derive(Debug, Clone, Copy, PartialEq, Eq, Structural)]
pub struct HedgedTradeResult {
    /// P&L of the options alone.
    pub pnl: Money,
    pub hedge_position: Option<HedgePositionSummary>,
    pub hedge_pnl: Option<Money>,
    pub total_pnl_with_hedge: Option<Money>,
}

impl HedgedTradeResult {
    /// Whether every amount of the trade is one rust_decimal can hold.
    pub open spec fn wf(self) -> bool {
        &&& self.pnl.wf()
        &&& (self.hedge_position matches Some(h) ==> h.total_cost.wf())
        &&& (self.hedge_pnl matches Some(p) ==> p.wf())
        &&& (self.total_pnl_with_hedge matches Some(t) ==> t.wf())
    }

    /// Whether the trade carries full hedging data: a position, its P&L and the total.
    pub open spec fn is_hedged(self) -> bool {
        self.hedge_position is Some && self.hedge_pnl is Some && self.total_pnl_with_hedge is Some
    }
}

/// Hedged against unhedged result of one trade.
#[derive(Debug, Clone, Copy, PartialEq, Eq, Structural)]
pub struct HedgingComparison {
    pub unhedged_pnl: Money,
    pub hedged_pnl: Money,
    /// `hedged_pnl - unhedged_pnl`.
    pub hedge_contribution: Money,
    pub hedge_cost: Money,
    pub num_rehedges: usize,
    /// `hedge_contribution / hedge_cost`, when the cost is positive.
    pub efficiency_ratio: Option<Money>,
}

/// The comparison of one trade: `Ok(None)` without full hedging data, `Err` when the
/// contribution or the efficiency overflows.
pub open spec fn spec_comparison(t: HedgedTradeResult) -> Result<Option<HedgingComparison>, AmountOverflow> {
    if !t.is_hedged() {
        Ok(None)
    } else {
        let h = t.hedge_position.unwrap();
        let total = t.total_pnl_with_hedge.unwrap();
        match spec_sub(total, t.pnl) {
            None => Err(AmountOverflow),
            Some(contribution) => {
                let base = HedgingComparison {
                    unhedged_pnl: t.pnl,
                    hedged_pnl: total,
                    hedge_contribution: contribution,
                    hedge_cost: h.total_cost,
                    num_rehedges: h.rehedge_count,
                    efficiency_ratio: None,
                };
                if h.total_cost.scaled() > 0 {
                    match spec_div(contribution, h.total_cost) {
                        None => Err(AmountOverflow),
                        Some(q) => Ok(Some(HedgingComparison { efficiency_ratio: Some(q), ..base })),
                    }
                } else {
                    Ok(Some(base))
                }
            },
        }
    }
}

/// Whether `c` compares trade `t`: the unhedged P&L is the trade's P&L, the hedged one its
/// total with the hedge, the contribution is hedged minus unhedged, the cost and rehedges
/// are the hedge position's, and the efficiency is the signed contribution over a positive
/// cost (none without a positive cost).
pub open spec fn comparison_reads(t: HedgedTradeResult, c: HedgingComparison) -> bool {
    &&& t.hedge_position matches Some(h)
    &&& c.unhedged_pnl == t.pnl
    &&& t.total_pnl_with_hedge == Some(c.hedged_pnl)
    &&& spec_sub(c.hedged_pnl, c.unhedged_pnl) == Some(c.hedge_contribution)
    &&& c.hedge_cost == h.total_cost
    &&& c.num_rehedges == h.rehedge_count
    &&& c.hedge_cost.scaled() > 0 ==> c.efficiency_ratio == spec_div(c.hedge_contribution, c.hedge_cost)
    &&& c.hedge_cost.scaled() <= 0 ==> c.efficiency_ratio is None
}

impl HedgingComparison {
    /// Compares the trade's P&L with and without its hedge: `Ok(None)` when the trade
    /// lacks a hedge position, hedge P&L or total, and an error when the contribution or
    /// the efficiency overflows.
    pub fn from_result(t: &HedgedTradeResult) -> (r: Result<Option<HedgingComparison>, AmountOverflow>)
        requires
            t.wf(),
        ensures
            r == spec_comparison(*t),
            r matches Ok(Some(c)) ==> c.hedge_contribution.wf() && c.hedged_pnl.wf()
                && c.unhedged_pnl.wf() && c.hedge_cost.wf(),
            r matches Ok(Some(c)) ==> comparison_reads(*t, c),
            r is Ok && r->Ok_0 is None <==> !t.is_hedged(),
    {
        let h = match t.hedge_position {
            Some(h) => h,
            None => return Ok(None),
        };
        if t.hedge_pnl.is_none() {
            return Ok(None);
        }
        let total = match t.total_pnl_with_hedge {
            Some(v) => v,
            None => return Ok(None),
        };
        let contribution = match checked_sub(total, t.pnl) {
            Some(v) => v,
            None => return Err(AmountOverflow),
        };
        let efficiency_ratio = if less_than(Money::zero(), h.total_cost) {
            match checked_div(contribution, h.total_cost) {
                Some(q) => Some(q),
                None => return Err(AmountOverflow),
            }
        } else {
            None
        };
        Ok(
            Some(
                HedgingComparison {
                    unhedged_pnl: t.pnl,
                    hedged_pnl: total,
                    hedge_contribution: contribution,
                    hedge_cost: h.total_cost,
                    num_rehedges: h.rehedge_count,
                    efficiency_ratio,
                },
            ),
        )
    }
}

/// The comparisons of the hedged trades, in order; `None` when one of them overflows.
pub open spec fn comparisons(s: Seq<HedgedTradeResult>) -> Option<Seq<HedgingComparison>>
    decreases s.len(),
{
    if s.len() == 0 {
        Some(Seq::empty())
    } else {
        match comparisons(s.drop_last()) {
            None => None,
            Some(cs) => match spec_comparison(s.last()) {
                Err(_) => None,
                Ok(None) => Some(cs),
                Ok(Some(c)) => Some(cs.push(c)),
            },
        }
    }
}

/// The hedged trades, in order.
pub open spec fn hedged(s: Seq<HedgedTradeResult>) -> Seq<HedgedTradeResult>
    decreases s.len(),
{
    if s.len() == 0 {
        Seq::empty()
    } else if s.last().is_hedged() {
        hedged(s.drop_last()).push(s.last())
    } else {
        hedged(s.drop_last())
    }
}

/// Rehedges of the hedged trades, in all.
pub open spec fn rehedge_sum(s: Seq<HedgedTradeResult>) -> int
    decreases s.len(),
{
    if s.len() == 0 {
        0
    } else if s.last().is_hedged() {
        rehedge_sum(s.drop_last()) + s.last().hedge_position.unwrap().rehedge_count
    } else {
        rehedge_sum(s.drop_last())
    }
}

/// Hedge costs of the compared trades.
pub open spec fn hedge_costs(cs: Seq<HedgingComparison>) -> Seq<Money> {
    cs.map_values(|c: HedgingComparison| c.hedge_cost)
}

/// Hedge P&L of the hedged trades.
pub open spec fn hedged_pnls(s: Seq<HedgedTradeResult>) -> Seq<Money> {
    hedged(s).map_values(|t: HedgedTradeResult| t.hedge_pnl.unwrap())
}

/// Whether every trade's amounts are ones rust_decimal can hold.
pub open spec fn results_wf(s: Seq<HedgedTradeResult>) -> bool {
    forall|i: int| 0 <= i < s.len() ==> (#[trigger] s[i]).wf()
}

/// Aggregate hedging figures of a backtest.
#[derive(Debug, Clone)]
pub struct HedgingTotals {
    pub total_trades: usize,
    pub hedged_trades: usize,
    pub total_rehedges: usize,
    pub total_hedge_cost: Money,
    pub total_hedge_pnl: Money,
    /// The comparison of each hedged trade, in order.
    pub comparisons: Vec<HedgingComparison>,
}

/// Once the comparisons of a prefix overflow, those of every longer prefix do.
proof fn lemma_comparisons_none_stays(s: Seq<HedgedTradeResult>, n: int)
    requires
        0 <= n <= s.len(),
        comparisons(s.take(n)) is None,
    ensures
        comparisons(s) is None,
    decreases s.len() - n,
{
    if n < s.len() {
        assert(s.take(n + 1).drop_last() =~= s.take(n));
        lemma_comparisons_none_stays(s, n + 1);
    } else {
        assert(s.take(n) =~= s);
    }
}

/// The rehedges of a prefix are no more than those of the whole.
proof fn lemma_rehedge_sum_prefix(s: Seq<HedgedTradeResult>, n: int)
    requires
        0 <= n <= s.len(),
    ensures
        0 <= rehedge_sum(s.take(n)) <= rehedge_sum(s),
    decreases s.len() - n,
{
    if n < s.len() {
        assert(s.take(n + 1).drop_last() =~= s.take(n));
        lemma_rehedge_sum_prefix(s, n + 1);
    } else {
        assert(s.take(n) =~= s);
    }
    lemma_rehedge_sum_nonneg(s.take(n));
}

/// Rehedges add up to a natural number.
proof fn lemma_rehedge_sum_nonneg(s: Seq<HedgedTradeResult>)
    ensures
        rehedge_sum(s) >= 0,
    decreases s.len(),
{
    if s.len() > 0 {
        lemma_rehedge_sum_nonneg(s.drop_last());
    }
}

/// No more trades are hedged than there are trades.
proof fn lemma_hedged_len(s: Seq<HedgedTradeResult>)
    ensures
        hedged(s).len() <= s.len(),
    decreases s.len(),
{
    if s.len() > 0 {
        lemma_hedged_len(s.drop_last());
    }
}

impl HedgingTotals {
    /// Aggregates the hedging results of a backtest: the number of trades and of hedged
    /// ones, their rehedges, hedge costs and hedge P&L in all, and each hedged trade's
    /// comparison. An error when a comparison or a total overflows.
    pub fn from_results(results: &Vec<HedgedTradeResult>) -> (r: Result<HedgingTotals, AmountOverflow>)
        requires
            results_wf(results@),
            rehedge_sum(results@) <= usize::MAX,
        ensures
            match comparisons(results@) {
                None => r is Err,
                Some(cs) => match (sum_of(hedge_costs(cs)), sum_of(hedged_pnls(results@))) {
                    (Some(cost), Some(hedge_pnl)) => r matches Ok(t) && {
                        &&& t.total_trades == results@.len()
                        &&& t.hedged_trades == hedged(results@).len()
                        &&& t.hedged_trades <= t.total_trades
                        &&& t.total_rehedges == rehedge_sum(results@)
                        &&& t.total_hedge_cost == cost
                        &&& t.total_hedge_pnl == hedge_pnl
                        &&& t.comparisons@ == cs
                        &&& forall|i: int| 0 <= i < t.hedged_trades ==> comparison_reads(
                            #[trigger] hedged(results@)[i],
                            t.comparisons@[i],
                        )
                    },
                    _ => r is Err,
                },
            },
    {
        let mut cs: Vec<HedgingComparison> = Vec::new();
        let mut costs: Vec<Money> = Vec::new();
        let mut hedge_pnl_list: Vec<Money> = Vec::new();
        let mut hedged_count: usize = 0;
        let mut rehedges: usize = 0;
        let mut i: usize = 0;
        while i < results.len()
            invariant
                i <= results@.len(),
                results_wf(results@),
                rehedge_sum(results@) <= usize::MAX,
                comparisons(results@.take(i as int)) == Some(cs@),
                costs@ == hedge_costs(cs@),
                hedge_pnl_list@ == hedged_pnls(results@.take(i as int)),
                all_wf(costs@),
                all_wf(hedge_pnl_list@),
                hedged_count == hedged(results@.take(i as int)).len(),
                hedged_count <= i,
                rehedges == rehedge_sum(results@.take(i as int)),
            decreases results@.len() - i,
        {
            let t = results[i];
            assert(results@.take(i as int + 1).drop_last() =~= results@.take(i as int));
            assert(results@.take(i as int + 1).last() == t);
            assert(t.wf());
            match HedgingComparison::from_result(&t) {
                Err(e) => {
                    proof {
                        lemma_comparisons_none_stays(results@, i as int + 1);
                    }
                    return Err(e);
                },
                Ok(None) => {},
                Ok(Some(c)) => {
                    proof {
                        lemma_rehedge_sum_prefix(results@, i as int + 1);
                    }
                    let h = t.hedge_position.unwrap();
                    rehedges = rehedges + h.rehedge_count;
                    hedged_count = hedged_count + 1;
                    cs.push(c);
                    costs.push(c.hedge_cost);
                    hedge_pnl_list.push(t.hedge_pnl.unwrap());
                    assert(costs@ =~= hedge_costs(cs@));
                    assert(hedge_pnl_list@ =~= hedged_pnls(results@.take(i as int + 1)));
                },
            }
            i = i + 1;
        }
        assert(results@.take(results@.len() as int) =~= results@);
        proof {
            lemma_hedged_len(results@);
            lemma_totals_read_hedged_trades(results@);
        }
        let total_hedge_cost = match sum_amounts(&costs) {
            Some(v) => v,
            None => return Err(AmountOverflow),
        };
        let total_hedge_pnl = match sum_amounts(&hedge_pnl_list) {
            Some(v) => v,
            None => return Err(AmountOverflow),
        };
        Ok(
            HedgingTotals {
                total_trades: results.len(),
                hedged_trades: hedged_count,
                total_rehedges: rehedges,
                total_hedge_cost,
                total_hedge_pnl,
                comparisons: cs,
            },
        )
    }
}

/// A backtest in which no trade carries full hedging data has no hedged trade, no
/// comparison and no rehedge.
pub proof fn lemma_no_hedge_data(s: Seq<HedgedTradeResult>)
    requires
        forall|i: int| 0 <= i < s.len() ==> !(#[trigger] s[i]).is_hedged(),
    ensures
        hedged(s).len() == 0,
        comparisons(s) == Some(Seq::<HedgingComparison>::empty()),
        rehedge_sum(s) == 0,
    decreases s.len(),
{
    if s.len() > 0 {
        let p = s.drop_last();
        assert forall|i: int| 0 <= i < p.len() implies !(#[trigger] p[i]).is_hedged() by {
            assert(p[i] == s[i]);
        }
        lemma_no_hedge_data(p);
        assert(s.last() == s[s.len() - 1]);
    }
}

/// Every comparison of a hedged trade reads the trade as it is: the contribution is the
/// hedged P&L minus the unhedged one, and the efficiency is that signed contribution over
/// the hedge cost when the cost is positive. A trade without full hedge data is not
/// compared, and one with it is compared unless an amount overflows.
pub proof fn lemma_comparison_reads_trade(t: HedgedTradeResult)
    ensures
        spec_comparison(t) matches Ok(Some(c)) ==> comparison_reads(t, c),
        !t.is_hedged() ==> spec_comparison(t) == Ok::<Option<HedgingComparison>, AmountOverflow>(None),
        t.is_hedged() ==> !(spec_comparison(t) matches Ok(None)),
{
}

/// The totals compare exactly the hedged trades, in order: there is one comparison per
/// hedged trade, each reads its trade, and the costs summed are those trades' hedge costs
/// and the hedge P&L summed their hedge P&L.
pub proof fn lemma_totals_read_hedged_trades(s: Seq<HedgedTradeResult>)
    requires
        comparisons(s) is Some,
    ensures
        comparisons(s).unwrap().len() == hedged(s).len(),
        hedge_costs(comparisons(s).unwrap()).len() == hedged(s).len(),
        hedged_pnls(s).len() == hedged(s).len(),
        forall|i: int| 0 <= i < hedged(s).len() ==> {
            &&& (#[trigger] hedged(s)[i]).is_hedged()
            &&& comparison_reads(hedged(s)[i], comparisons(s).unwrap()[i])
            &&& hedge_costs(comparisons(s).unwrap())[i] == hedged(s)[i].hedge_position.unwrap().total_cost
            &&& hedged_pnls(s)[i] == hedged(s)[i].hedge_pnl.unwrap()
        },
    decreases s.len(),
{
    if s.len() > 0 {
        let p = s.drop_last();
        lemma_totals_read_hedged_trades(p);
        lemma_comparison_reads_trade(s.last());
        let cs = comparisons(s).unwrap();
        let cp = comparisons(p).unwrap();
        assert forall|i: int| 0 <= i < hedged(s).len() implies {
            &&& (#[trigger] hedged(s)[i]).is_hedged()
            &&& comparison_reads(hedged(s)[i], cs[i])
            &&& hedge_costs(cs)[i] == hedged(s)[i].hedge_position.unwrap().total_cost
            &&& hedged_pnls(s)[i] == hedged(s)[i].hedge_pnl.unwrap()
        } by {
            if i < hedged(p).len() {
                assert(hedged(s)[i] == hedged(p)[i]);
                assert(cs[i] == cp[i]);
                assert(hedge_costs(cp)[i] == cp[i].hedge_cost);
            }
        }
    }
}

} // verus!
