//! Entry checks and profit and loss of option trades, in exact decimal amounts.

use vstd::prelude::*;
use crate::money::{Money, abs_money, spec_mul, spec_div, spec_sub, spec_add, checked_mul, checked_div, checked_sub, checked_add, less_than};

verus! {

/// Shares per option contract.
pub const CONTRACT_MULTIPLIER: i64 = 100;

/// Contract multiplier as an amount.
pub open spec fn spec_hundred() -> Money {
    Money { mantissa: 100, scale: 0 }
}

/// Profit and loss of a closed trade: in dollars for one contract, and in percent.
#[derive(Debug, Clone, Copy, PartialEq, Eq, Structural)]
pub struct TradePnl {
    pub pnl: Money,
    pub pnl_pct: Money,
}

/// P&L from the per-share P&L, with the percentage taken against `basis` per share;
/// a zero basis gives a zero percentage.
pub open spec fn spec_per_share_pnl(per_share: Money, basis: Money) -> Option<TradePnl> {
    match spec_mul(per_share, spec_hundred()) {
        None => None,
        Some(pnl) => if basis.mantissa == 0 {
            Some(TradePnl { pnl, pnl_pct: Money::spec_zero() })
        } else {
            match spec_div(per_share, basis) {
                None => None,
                Some(q) => match spec_mul(q, spec_hundred()) {
                    None => None,
                    Some(pnl_pct) => Some(TradePnl { pnl, pnl_pct }),
                },
            }
        },
    }
}

/// P&L of a debit trade: paid `entry_cost` per share, closed at `exit_value`.
pub open spec fn spec_debit_trade_pnl(entry_cost: Money, exit_value: Money) -> Option<TradePnl> {
    match spec_sub(exit_value, entry_cost) {
        None => None,
        Some(per_share) => spec_per_share_pnl(per_share, entry_cost),
    }
}

/// P&L of a credit trade: received `entry_credit` per share, closed for `exit_cost`.
pub open spec fn spec_credit_trade_pnl(entry_credit: Money, exit_cost: Money) -> Option<TradePnl> {
    match spec_sub(entry_credit, exit_cost) {
        None => None,
        Some(per_share) => spec_per_share_pnl(per_share, entry_credit),
    }
}

/// P&L when the percentage is taken against the position's capital: `pnl` over
/// `|basis| * 100`, times 100; a zero basis gives a zero percentage.
pub open spec fn spec_position_pnl(per_share: Money, basis: Money) -> Option<TradePnl> {
    match spec_mul(per_share, spec_hundred()) {
        None => None,
        Some(pnl) => if basis.mantissa == 0 {
            Some(TradePnl { pnl, pnl_pct: Money::spec_zero() })
        } else {
            match spec_mul(abs_money(basis), spec_hundred()) {
                None => None,
                Some(capital) => match spec_div(pnl, capital) {
                    None => None,
                    Some(q) => match spec_mul(q, spec_hundred()) {
                        None => None,
                        Some(pnl_pct) => Some(TradePnl { pnl, pnl_pct }),
                    },
                },
            }
        },
    }
}

/// Whether `p` is the P&L of `per_share` per share over one contract, with the
/// percentage taken against `basis`: `per_share / basis * 100`, or 0% for a zero basis.
pub open spec fn pnl_against(p: TradePnl, per_share: Money, basis: Money) -> bool {
    &&& spec_mul(per_share, spec_hundred()) == Some(p.pnl)
    &&& basis.mantissa == 0 ==> p.pnl_pct == Money::spec_zero()
    &&& basis.mantissa != 0 ==> (spec_div(per_share, basis) matches Some(q) && spec_mul(q, spec_hundred())
        == Some(p.pnl_pct))
}

/// Whether computing the P&L of `per_share` against `basis` overflows somewhere.
pub open spec fn pnl_overflows(per_share: Money, basis: Money) -> bool {
    ||| spec_mul(per_share, spec_hundred()) is None
    ||| (basis.mantissa != 0 && match spec_div(per_share, basis) {
        None => true,
        Some(q) => spec_mul(q, spec_hundred()) is None,
    })
}

/// Whether `p` is the P&L of `per_share` per share over one contract, with the
/// percentage taken against the position's capital: the contract P&L over `|basis| * 100`,
/// times 100, or 0% for a zero basis.
pub open spec fn pnl_against_capital(p: TradePnl, per_share: Money, basis: Money) -> bool {
    &&& spec_mul(per_share, spec_hundred()) == Some(p.pnl)
    &&& basis.mantissa == 0 ==> p.pnl_pct == Money::spec_zero()
    &&& basis.mantissa != 0 ==> (spec_mul(abs_money(basis), spec_hundred()) matches Some(capital)
        && spec_div(p.pnl, capital) matches Some(q) && spec_mul(q, spec_hundred()) == Some(p.pnl_pct))
}

fn hundred() -> (r: Money)
    ensures
        r == spec_hundred(),
        r.wf(),
{
    Money::from_int(CONTRACT_MULTIPLIER)
}

/// P&L from the per-share P&L; the percentage is taken against `basis` per share.
pub fn per_share_pnl(per_share: Money, basis: Money) -> (r: Option<TradePnl>)
    requires
        per_share.wf(),
        basis.wf(),
    ensures
        r == spec_per_share_pnl(per_share, basis),
        r matches Some(p) ==> p.pnl.wf() && p.pnl_pct.wf(),
        per_share.mantissa == 0 ==> r == Some(
            TradePnl { pnl: Money::spec_zero(), pnl_pct: Money::spec_zero() },
        ),
        r matches Some(p) ==> pnl_against(p, per_share, basis),
        r is None <==> pnl_overflows(per_share, basis),
{
    let pnl = match checked_mul(per_share, hundred()) {
        Some(v) => v,
        None => return None,
    };
    if basis.is_zero() {
        return Some(TradePnl { pnl, pnl_pct: Money::zero() });
    }
    let q = match checked_div(per_share, basis) {
        Some(v) => v,
        None => return None,
    };
    match checked_mul(q, hundred()) {
        Some(pnl_pct) => Some(TradePnl { pnl, pnl_pct }),
        None => None,
    }
}

/// P&L of a debit trade (straddle, strangle, calendar spread, butterfly, condor): the
/// per-share P&L is exit value minus entry cost; `None` when an amount overflows.
pub fn debit_trade_pnl(entry_cost: Money, exit_value: Money) -> (r: Option<TradePnl>)
    requires
        entry_cost.wf(),
        exit_value.wf(),
    ensures
        r == spec_debit_trade_pnl(entry_cost, exit_value),
        r matches Some(p) ==> p.pnl.wf() && p.pnl_pct.wf(),
        entry_cost == exit_value ==> r == Some(
            TradePnl { pnl: Money::spec_zero(), pnl_pct: Money::spec_zero() },
        ),
        r matches Some(p) ==> spec_sub(exit_value, entry_cost) matches Some(ps) && pnl_against(p, ps, entry_cost),
        r is None <==> match spec_sub(exit_value, entry_cost) {
            None => true,
            Some(ps) => pnl_overflows(ps, entry_cost),
        },
{
    match checked_sub(exit_value, entry_cost) {
        Some(per_share) => per_share_pnl(per_share, entry_cost),
        None => None,
    }
}

/// P&L of a credit trade (iron condor): the per-share P&L is entry credit minus exit
/// cost; `None` when an amount overflows.
pub fn credit_trade_pnl(entry_credit: Money, exit_cost: Money) -> (r: Option<TradePnl>)
    requires
        entry_credit.wf(),
        exit_cost.wf(),
    ensures
        r == spec_credit_trade_pnl(entry_credit, exit_cost),
        r matches Some(p) ==> p.pnl.wf() && p.pnl_pct.wf(),
        r matches Some(p) ==> spec_sub(entry_credit, exit_cost) matches Some(ps) && pnl_against(p, ps, entry_credit),
        r is None <==> match spec_sub(entry_credit, exit_cost) {
            None => true,
            Some(ps) => pnl_overflows(ps, entry_credit),
        },
{
    match checked_sub(entry_credit, exit_cost) {
        Some(per_share) => per_share_pnl(per_share, entry_credit),
        None => None,
    }
}

/// P&L with the percentage taken against the position's capital `|basis| * 100`
/// (iron butterflies, calendar straddles); `None` when an amount overflows.
pub fn position_pnl(per_share: Money, basis: Money) -> (r: Option<TradePnl>)
    requires
        per_share.wf(),
        basis.wf(),
    ensures
        r == spec_position_pnl(per_share, basis),
        r matches Some(p) ==> p.pnl.wf() && p.pnl_pct.wf(),
        r matches Some(p) ==> pnl_against_capital(p, per_share, basis),
{
    let pnl = match checked_mul(per_share, hundred()) {
        Some(v) => v,
        None => return None,
    };
    if basis.is_zero() {
        return Some(TradePnl { pnl, pnl_pct: Money::zero() });
    }
    let capital = match checked_mul(basis.abs(), hundred()) {
        Some(v) => v,
        None => return None,
    };
    let q = match checked_div(pnl, capital) {
        Some(v) => v,
        None => return None,
    };
    match checked_mul(q, hundred()) {
        Some(pnl_pct) => Some(TradePnl { pnl, pnl_pct }),
        None => None,
    }
}

/// P&L when the percentage is taken against the magnitude of `basis` per share; a zero
/// basis gives a zero percentage.
pub open spec fn spec_abs_basis_pnl(per_share: Money, basis: Money) -> Option<TradePnl> {
    match spec_mul(per_share, spec_hundred()) {
        None => None,
        Some(pnl) => if basis.mantissa == 0 {
            Some(TradePnl { pnl, pnl_pct: Money::spec_zero() })
        } else {
            match spec_div(per_share, abs_money(basis)) {
                None => None,
                Some(q) => match spec_mul(q, spec_hundred()) {
                    None => None,
                    Some(pnl_pct) => Some(TradePnl { pnl, pnl_pct }),
                },
            }
        },
    }
}

/// P&L of a position priced by its net cost (calendar straddles as their executor
/// prices them): the per-share P&L is the exit net cost minus the entry net cost, and the
/// percentage is taken against the entry net cost's magnitude; `None` when an amount
/// overflows.
pub fn net_cost_trade_pnl(entry_net_cost: Money, exit_net_cost: Money) -> (r: Option<TradePnl>)
    requires
        entry_net_cost.wf(),
        exit_net_cost.wf(),
    ensures
        r == (match spec_sub(exit_net_cost, entry_net_cost) {
            None => None,
            Some(per_share) => spec_abs_basis_pnl(per_share, entry_net_cost),
        }),
        r matches Some(p) ==> p.pnl.wf() && p.pnl_pct.wf(),
        r matches Some(p) ==> spec_sub(exit_net_cost, entry_net_cost) matches Some(ps) && pnl_against(
            p,
            ps,
            abs_money(entry_net_cost),
        ),
        r is None <==> match spec_sub(exit_net_cost, entry_net_cost) {
            None => true,
            Some(ps) => pnl_overflows(ps, abs_money(entry_net_cost)),
        },
{
    let per_share = match checked_sub(exit_net_cost, entry_net_cost) {
        Some(v) => v,
        None => return None,
    };
    let pnl = match checked_mul(per_share, hundred()) {
        Some(v) => v,
        None => return None,
    };
    if entry_net_cost.is_zero() {
        return Some(TradePnl { pnl, pnl_pct: Money::zero() });
    }
    let q = match checked_div(per_share, entry_net_cost.abs()) {
        Some(v) => v,
        None => return None,
    };
    match checked_mul(q, hundred()) {
        Some(pnl_pct) => Some(TradePnl { pnl, pnl_pct }),
        None => None,
    }
}

/// Refuses a position whose net cost is smaller in magnitude than the minimum
/// (calendar straddles as their executor checks them, against $0.10).
pub fn check_min_abs_entry(net_cost: Money, min_cost: Money) -> (r: Result<(), EntryRejection>)
    requires
        net_cost.wf(),
        min_cost.wf(),
    ensures
        r == (if abs_money(net_cost).scaled() < min_cost.scaled() {
            Err(EntryRejection::BelowMinimum)
        } else {
            Ok(())
        }),
{
    if less_than(net_cost.abs(), min_cost) {
        Err(EntryRejection::BelowMinimum)
    } else {
        Ok(())
    }
}

/// Amounts of a short iron butterfly for one contract.
#[derive(Debug, Clone, Copy, PartialEq, Eq, Structural)]
pub struct IronButterflyPnl {
    /// Credit received per share at entry.
    pub entry_credit: Money,
    /// Cost per share to close.
    pub exit_cost: Money,
    pub pnl: Money,
    pub pnl_pct: Money,
    /// Wing width per contract minus the credit per contract.
    pub max_loss: Money,
    /// Distance between the long and the short call strike, per share.
    pub wing_width: Money,
}

/// Amounts of a short iron butterfly, from the net costs of its legs (long legs paid,
/// short legs received) and its call strikes.
pub open spec fn spec_short_iron_butterfly_pnl(
    entry_net_cost: Money,
    exit_net_cost: Money,
    short_call_strike: Money,
    long_call_strike: Money,
) -> Option<IronButterflyPnl> {
    let entry_credit = Money { mantissa: (-entry_net_cost.mantissa) as i128, scale: entry_net_cost.scale };
    let exit_cost = Money { mantissa: (-exit_net_cost.mantissa) as i128, scale: exit_net_cost.scale };
    match spec_sub(entry_credit, exit_cost) {
        None => None,
        Some(per_share) => match spec_position_pnl(per_share, entry_credit) {
            None => None,
            Some(p) => match spec_sub(long_call_strike, short_call_strike) {
                None => None,
                Some(width) => match spec_mul(width, spec_hundred()) {
                    None => None,
                    Some(width_contract) => match spec_mul(entry_credit, spec_hundred()) {
                        None => None,
                        Some(credit_contract) => match spec_sub(width_contract, credit_contract) {
                            None => None,
                            Some(max_loss) => Some(IronButterflyPnl {
                                entry_credit,
                                exit_cost,
                                pnl: p.pnl,
                                pnl_pct: p.pnl_pct,
                                max_loss,
                                wing_width: width,
                            }),
                        },
                    },
                },
            },
        },
    }
}

/// Amounts of a short iron butterfly: the credit is the negated entry net cost, the P&L
/// is credit minus closing cost, the percentage is taken against the credit per contract,
/// and the maximum loss is the wing width minus the credit; `None` when an amount overflows.
pub fn short_iron_butterfly_pnl(
    entry_net_cost: Money,
    exit_net_cost: Money,
    short_call_strike: Money,
    long_call_strike: Money,
) -> (r: Option<IronButterflyPnl>)
    requires
        entry_net_cost.wf(),
        exit_net_cost.wf(),
        short_call_strike.wf(),
        long_call_strike.wf(),
    ensures
        r == spec_short_iron_butterfly_pnl(entry_net_cost, exit_net_cost, short_call_strike, long_call_strike),
{
    let entry_credit = entry_net_cost.neg();
    let exit_cost = exit_net_cost.neg();
    let per_share = match checked_sub(entry_credit, exit_cost) {
        Some(v) => v,
        None => return None,
    };
    let p = match position_pnl(per_share, entry_credit) {
        Some(v) => v,
        None => return None,
    };
    let width = match checked_sub(long_call_strike, short_call_strike) {
        Some(v) => v,
        None => return None,
    };
    let width_contract = match checked_mul(width, hundred()) {
        Some(v) => v,
        None => return None,
    };
    let credit_contract = match checked_mul(entry_credit, hundred()) {
        Some(v) => v,
        None => return None,
    };
    match checked_sub(width_contract, credit_contract) {
        Some(max_loss) => Some(IronButterflyPnl {
            entry_credit,
            exit_cost,
            pnl: p.pnl,
            pnl_pct: p.pnl_pct,
            max_loss,
            wing_width: width,
        }),
        None => None,
    }
}

/// Amounts of a long iron butterfly for one contract.
#[derive(Debug, Clone, Copy, PartialEq, Eq, Structural)]
pub struct LongIronButterflyPnl {
    /// Debit paid per share at entry.
    pub entry_debit: Money,
    /// Value per share received to close.
    pub exit_credit: Money,
    pub pnl: Money,
    pub pnl_pct: Money,
    /// The debit per contract.
    pub max_loss: Money,
    /// Distance between the upper and the center call strike, per share.
    pub wing_width: Money,
}

/// Amounts of a long iron butterfly, from the net costs of its legs and its call strikes.
pub open spec fn spec_long_iron_butterfly_pnl(
    entry_net_cost: Money,
    exit_net_cost: Money,
    center_call_strike: Money,
    upper_call_strike: Money,
) -> Option<LongIronButterflyPnl> {
    match spec_sub(exit_net_cost, entry_net_cost) {
        None => None,
        Some(per_share) => match spec_position_pnl(per_share, entry_net_cost) {
            None => None,
            Some(p) => match spec_sub(upper_call_strike, center_call_strike) {
                None => None,
                Some(width) => match spec_mul(entry_net_cost, spec_hundred()) {
                    None => None,
                    Some(max_loss) => Some(LongIronButterflyPnl {
                        entry_debit: entry_net_cost,
                        exit_credit: exit_net_cost,
                        pnl: p.pnl,
                        pnl_pct: p.pnl_pct,
                        max_loss,
                        wing_width: width,
                    }),
                },
            },
        },
    }
}

/// Amounts of a long iron butterfly: the P&L is closing value minus debit, the percentage
/// is taken against the debit per contract, and the maximum loss is the debit per contract;
/// `None` when an amount overflows.
pub fn long_iron_butterfly_pnl(
    entry_net_cost: Money,
    exit_net_cost: Money,
    center_call_strike: Money,
    upper_call_strike: Money,
) -> (r: Option<LongIronButterflyPnl>)
    requires
        entry_net_cost.wf(),
        exit_net_cost.wf(),
        center_call_strike.wf(),
        upper_call_strike.wf(),
    ensures
        r == spec_long_iron_butterfly_pnl(entry_net_cost, exit_net_cost, center_call_strike, upper_call_strike),
{
    let per_share = match checked_sub(exit_net_cost, entry_net_cost) {
        Some(v) => v,
        None => return None,
    };
    let p = match position_pnl(per_share, entry_net_cost) {
        Some(v) => v,
        None => return None,
    };
    let width = match checked_sub(upper_call_strike, center_call_strike) {
        Some(v) => v,
        None => return None,
    };
    match checked_mul(entry_net_cost, hundred()) {
        Some(max_loss) => Some(LongIronButterflyPnl {
            entry_debit: entry_net_cost,
            exit_credit: exit_net_cost,
            pnl: p.pnl,
            pnl_pct: p.pnl_pct,
            max_loss,
            wing_width: width,
        }),
        None => None,
    }
}

/// Why an entry price is refused.
#[derive(Debug, Clone, Copy, PartialEq, Eq, Structural)]
pub enum EntryRejection {
    /// A debit trade whose net cost is zero or negative.
    NonPositiveDebit,
    /// A credit trade whose net credit is zero or negative.
    NonPositiveCredit,
    /// The entry amount is below the configured minimum.
    BelowMinimum,
}

/// Refuses an entry amount below the minimum (straddles).
pub fn check_min_entry(amount: Money, min_entry_cost: Money) -> (r: Result<(), EntryRejection>)
    requires
        amount.wf(),
        min_entry_cost.wf(),
    ensures
        r == (if amount.scaled() < min_entry_cost.scaled() {
            Err(EntryRejection::BelowMinimum)
        } else {
            Ok(())
        }),
{
    if less_than(amount, min_entry_cost) {
        Err(EntryRejection::BelowMinimum)
    } else {
        Ok(())
    }
}

/// Refuses a debit trade whose net cost is not positive, then one below the minimum
/// (calendar spreads, strangles, butterflies, condors, calendar straddles, long iron
/// butterflies).
pub fn check_debit_entry(net_cost: Money, min_entry_cost: Money) -> (r: Result<(), EntryRejection>)
    requires
        net_cost.wf(),
        min_entry_cost.wf(),
    ensures
        r == (if net_cost.scaled() <= 0 {
            Err(EntryRejection::NonPositiveDebit)
        } else if net_cost.scaled() < min_entry_cost.scaled() {
            Err(EntryRejection::BelowMinimum)
        } else {
            Ok(())
        }),
{
    let zero = Money::zero();
    proof {
        assert(zero.scaled() == 0) by (nonlinear_arith)
            requires zero.mantissa == 0;
    }
    if !less_than(zero, net_cost) {
        Err(EntryRejection::NonPositiveDebit)
    } else if less_than(net_cost, min_entry_cost) {
        Err(EntryRejection::BelowMinimum)
    } else {
        Ok(())
    }
}

/// Refuses a credit trade whose net credit is not positive, then one below the minimum
/// (iron butterflies, iron condors).
pub fn check_credit_entry(net_credit: Money, min_entry_cost: Money) -> (r: Result<(), EntryRejection>)
    requires
        net_credit.wf(),
        min_entry_cost.wf(),
    ensures
        r == (if net_credit.scaled() <= 0 {
            Err(EntryRejection::NonPositiveCredit)
        } else if net_credit.scaled() < min_entry_cost.scaled() {
            Err(EntryRejection::BelowMinimum)
        } else {
            Ok(())
        }),
{
    let zero = Money::zero();
    proof {
        assert(zero.scaled() == 0) by (nonlinear_arith)
            requires zero.mantissa == 0;
    }
    if !less_than(zero, net_credit) {
        Err(EntryRejection::NonPositiveCredit)
    } else if less_than(net_credit, min_entry_cost) {
        Err(EntryRejection::BelowMinimum)
    } else {
        Ok(())
    }
}

/// Whether a leg is bought or sold.
#[derive(Debug, Clone, Copy, PartialEq, Eq, Structural)]
pub enum LegPosition {
    Long,
    Short,
}

impl LegPosition {
    /// `1` for a long leg, `-1` for a short one, as an amount.
    pub open spec fn spec_sign(self) -> Money {
        match self {
            LegPosition::Long => Money { mantissa: 1, scale: 0 },
            LegPosition::Short => Money { mantissa: -1i128, scale: 0 },
        }
    }

    /// `1` for a long leg, `-1` for a short one, as an amount.
    pub fn sign_amount(&self) -> (r: Money)
        ensures
            r == self.spec_sign(),
            r.wf(),
    {
        match self {
            LegPosition::Long => Money::from_int(1),
            LegPosition::Short => Money::from_int(-1),
        }
    }
}

/// Price per share of one leg and its side.
#[derive(Debug, Clone, Copy, PartialEq, Eq, Structural)]
pub struct LegQuote {
    pub price: Money,
    pub position: LegPosition,
}

/// Net cost of legs, priced from the first on: long legs paid, short legs received.
pub open spec fn spec_net_cost(legs: Seq<LegQuote>) -> Option<Money>
    decreases legs.len(),
{
    if legs.len() == 0 {
        Some(Money::spec_zero())
    } else {
        match spec_net_cost(legs.drop_last()) {
            None => None,
            Some(acc) => match spec_mul(legs.last().price, legs.last().position.spec_sign()) {
                None => None,
                Some(signed) => spec_add(acc, signed),
            },
        }
    }
}

/// Net cost of a composite trade's legs (positive for a debit, negative for a credit);
/// `None` when an amount overflows.
pub fn net_cost(legs: &Vec<LegQuote>) -> (r: Option<Money>)
    requires
        forall|i: int| 0 <= i < legs@.len() ==> (#[trigger] legs@[i]).price.wf(),
    ensures
        r == spec_net_cost(legs@),
        r matches Some(m) ==> m.wf(),
{
    let mut acc = Money::zero();
    let mut i: usize = 0;
    while i < legs.len()
        invariant
            i <= legs@.len(),
            forall|j: int| 0 <= j < legs@.len() ==> (#[trigger] legs@[j]).price.wf(),
            acc.wf(),
            spec_net_cost(legs@.take(i as int)) == Some(acc),
        decreases legs@.len() - i,
    {
        assert(legs@.take(i as int + 1).drop_last() =~= legs@.take(i as int));
        assert(legs@.take(i as int + 1).last() == legs@[i as int]);
        let leg = legs[i];
        let signed = match checked_mul(leg.price, leg.position.sign_amount()) {
            Some(v) => v,
            None => {
                proof {
                    lemma_net_cost_none_stays(legs@, i as int + 1);
                }
                return None;
            },
        };
        match checked_add(acc, signed) {
            Some(v) => {
                acc = v;
            },
            None => {
                proof {
                    lemma_net_cost_none_stays(legs@, i as int + 1);
                }
                return None;
            },
        }
        i = i + 1;
    }
    assert(legs@.take(legs@.len() as int) =~= legs@);
    Some(acc)
}

/// Once pricing a prefix of legs overflows, pricing every longer prefix does.
proof fn lemma_net_cost_none_stays(legs: Seq<LegQuote>, n: int)
    requires
        0 <= n <= legs.len(),
        spec_net_cost(legs.take(n)) is None,
    ensures
        spec_net_cost(legs) is None,
    decreases legs.len() - n,
{
    if n < legs.len() {
        assert(legs.take(n + 1).drop_last() =~= legs.take(n));
        lemma_net_cost_none_stays(legs, n + 1);
    } else {
        assert(legs.take(n) =~= legs);
    }
}

/// Option strategies that can be executed.
#[derive(Debug, Clone, Copy, PartialEq, Eq, Structural)]
pub enum OptionStrategy {
    CalendarSpread,
    IronButterfly,
    Straddle,
    CalendarStraddle,
    Strangle,
    Butterfly,
    Condor,
    IronCondor,
}

/// Minimum entry amounts of a strategy.
#[derive(Debug, Clone, Copy, PartialEq, Eq, Structural)]
pub struct EntryThresholds {
    /// Minimum entry cost (or credit) per share, to avoid near-zero pricing.
    pub min_entry_cost: Money,
    /// Minimum credit per share for credit spreads.
    pub min_credit: Option<Money>,
}

impl EntryThresholds {
    /// Straddles: at least $0.50.
    pub fn for_straddle() -> (r: Self)
        ensures
            r == (EntryThresholds { min_entry_cost: Money { mantissa: 50, scale: 2 }, min_credit: None }),
    {
        EntryThresholds { min_entry_cost: Money { mantissa: 50, scale: 2 }, min_credit: None }
    }

    /// Calendar spreads: at least $0.05.
    pub fn for_calendar_spread() -> (r: Self)
        ensures
            r == (EntryThresholds { min_entry_cost: Money { mantissa: 5, scale: 2 }, min_credit: None }),
    {
        EntryThresholds { min_entry_cost: Money { mantissa: 5, scale: 2 }, min_credit: None }
    }

    /// Iron butterflies (credit): at least $0.10, and a credit of at least $0.10.
    pub fn for_iron_butterfly() -> (r: Self)
        ensures
            r == (EntryThresholds {
                min_entry_cost: Money { mantissa: 10, scale: 2 },
                min_credit: Some(Money { mantissa: 10, scale: 2 }),
            }),
    {
        EntryThresholds {
            min_entry_cost: Money { mantissa: 10, scale: 2 },
            min_credit: Some(Money { mantissa: 10, scale: 2 }),
        }
    }

    /// Calendar straddles (debit): at least $0.50.
    pub fn for_calendar_straddle() -> (r: Self)
        ensures
            r == (EntryThresholds { min_entry_cost: Money { mantissa: 50, scale: 2 }, min_credit: None }),
    {
        EntryThresholds { min_entry_cost: Money { mantissa: 50, scale: 2 }, min_credit: None }
    }

    /// The thresholds of a strategy; the other multi-leg strategies use those of iron
    /// butterflies.
    pub fn for_strategy(strategy: OptionStrategy) -> (r: Self)
        ensures
            r == (match strategy {
                OptionStrategy::CalendarSpread => EntryThresholds {
                    min_entry_cost: Money { mantissa: 5, scale: 2 },
                    min_credit: None,
                },
                OptionStrategy::Straddle | OptionStrategy::CalendarStraddle => EntryThresholds {
                    min_entry_cost: Money { mantissa: 50, scale: 2 },
                    min_credit: None,
                },
                _ => EntryThresholds {
                    min_entry_cost: Money { mantissa: 10, scale: 2 },
                    min_credit: Some(Money { mantissa: 10, scale: 2 }),
                },
            }),
    {
        match strategy {
            OptionStrategy::CalendarSpread => Self::for_calendar_spread(),
            OptionStrategy::IronButterfly => Self::for_iron_butterfly(),
            OptionStrategy::Straddle => Self::for_straddle(),
            OptionStrategy::CalendarStraddle => Self::for_calendar_straddle(),
            OptionStrategy::Strangle => Self::for_iron_butterfly(),
            OptionStrategy::Butterfly => Self::for_iron_butterfly(),
            OptionStrategy::Condor => Self::for_iron_butterfly(),
            OptionStrategy::IronCondor => Self::for_iron_butterfly(),
        }
    }
}

/// A debit trade's percentage is always taken against its entry cost, whether it won or
/// lost: its P&L is the per-share P&L (exit value minus entry cost) over one contract, and
/// its percentage that P&L per share over the entry cost, times 100.
pub proof fn lemma_debit_pct_against_entry_cost(entry_cost: Money, exit_value: Money)
    ensures
        spec_debit_trade_pnl(entry_cost, exit_value) matches Some(p) ==> spec_sub(exit_value, entry_cost) matches Some(
            ps,
        ) && pnl_against(p, ps, entry_cost),
        spec_debit_trade_pnl(entry_cost, exit_value) is None <==> match spec_sub(exit_value, entry_cost) {
            None => true,
            Some(ps) => pnl_overflows(ps, entry_cost),
        },
{
}

/// A credit trade's percentage is always taken against its entry credit: its per-share
/// P&L is the credit minus the closing cost.
pub proof fn lemma_credit_pct_against_entry_credit(entry_credit: Money, exit_cost: Money)
    ensures
        spec_credit_trade_pnl(entry_credit, exit_cost) matches Some(p) ==> spec_sub(entry_credit, exit_cost) matches Some(
            ps,
        ) && pnl_against(p, ps, entry_credit),
        spec_credit_trade_pnl(entry_credit, exit_cost) is None <==> match spec_sub(entry_credit, exit_cost) {
            None => true,
            Some(ps) => pnl_overflows(ps, entry_credit),
        },
{
}

/// A position priced against its capital (iron butterflies, calendar straddles) takes
/// its percentage against the basis's magnitude per contract, never its signed value, so
/// a credit (negative basis) and a debit of the same size give the same percentage.
pub proof fn lemma_position_pct_against_capital(per_share: Money, basis: Money)
    requires
        basis.wf(),
    ensures
        spec_position_pnl(per_share, basis) matches Some(p) ==> pnl_against_capital(p, per_share, basis),
        spec_position_pnl(per_share, basis) == spec_position_pnl(
            per_share,
            Money { mantissa: (-basis.mantissa) as i128, scale: basis.scale },
        ),
{
    assert(abs_money(basis) == abs_money(Money { mantissa: (-basis.mantissa) as i128, scale: basis.scale }));
}

/// A long leg is paid and a short leg received: their signs are +1 and -1.
pub proof fn lemma_leg_signs()
    ensures
        LegPosition::Long.spec_sign() == (Money { mantissa: 1, scale: 0 }),
        LegPosition::Short.spec_sign() == (Money { mantissa: -1i128, scale: 0 }),
{
}

/// A short iron butterfly is a credit: its credit is the negated entry net cost and its
/// closing cost the negated exit net cost; its P&L is the credit minus the closing cost,
/// taken against the credit's capital; its wing width is the long call strike minus the
/// short one; and its maximum loss is the wing width less the credit, per contract.
pub proof fn lemma_short_iron_butterfly_reads(
    entry_net_cost: Money,
    exit_net_cost: Money,
    short_call_strike: Money,
    long_call_strike: Money,
)
    requires
        entry_net_cost.wf(),
        exit_net_cost.wf(),
    ensures
        spec_short_iron_butterfly_pnl(entry_net_cost, exit_net_cost, short_call_strike, long_call_strike) matches Some(
            b,
        ) ==> {
            &&& b.entry_credit.mantissa == -entry_net_cost.mantissa && b.entry_credit.scale == entry_net_cost.scale
            &&& b.exit_cost.mantissa == -exit_net_cost.mantissa && b.exit_cost.scale == exit_net_cost.scale
            &&& spec_sub(b.entry_credit, b.exit_cost) matches Some(ps) && pnl_against_capital(
                TradePnl { pnl: b.pnl, pnl_pct: b.pnl_pct },
                ps,
                b.entry_credit,
            )
            &&& spec_sub(long_call_strike, short_call_strike) == Some(b.wing_width)
            &&& spec_mul(b.wing_width, spec_hundred()) matches Some(w)
            &&& spec_mul(b.entry_credit, spec_hundred()) matches Some(c)
            &&& spec_sub(w, c) == Some(b.max_loss)
        },
{
    let credit = Money { mantissa: (-entry_net_cost.mantissa) as i128, scale: entry_net_cost.scale };
    if let Some(ps) = spec_sub(credit, Money { mantissa: (-exit_net_cost.mantissa) as i128, scale: exit_net_cost.scale }) {
        lemma_position_pct_against_capital(ps, credit);
    }
}

/// A long iron butterfly is a debit: its P&L is the exit net cost minus the entry net cost,
/// taken against the debit's capital; its wing width is the upper call strike minus the
/// center one; and its maximum loss is the debit per contract.
pub proof fn lemma_long_iron_butterfly_reads(
    entry_net_cost: Money,
    exit_net_cost: Money,
    center_call_strike: Money,
    upper_call_strike: Money,
)
    requires
        entry_net_cost.wf(),
    ensures
        spec_long_iron_butterfly_pnl(entry_net_cost, exit_net_cost, center_call_strike, upper_call_strike) matches Some(
            b,
        ) ==> {
            &&& b.entry_debit == entry_net_cost
            &&& b.exit_credit == exit_net_cost
            &&& spec_sub(exit_net_cost, entry_net_cost) matches Some(ps) && pnl_against_capital(
                TradePnl { pnl: b.pnl, pnl_pct: b.pnl_pct },
                ps,
                entry_net_cost,
            )
            &&& spec_sub(upper_call_strike, center_call_strike) == Some(b.wing_width)
            &&& spec_mul(entry_net_cost, spec_hundred()) == Some(b.max_loss)
        },
{
    if let Some(ps) = spec_sub(exit_net_cost, entry_net_cost) {
        lemma_position_pct_against_capital(ps, entry_net_cost);
    }
}

} // verus!
