use cs_backtest::backtest_stats::{BacktestResult, CostBreakdown, ProfitFactor, TradeOutcome};
use cs_backtest::money::Money;
use rust_decimal::Decimal;

fn m(mantissa: i128, scale: u32) -> Money {
    Money::from_parts(mantissa, scale).unwrap()
}

fn dec(x: Money) -> Decimal {
    Decimal::from_i128_with_scale(x.mantissa, x.scale)
}

fn d(s: &str) -> Decimal {
    s.parse().unwrap()
}

fn outcome(pnl: Money, is_winner: bool) -> TradeOutcome {
    TradeOutcome {
        pnl,
        pnl_pct: Money::zero(),
        is_winner,
        has_hedge_data: false,
        hedge_pnl: None,
        total_pnl_with_hedge: None,
        capital_required: m(500, 0),
        has_costs: false,
        total_costs: None,
        gross_pnl: None,
        cost_breakdown: None,
    }
}

fn sample() -> BacktestResult {
    let mut a = outcome(m(12050, 2), true);
    a.has_hedge_data = true;
    a.hedge_pnl = Some(m(-1000, 2));
    a.total_pnl_with_hedge = Some(m(11050, 2));
    a.has_costs = true;
    a.total_costs = Some(m(300, 2));
    a.gross_pnl = Some(m(12350, 2));
    a.cost_breakdown = Some(CostBreakdown { slippage: m(200, 2), commission: m(100, 2) });
    let b = outcome(m(-4000, 2), false);
    let c = outcome(m(3000, 2), true);
    let mut e = outcome(Money::zero(), false);
    e.has_costs = true;
    e.total_costs = Some(m(100, 2));
    e.cost_breakdown = Some(CostBreakdown { slippage: m(50, 2), commission: m(50, 2) });
    BacktestResult { results: vec![a, b, c, e], sessions_processed: 3, total_entries: 4, total_opportunities: 5 }
}

#[test]
fn totals() {
    let r = sample();
    assert_eq!(r.successful_trades(), 4);
    assert_eq!(dec(r.total_pnl().unwrap()), d("110.50"));
    assert!(r.has_hedging());
    assert_eq!(dec(r.total_hedge_pnl().unwrap()), d("-10.00"));
    assert_eq!(dec(r.total_pnl_with_hedge().unwrap()), d("100.50"));
    assert_eq!(dec(r.total_capital_deployed().unwrap()), d("2000"));
}

#[test]
fn winners_and_losers() {
    let r = sample();
    assert_eq!(dec(r.avg_winner().unwrap()), d("75.25"));
    assert_eq!(dec(r.avg_loser().unwrap()), d("-40"));
    let none = BacktestResult { results: vec![], sessions_processed: 0, total_entries: 0, total_opportunities: 0 };
    assert_eq!(none.avg_winner(), Some(Money::zero()));
    assert_eq!(none.avg_loser(), Some(Money::zero()));
    assert_eq!(none.total_pnl(), Some(Money::zero()));
}

#[test]
fn costs() {
    let r = sample();
    assert!(r.has_trading_costs());
    assert_eq!(r.trades_with_costs(), 2);
    assert_eq!(dec(r.total_trading_costs().unwrap()), d("4.00"));
    assert_eq!(dec(r.total_gross_pnl().unwrap()), d("113.50"));
    assert_eq!(dec(r.total_slippage().unwrap()), d("2.50"));
    assert_eq!(dec(r.total_commissions().unwrap()), d("1.50"));
    assert_eq!(dec(r.avg_cost_per_trade().unwrap()), d("2"));
}

#[test]
fn no_hedges_no_costs() {
    let r = BacktestResult {
        results: vec![outcome(m(1, 0), true), outcome(m(-3, 0), false)],
        sessions_processed: 1,
        total_entries: 2,
        total_opportunities: 2,
    };
    assert!(!r.has_hedging());
    assert_eq!(r.total_pnl_with_hedge(), r.total_pnl());
    assert_eq!(r.total_gross_pnl(), r.total_pnl());
    assert!(!r.has_trading_costs());
    assert_eq!(r.avg_cost_per_trade(), Some(Money::zero()));
}

#[test]
fn gross_profit_loss_and_ratios() {
    let r = sample();
    assert_eq!(r.winner_count(), 2);
    assert_eq!(dec(r.gross_profit().unwrap()), d("150.50"));
    assert_eq!(dec(r.gross_loss().unwrap()), d("40.00"));
    match r.profit_loss_ratio().unwrap() {
        ProfitFactor::Ratio(q) => assert_eq!(dec(q), d("3.7625")),
        other => panic!("unexpected {:?}", other),
    }
    assert_eq!(dec(r.capital_return_ratio().unwrap().unwrap()), d("0.05025"));
    assert_eq!(dec(r.cost_impact_ratio().unwrap().unwrap()), d("4.00") / d("113.50"));
}

#[test]
fn ratios_without_losses_capital_or_gross() {
    let only_winners = BacktestResult {
        results: vec![outcome(m(5, 0), true)],
        sessions_processed: 1,
        total_entries: 1,
        total_opportunities: 1,
    };
    assert_eq!(only_winners.profit_loss_ratio(), Some(ProfitFactor::NoLosses { has_profit: true }));
    let none = BacktestResult { results: vec![], sessions_processed: 0, total_entries: 0, total_opportunities: 0 };
    assert_eq!(none.profit_loss_ratio(), Some(ProfitFactor::NoLosses { has_profit: false }));
    assert_eq!(none.capital_return_ratio(), Some(None));
    assert_eq!(none.cost_impact_ratio(), Some(None));
    assert_eq!(none.winner_count(), 0);
}
