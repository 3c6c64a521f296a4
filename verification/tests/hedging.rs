use cs_backtest::attribution::{attribute_pnl, attribute_spread_pnl};
use cs_backtest::hedging::{HedgePositionSummary, HedgedTradeResult, HedgingComparison, HedgingTotals};
use cs_backtest::money::Money;
use rust_decimal::Decimal;

fn m(mantissa: i128, scale: u32) -> Money {
    Money::from_parts(mantissa, scale).unwrap()
}

fn dec(x: Money) -> Decimal {
    Decimal::from_i128_with_scale(x.mantissa, x.scale)
}

fn d(s: &str) -> Decimal {
    s.parse().unwrap()
}

fn hedged_trade(pnl: Money, total: Money, cost: Money, rehedges: usize, hedge_pnl: Money) -> HedgedTradeResult {
    HedgedTradeResult {
        pnl,
        hedge_position: Some(HedgePositionSummary { total_cost: cost, rehedge_count: rehedges }),
        hedge_pnl: Some(hedge_pnl),
        total_pnl_with_hedge: Some(total),
    }
}

#[test]
fn attribution_unexplained_is_total_minus_greeks() {
    // total 10.00; delta 4.00, gamma 1.50, theta -0.50, vega 2.25 explain 7.25
    let a = attribute_pnl(m(1000, 2), m(400, 2), m(150, 2), m(-50, 2), m(225, 2)).unwrap();
    assert_eq!(dec(a.total), d("10.00"));
    assert_eq!(dec(a.delta), d("4.00"));
    assert_eq!(dec(a.vega), d("2.25"));
    assert_eq!(dec(a.unexplained), d("2.75"));
}

#[test]
fn attribution_of_exactly_explained_pnl_leaves_nothing() {
    let a = attribute_pnl(m(300, 2), m(100, 2), m(100, 2), m(50, 2), m(50, 2)).unwrap();
    assert_eq!(dec(a.unexplained), Decimal::ZERO);
}

#[test]
fn spread_attribution_adds_leg_vegas() {
    // short leg vega P&L -1.20, long leg +2.00: vega 0.80; greeks explain 1.30 of 2.00
    let a = attribute_spread_pnl(m(200, 2), m(30, 2), m(10, 2), m(10, 2), m(-120, 2), m(200, 2)).unwrap();
    assert_eq!(dec(a.vega), d("0.80"));
    assert_eq!(dec(a.unexplained), d("0.70"));
}

#[test]
fn attribution_overflow_is_reported() {
    let big = m(79228162514264337593543950335, 0);
    assert!(attribute_pnl(m(0, 0), big, big, m(0, 0), m(0, 0)).is_none());
}

#[test]
fn comparison_of_a_hedged_trade() {
    // options P&L 1.00, with hedge 1.50, hedge cost 0.25: contribution 0.50, efficiency 2
    let t = hedged_trade(m(100, 2), m(150, 2), m(25, 2), 3, m(50, 2));
    let c = HedgingComparison::from_result(&t).unwrap().unwrap();
    assert_eq!(dec(c.unhedged_pnl), d("1.00"));
    assert_eq!(dec(c.hedged_pnl), d("1.50"));
    assert_eq!(dec(c.hedge_contribution), d("0.50"));
    assert_eq!(dec(c.hedge_cost), d("0.25"));
    assert_eq!(c.num_rehedges, 3);
    assert_eq!(dec(c.efficiency_ratio.unwrap()), d("2"));
}

#[test]
fn comparison_without_cost_has_no_efficiency() {
    let t = hedged_trade(m(100, 2), m(90, 2), m(0, 0), 1, m(-10, 2));
    let c = HedgingComparison::from_result(&t).unwrap().unwrap();
    assert_eq!(dec(c.hedge_contribution), d("-0.10"));
    assert!(c.efficiency_ratio.is_none());
}

#[test]
fn comparison_needs_full_hedge_data() {
    let mut t = hedged_trade(m(100, 2), m(150, 2), m(25, 2), 3, m(50, 2));
    t.hedge_pnl = None;
    assert!(HedgingComparison::from_result(&t).unwrap().is_none());
    let unhedged = HedgedTradeResult {
        pnl: m(100, 2),
        hedge_position: None,
        hedge_pnl: None,
        total_pnl_with_hedge: None,
    };
    assert!(HedgingComparison::from_result(&unhedged).unwrap().is_none());
}

#[test]
fn comparison_overflow_is_an_error() {
    let big = m(79228162514264337593543950335, 0);
    let t = hedged_trade(m(-79228162514264337593543950335, 0), big, m(1, 0), 0, m(0, 0));
    assert!(HedgingComparison::from_result(&t).is_err());
}

#[test]
fn totals_over_hedged_and_unhedged_trades() {
    let unhedged = HedgedTradeResult {
        pnl: m(500, 2),
        hedge_position: None,
        hedge_pnl: None,
        total_pnl_with_hedge: None,
    };
    let results = vec![
        hedged_trade(m(100, 2), m(150, 2), m(25, 2), 3, m(50, 2)),
        unhedged,
        hedged_trade(m(-200, 2), m(-120, 2), m(40, 2), 2, m(80, 2)),
    ];
    let t = HedgingTotals::from_results(&results).unwrap();
    assert_eq!(t.total_trades, 3);
    assert_eq!(t.hedged_trades, 2);
    assert_eq!(t.total_rehedges, 5);
    assert_eq!(dec(t.total_hedge_cost), d("0.65"));
    assert_eq!(dec(t.total_hedge_pnl), d("1.30"));
    assert_eq!(t.comparisons.len(), 2);
    assert_eq!(dec(t.comparisons[1].hedge_contribution), d("0.80"));
}

#[test]
fn totals_of_no_trades() {
    let t = HedgingTotals::from_results(&Vec::new()).unwrap();
    assert_eq!(t.total_trades, 0);
    assert_eq!(t.hedged_trades, 0);
    assert_eq!(t.total_rehedges, 0);
    assert_eq!(dec(t.total_hedge_cost), Decimal::ZERO);
    assert!(t.comparisons.is_empty());
}

#[test]
fn totals_without_hedge_data() {
    let partial = HedgedTradeResult {
        pnl: m(-300, 2),
        hedge_position: Some(HedgePositionSummary { total_cost: m(10, 2), rehedge_count: 4 }),
        hedge_pnl: None,
        total_pnl_with_hedge: None,
    };
    let bare = HedgedTradeResult { pnl: m(700, 2), hedge_position: None, hedge_pnl: None, total_pnl_with_hedge: None };
    let t = HedgingTotals::from_results(&vec![partial, bare]).unwrap();
    assert_eq!(t.total_trades, 2);
    assert_eq!(t.hedged_trades, 0);
    assert_eq!(t.total_rehedges, 0);
    assert!(t.comparisons.is_empty());
    assert_eq!(dec(t.total_hedge_pnl), Decimal::ZERO);
}
