use cs_backtest::money::{checked_add, checked_div, checked_mul, checked_sub, less_than, sum_amounts, Money};
use cs_backtest::trade_pnl::{
    check_credit_entry, check_debit_entry, check_min_abs_entry, check_min_entry, credit_trade_pnl,
    debit_trade_pnl, long_iron_butterfly_pnl, net_cost, net_cost_trade_pnl, position_pnl, short_iron_butterfly_pnl, EntryRejection,
    EntryThresholds, LegPosition, LegQuote, OptionStrategy, TradePnl,
};
use rust_decimal::Decimal;

fn m(mantissa: i128, scale: u32) -> Money {
    Money::from_parts(mantissa, scale).unwrap()
}

fn dec(x: Money) -> Decimal {
    Decimal::from_i128_with_scale(x.mantissa, x.scale)
}

fn d(s: &str) -> Decimal {
    s.parse().unwrap()
}

#[test]
fn money_parts_and_bounds() {
    assert_eq!(Money::from_parts(5, 2), Some(Money { mantissa: 5, scale: 2 }));
    assert_eq!(Money::from_parts(1, 29), None);
    assert_eq!(Money::from_parts(79228162514264337593543950336, 0), None);
    assert_eq!(Money::from_count(7), Money { mantissa: 7, scale: 0 });
    assert!(Money::zero().is_zero());
    assert_eq!(m(-125, 2).abs(), m(125, 2));
    assert_eq!(m(125, 2).neg(), m(-125, 2));
}

#[test]
fn money_arithmetic_goes_through_rust_decimal() {
    assert_eq!(dec(checked_add(m(150, 2), m(225, 2)).unwrap()), d("3.75"));
    assert_eq!(dec(checked_sub(m(150, 2), m(225, 2)).unwrap()), d("-0.75"));
    assert_eq!(dec(checked_mul(m(150, 2), m(100, 0)).unwrap()), d("150"));
    assert_eq!(dec(checked_div(m(1, 0), m(4, 0)).unwrap()), d("0.25"));
    assert_eq!(checked_div(m(1, 0), Money::zero()), None);
    assert_eq!(checked_add(m(79228162514264337593543950335, 0), m(1, 0)), None);
    assert!(less_than(m(5, 2), m(1, 1)));
    assert!(!less_than(m(10, 2), m(1, 1)));
    assert_eq!(dec(sum_amounts(&vec![m(1, 1), m(2, 1), m(3, 1)]).unwrap()), d("0.6"));
    assert_eq!(sum_amounts(&vec![]), Some(Money::zero()));
}

#[test]
fn debit_trade_pnl_values() {
    // Entry 2.00, exit 3.00: +1.00 per share, $100 per contract, 50%.
    let p = debit_trade_pnl(m(200, 2), m(300, 2)).unwrap();
    assert_eq!(dec(p.pnl), d("100"));
    assert_eq!(dec(p.pnl_pct), d("50"));
    // A zero entry cost gives a zero percentage.
    let p = debit_trade_pnl(Money::zero(), m(50, 2)).unwrap();
    assert_eq!(dec(p.pnl), d("50"));
    assert_eq!(p.pnl_pct, Money::zero());
    // Closed at its entry price: flat.
    let p = debit_trade_pnl(m(275, 2), m(275, 2)).unwrap();
    assert_eq!(p, TradePnl { pnl: Money::zero(), pnl_pct: Money::zero() });
}

#[test]
fn credit_trade_pnl_values() {
    // Credit 2.00 received, closed for 0.50: +1.50 per share, 75%.
    let p = credit_trade_pnl(m(200, 2), m(50, 2)).unwrap();
    assert_eq!(dec(p.pnl), d("150"));
    assert_eq!(dec(p.pnl_pct), d("75"));
}

#[test]
fn position_pnl_values() {
    // -0.40 per share against a 2.00 basis: -$40 on $200 of capital, -20%.
    let p = position_pnl(m(-40, 2), m(-200, 2)).unwrap();
    assert_eq!(dec(p.pnl), d("-40"));
    assert_eq!(dec(p.pnl_pct), d("-20"));
}

#[test]
fn short_iron_butterfly_values() {
    // Net cost -3.00 (credit), closed at net cost -1.00, wings 100/110.
    let r = short_iron_butterfly_pnl(m(-300, 2), m(-100, 2), m(100, 0), m(110, 0)).unwrap();
    assert_eq!(dec(r.entry_credit), d("3.00"));
    assert_eq!(dec(r.exit_cost), d("1.00"));
    assert_eq!(dec(r.pnl), d("200"));
    assert_eq!(dec(r.pnl_pct), d("66.66666666666666666666666667"));
    assert_eq!(dec(r.wing_width), d("10"));
    assert_eq!(dec(r.max_loss), d("700"));
}

#[test]
fn long_iron_butterfly_values() {
    let r = long_iron_butterfly_pnl(m(250, 2), m(400, 2), m(100, 0), m(105, 0)).unwrap();
    assert_eq!(dec(r.pnl), d("150"));
    assert_eq!(dec(r.pnl_pct), d("60"));
    assert_eq!(dec(r.max_loss), d("250"));
    assert_eq!(dec(r.wing_width), d("5"));
}

#[test]
fn entry_checks() {
    let min = EntryThresholds::for_straddle().min_entry_cost;
    assert_eq!(check_min_entry(m(49, 2), min), Err(EntryRejection::BelowMinimum));
    assert_eq!(check_min_entry(m(50, 2), min), Ok(()));
    let min = EntryThresholds::for_calendar_spread().min_entry_cost;
    assert_eq!(check_debit_entry(m(-1, 2), min), Err(EntryRejection::NonPositiveDebit));
    assert_eq!(check_debit_entry(Money::zero(), min), Err(EntryRejection::NonPositiveDebit));
    assert_eq!(check_debit_entry(m(4, 2), min), Err(EntryRejection::BelowMinimum));
    assert_eq!(check_debit_entry(m(5, 2), min), Ok(()));
    let min = EntryThresholds::for_iron_butterfly().min_entry_cost;
    assert_eq!(check_credit_entry(m(0, 2), min), Err(EntryRejection::NonPositiveCredit));
    assert_eq!(check_credit_entry(m(9, 2), min), Err(EntryRejection::BelowMinimum));
    assert_eq!(check_credit_entry(m(1, 0), min), Ok(()));
}

#[test]
fn thresholds_per_strategy() {
    assert_eq!(EntryThresholds::for_strategy(OptionStrategy::CalendarSpread).min_entry_cost, m(5, 2));
    assert_eq!(EntryThresholds::for_strategy(OptionStrategy::Straddle).min_entry_cost, m(50, 2));
    assert_eq!(EntryThresholds::for_strategy(OptionStrategy::CalendarStraddle).min_credit, None);
    assert_eq!(EntryThresholds::for_strategy(OptionStrategy::IronCondor).min_credit, Some(m(10, 2)));
    assert_eq!(EntryThresholds::for_strategy(OptionStrategy::Strangle), EntryThresholds::for_iron_butterfly());
}

#[test]
fn net_cost_of_legs() {
    // Long 100 and short 50: net cost 50.
    let legs = vec![
        LegQuote { price: m(100, 0), position: LegPosition::Long },
        LegQuote { price: m(50, 0), position: LegPosition::Short },
    ];
    assert_eq!(dec(net_cost(&legs).unwrap()), d("50"));
    assert_eq!(net_cost(&vec![]), Some(Money::zero()));
}

#[test]
fn net_cost_pnl_against_entry_magnitude() {
    // entry net cost 2.00, exit 2.50: +0.50 per share, 50.00 per contract, +25%
    let p = net_cost_trade_pnl(m(200, 2), m(250, 2)).unwrap();
    assert_eq!(dec(p.pnl), "50.0000".parse::<Decimal>().unwrap());
    assert_eq!(dec(p.pnl_pct), "25".parse::<Decimal>().unwrap());
    // a negative entry net cost is taken by its magnitude: -2.00 to -1.00 is +50%
    let q = net_cost_trade_pnl(m(-200, 2), m(-100, 2)).unwrap();
    assert_eq!(dec(q.pnl_pct), "50".parse::<Decimal>().unwrap());
    // a zero entry gives a zero percentage
    let z = net_cost_trade_pnl(m(0, 0), m(30, 2)).unwrap();
    assert_eq!(z.pnl_pct, Money::zero());
}

#[test]
fn min_abs_entry_check() {
    assert_eq!(check_min_abs_entry(m(5, 2), m(10, 2)), Err(EntryRejection::BelowMinimum));
    assert_eq!(check_min_abs_entry(m(-5, 2), m(10, 2)), Err(EntryRejection::BelowMinimum));
    assert_eq!(check_min_abs_entry(m(-10, 2), m(10, 2)), Ok(()));
    assert_eq!(check_min_abs_entry(m(25, 2), m(10, 2)), Ok(()));
}
