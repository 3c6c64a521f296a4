use cs_backtest::bpr::{
    bpr_sample_times, build_portfolio_bpr_timeline, hedge_shares_at, latest_snapshot_at_or_before,
    portfolio_snapshot_at, BprSnapshot, BprTimeline, HedgeAction, TradeBpr,
};
use cs_backtest::money::Money;

fn snap(ts: i64, option_initial: i128) -> BprSnapshot {
    BprSnapshot {
        ts,
        option_initial: Money { mantissa: option_initial, scale: 0 },
        option_maint: Money { mantissa: option_initial / 2, scale: 0 },
        hedge_initial: Money::zero(),
        hedge_maint: Money::zero(),
    }
}

#[test]
fn sample_times_sorted_and_distinct() {
    assert_eq!(bpr_sample_times(50, 10, &vec![30, 10, 70, 30]), vec![10, 30, 50, 70]);
    assert_eq!(bpr_sample_times(5, 5, &vec![]), vec![5]);
}

#[test]
fn hedge_shares() {
    let hedges = vec![
        HedgeAction { timestamp: 10, shares: 100 },
        HedgeAction { timestamp: 20, shares: -30 },
        HedgeAction { timestamp: 30, shares: -70 },
    ];
    assert_eq!(hedge_shares_at(&hedges, 5), 0);
    assert_eq!(hedge_shares_at(&hedges, 20), 70);
    assert_eq!(hedge_shares_at(&hedges, 31), 0);
}

#[test]
fn latest_snapshot() {
    let tl = BprTimeline { snapshots: vec![snap(10, 1), snap(20, 2), snap(30, 3)] };
    assert_eq!(latest_snapshot_at_or_before(&tl, 5), None);
    assert_eq!(latest_snapshot_at_or_before(&tl, 25), Some(snap(20, 2)));
    assert_eq!(latest_snapshot_at_or_before(&tl, 99), Some(snap(30, 3)));
}

#[test]
fn portfolio_timeline() {
    let a = TradeBpr {
        entry_time: 10,
        exit_time: 30,
        timeline: Some(BprTimeline { snapshots: vec![snap(10, 100), snap(30, 300)] }),
    };
    let b = TradeBpr {
        entry_time: 20,
        exit_time: 40,
        timeline: Some(BprTimeline { snapshots: vec![snap(20, 1000), snap(40, 4000)] }),
    };
    let c = TradeBpr { entry_time: 0, exit_time: 100, timeline: None };
    let trades = vec![a, b, c];
    let tl = build_portfolio_bpr_timeline(&trades).unwrap().unwrap();
    let ts: Vec<i64> = tl.snapshots.iter().map(|s| s.ts).collect();
    assert_eq!(ts, vec![10, 20, 30, 40]);
    let totals: Vec<i128> = tl.snapshots.iter().map(|s| s.option_initial.mantissa).collect();
    assert_eq!(totals, vec![100, 1100, 1300, 4000]);
    assert_eq!(portfolio_snapshot_at(&trades, 25).unwrap().option_initial.mantissa, 1100);
}

#[test]
fn portfolio_timeline_empty() {
    let trades = vec![TradeBpr { entry_time: 0, exit_time: 1, timeline: None }];
    assert_eq!(build_portfolio_bpr_timeline(&trades).unwrap().map(|t| t.snapshots.len()), None);
    let empty = vec![TradeBpr { entry_time: 0, exit_time: 1, timeline: Some(BprTimeline { snapshots: vec![] }) }];
    assert!(build_portfolio_bpr_timeline(&empty).unwrap().is_none());
}
