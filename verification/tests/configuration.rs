use cs_backtest::clock::SnapshotTimes;
use cs_backtest::analytics::default_true;
use cs_backtest::config::{
    default_delta_scan_steps, default_min_straddle_dte, default_post_earnings_holding_days,
    default_campaign_period, default_straddle_entry_days, default_straddle_exit_days, passes_market_cap_filter,
    BacktestTimingConfig, SpreadType,
    TimingConfig, TimingSpecError, TradingPeriodSpec,
};
use cs_backtest::sources::{DataSourceConfig, EarningsProvider, EarningsSourceConfig, ExecutionConfig};
use chrono::NaiveTime;
use std::path::PathBuf;

fn timing(entry_hour: u32, entry_minute: u32, exit_hour: u32, exit_minute: u32) -> BacktestTimingConfig {
    BacktestTimingConfig {
        timing: TimingConfig { entry_hour, entry_minute, exit_hour, exit_minute },
        timing_strategy: None,
        entry_days_before: None,
        exit_days_before: None,
        entry_offset: None,
        holding_days: None,
        exit_days_after: None,
        spread: SpreadType::Calendar,
        straddle_entry_days: 5,
        straddle_exit_days: 1,
        post_earnings_holding_days: 5,
    }
}

fn t(h: u32, m: u32) -> NaiveTime {
    NaiveTime::from_hms_opt(h, m, 0).unwrap()
}

#[test]
fn defaults() {
    assert_eq!(default_straddle_entry_days(), 5);
    assert_eq!(default_straddle_exit_days(), 1);
    assert_eq!(default_delta_scan_steps(), 5);
    assert_eq!(default_min_straddle_dte(), 7);
    assert_eq!(default_post_earnings_holding_days(), 5);
    assert!(default_true());
    assert!(ExecutionConfig::default().parallel);
}

#[test]
fn timing_spec_rejects_bad_entry_time_first() {
    let cfg = timing(24, 0, 25, 0);
    match cfg.timing_spec() {
        Err(TimingSpecError::InvalidTime { field, hour, minute }) => {
            assert_eq!(field, "entry_time");
            assert_eq!((hour, minute), (24, 0));
        }
        other => panic!("unexpected {:?}", other),
    }
}

#[test]
fn timing_spec_rejects_bad_exit_time() {
    let cfg = timing(9, 35, 15, 60);
    match cfg.timing_spec() {
        Err(TimingSpecError::InvalidTime { field, hour, minute }) => {
            assert_eq!(field, "exit_time");
            assert_eq!((hour, minute), (15, 60));
        }
        other => panic!("unexpected {:?}", other),
    }
}

#[test]
fn timing_spec_named_strategies() {
    let mut cfg = timing(9, 35, 15, 55);
    cfg.timing_strategy = Some("PreEarnings".to_string());
    match cfg.timing_spec() {
        Ok(TradingPeriodSpec::PreEarnings { entry_days_before, exit_days_before, entry_time, exit_time }) => {
            assert_eq!((entry_days_before, exit_days_before), (5, 1));
            assert_eq!(entry_time, t(9, 35));
            assert_eq!(exit_time, t(15, 55));
        }
        other => panic!("unexpected {:?}", other),
    }
    cfg.timing_strategy = Some("PostEarnings".to_string());
    cfg.entry_offset = Some(-1);
    match cfg.timing_spec() {
        Ok(TradingPeriodSpec::PostEarnings { entry_offset, holding_days, .. }) => {
            assert_eq!((entry_offset, holding_days), (-1, 5));
        }
        other => panic!("unexpected {:?}", other),
    }
    cfg.timing_strategy = Some("CrossEarnings".to_string());
    cfg.exit_days_after = Some(3);
    match cfg.timing_spec() {
        Ok(TradingPeriodSpec::CrossEarnings { entry_days_before, exit_days_after, .. }) => {
            assert_eq!((entry_days_before, exit_days_after), (1, 3));
        }
        other => panic!("unexpected {:?}", other),
    }
    cfg.timing_strategy = Some("preearnings".to_string());
    match cfg.timing_spec() {
        Err(TimingSpecError::UnknownStrategy(name)) => assert_eq!(name, "preearnings"),
        other => panic!("unexpected {:?}", other),
    }
}

#[test]
fn timing_spec_from_spread_type() {
    let mut cfg = timing(10, 0, 15, 30);
    cfg.spread = SpreadType::ShortStraddle;
    cfg.straddle_entry_days = 65_536 + 7;
    match cfg.timing_spec() {
        Ok(TradingPeriodSpec::PreEarnings { entry_days_before, exit_days_before, .. }) => {
            assert_eq!((entry_days_before, exit_days_before), (7, 1));
        }
        other => panic!("unexpected {:?}", other),
    }
    cfg.spread = SpreadType::PostEarningsStraddle;
    cfg.post_earnings_holding_days = 4;
    match cfg.timing_spec() {
        Ok(TradingPeriodSpec::PostEarnings { entry_offset, holding_days, .. }) => {
            assert_eq!((entry_offset, holding_days), (0, 4));
        }
        other => panic!("unexpected {:?}", other),
    }
    cfg.spread = SpreadType::IronButterfly;
    match cfg.timing_spec() {
        Ok(TradingPeriodSpec::CrossEarnings { entry_days_before, exit_days_after, entry_time, .. }) => {
            assert_eq!((entry_days_before, exit_days_after), (1, 1));
            assert_eq!(entry_time, t(10, 0));
        }
        other => panic!("unexpected {:?}", other),
    }
}

#[test]
fn earnings_source_accessors() {
    let file = EarningsSourceConfig::file(PathBuf::from("earnings.parquet"));
    assert!(file.is_file());
    assert_eq!(file.file_path(), Some(&PathBuf::from("earnings.parquet")));
    assert_eq!(file.dir(), None);
    assert_eq!(file.provider_source(), None);

    let provider = EarningsSourceConfig::provider(EarningsProvider::Yahoo, PathBuf::from("/data/earnings"));
    assert!(!provider.is_file());
    assert_eq!(provider.dir(), Some(&PathBuf::from("/data/earnings")));
    assert_eq!(provider.file_path(), None);
    assert_eq!(provider.provider_source(), Some(EarningsProvider::Yahoo));
}

#[test]
fn data_source_dir() {
    let finq = DataSourceConfig::Finq { data_dir: PathBuf::from("/finq") };
    let ib = DataSourceConfig::Ib { data_dir: PathBuf::from("/ib") };
    assert_eq!(finq.data_dir(), &PathBuf::from("/finq"));
    assert_eq!(ib.data_dir(), &PathBuf::from("/ib"));
}

#[test]
fn market_cap_filter_cases() {
    assert!(passes_market_cap_filter(None, None));
    assert!(passes_market_cap_filter(None, Some(5)));
    assert!(!passes_market_cap_filter(Some(1_000), None));
    assert!(!passes_market_cap_filter(Some(1_000), Some(999)));
    assert!(passes_market_cap_filter(Some(1_000), Some(1_000)));
    assert!(passes_market_cap_filter(Some(1_000), Some(2_000_000)));
}

#[test]
fn snapshot_times_of_day() {
    assert_eq!(SnapshotTimes::OpenClose.clock_times(), (9, 30, 16, 0));
    assert_eq!(SnapshotTimes::CloseOnly.clock_times(), (16, 0, 16, 0));
    let custom = SnapshotTimes::Custom { open_hour: 10, open_minute: 15, close_hour: 15, close_minute: 45 };
    assert_eq!(custom.clock_times(), (10, 15, 15, 45));
    assert_eq!(
        SnapshotTimes::OpenClose.times_of_day(),
        (NaiveTime::from_hms_opt(9, 30, 0).unwrap(), NaiveTime::from_hms_opt(16, 0, 0).unwrap())
    );
    assert_eq!(
        custom.times_of_day(),
        (NaiveTime::from_hms_opt(10, 15, 0).unwrap(), NaiveTime::from_hms_opt(15, 45, 0).unwrap())
    );
}

#[test]
fn campaign_default_period() {
    match default_campaign_period() {
        TradingPeriodSpec::PreEarnings { entry_days_before, exit_days_before, entry_time, exit_time } => {
            assert_eq!(entry_days_before, 14);
            assert_eq!(exit_days_before, 1);
            assert_eq!(entry_time, NaiveTime::from_hms_opt(9, 35, 0).unwrap());
            assert_eq!(exit_time, NaiveTime::from_hms_opt(15, 55, 0).unwrap());
        }
        other => panic!("unexpected {:?}", other),
    }
}
