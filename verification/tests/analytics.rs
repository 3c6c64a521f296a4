use cs_backtest::lookback::sample_lookback_days;
use cs_backtest::analytics::{
    count_text, AtmMethod, BSError, CompositePricer, SVIError, StickyMoneynessPricing, StickyStrikePricing,
    StraddlePriceComputer,
};
use cs_backtest::dates::{
    closest_expiration_to_target, day_from_ymd, is_calendar_structure, nearest_straddle_expiration, CalendarDay,
};
use cs_backtest::selection_model::{DeltaSpaceSelection, StrikeSpaceSelection};
use chrono::{Datelike, NaiveDate};

fn day(y: i32, m: u32, d: u32) -> CalendarDay {
    day_from_ymd(y, m, d).unwrap()
}

#[test]
fn calendar_days_follow_chrono() {
    let d = day(2025, 7, 20);
    assert_eq!(d.days_from_ce, NaiveDate::from_ymd_opt(2025, 7, 20).unwrap().num_days_from_ce());
    assert_eq!(day(2025, 1, 1).days_until(day(2025, 3, 1)), 59);
    assert_eq!(day(2024, 3, 1).days_until(day(2024, 1, 1)), -60);
    assert!(day_from_ymd(2025, 2, 30).is_none());
    assert!(day_from_ymd(2025, 13, 1).is_none());
}

#[test]
fn closest_expiration_within_tolerance() {
    let pricing = day(2025, 1, 1);
    let exps = vec![day(2024, 12, 31), day(2025, 1, 25), day(2025, 2, 3), day(2025, 3, 5)];
    // DTEs: -1, 24, 33, 63.  Target 30 within 7: 33 is closest.
    assert_eq!(closest_expiration_to_target(&exps, pricing, 30, 7), Some(2));
    assert_eq!(closest_expiration_to_target(&exps, pricing, 60, 2), None);
    assert_eq!(closest_expiration_to_target(&exps, pricing, 0, 5), None);
    // Ties go to the first in list order.
    let tie = vec![day(2025, 1, 26), day(2025, 2, 5)];
    assert_eq!(closest_expiration_to_target(&tie, pricing, 30, 10), Some(0));
}

#[test]
fn straddle_expiration_choice() {
    let pricing = day(2025, 1, 1);
    let exps = vec![day(2025, 1, 10), day(2025, 1, 3), day(2025, 2, 1)];
    // DTEs 9, 2, 31.  Nearest with at least 1 day: the one at 2 days.
    assert_eq!(nearest_straddle_expiration(&exps, pricing, None, 1), Some(1));
    // At least 5 days: the one at 9 days.
    assert_eq!(nearest_straddle_expiration(&exps, pricing, None, 5), Some(0));
    // Target 30: the one at 31 days.
    assert_eq!(nearest_straddle_expiration(&exps, pricing, Some(30), 1), Some(2));
    assert_eq!(nearest_straddle_expiration(&exps, pricing, None, 40), None);
    assert_eq!(StraddlePriceComputer::select_expiration(&exps, pricing, Some(8), 1), Some(0));
    assert_eq!(StraddlePriceComputer::select_expiration_for_dte(&exps, pricing, 30, 3), Some(2));
}

#[test]
fn provider_names_and_defaults() {
    assert_eq!(StickyStrikePricing.name(), "sticky_strike");
    assert_eq!(StickyMoneynessPricing.name(), "sticky_moneyness");
    assert_eq!(AtmMethod::default(), AtmMethod::Closest);
    let _ = (StrikeSpaceSelection, DeltaSpaceSelection);
}

#[test]
fn error_messages() {
    assert_eq!(BSError::InvalidInput("negative spot".to_string()).message(), "Invalid input: negative spot");
    assert_eq!(BSError::ConvergenceFailure.message(), "IV solver failed to converge");
    assert_eq!(SVIError::InsufficientData(3).message(), "Insufficient data points: need at least 5, got 3");
    assert_eq!(SVIError::InvalidParams("b < 0".to_string()).message(), "Invalid parameters: b < 0");
    assert_eq!(count_text(1024), "1024");
}

#[test]
fn composite_pricer_keeps_inner() {
    let p = CompositePricer::new(42u32);
    assert_eq!(*p.inner(), 42);
}

#[test]
fn lookback_sampling() {
    assert_eq!(sample_lookback_days(0), None);
    assert_eq!(sample_lookback_days(5), Some(vec![0, 1, 2, 3, 4]));
    assert_eq!(sample_lookback_days(10), Some((0..10).collect::<Vec<usize>>()));
    assert_eq!(sample_lookback_days(25), Some((0..25).step_by(2).collect::<Vec<usize>>()));
    assert_eq!(sample_lookback_days(30), Some(vec![0, 3, 6, 9, 12, 15, 18, 21, 24, 27]));
}

#[test]
fn calendar_structure_needs_two_expirations() {
    let a = CalendarDay { days_from_ce: 738_000 };
    let b = CalendarDay { days_from_ce: 738_028 };
    assert!(!is_calendar_structure(&[]));
    assert!(!is_calendar_structure(&[a, a, a]));
    assert!(is_calendar_structure(&[a, a, b]));
    assert!(is_calendar_structure(&[b, a]));
}
