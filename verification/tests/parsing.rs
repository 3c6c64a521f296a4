use cs_backtest::config::{SelectionType, SpreadType};
use cs_backtest::interpolation::InterpolationMode;
use cs_backtest::pricing_model::PricingModel;
use cs_backtest::selection_model::SelectionModel;
use cs_backtest::simple_config;
use cs_backtest::sources::EarningsProvider;

#[test]
fn test_pricing_model_from_string() {
    assert_eq!(PricingModel::from_string("sticky_strike"), PricingModel::StickyStrike);
    assert_eq!(PricingModel::from_string("sticky-strike"), PricingModel::StickyStrike);
    assert_eq!(PricingModel::from_string("sticky_moneyness"), PricingModel::StickyMoneyness);
    assert_eq!(PricingModel::from_string("moneyness"), PricingModel::StickyMoneyness);
    assert_eq!(PricingModel::from_string("sticky_delta"), PricingModel::StickyDelta);
    assert_eq!(PricingModel::from_string("delta"), PricingModel::StickyDelta);
    assert_eq!(PricingModel::from_string("unknown"), PricingModel::StickyStrike);
}

#[test]
fn test_selection_model_parse() {
    assert_eq!(SelectionModel::from_str("strike-space"), Some(SelectionModel::StrikeSpace));
    assert_eq!(SelectionModel::from_str("strike"), Some(SelectionModel::StrikeSpace));
    assert_eq!(SelectionModel::from_str("delta-space"), Some(SelectionModel::DeltaSpace));
    assert_eq!(SelectionModel::from_str("delta"), Some(SelectionModel::DeltaSpace));
    assert_eq!(SelectionModel::from_str("invalid"), None);
}

#[test]
fn test_selection_model_default() {
    assert_eq!(SelectionModel::default(), SelectionModel::StrikeSpace);
}

#[test]
fn pricing_model_ignores_case_and_dashes() {
    assert_eq!(PricingModel::from_string("Sticky-Moneyness"), PricingModel::StickyMoneyness);
    assert_eq!(PricingModel::from_string("STICKY_DELTA"), PricingModel::StickyDelta);
    assert_eq!(PricingModel::from_string(""), PricingModel::StickyStrike);
}

#[test]
fn pricing_model_names_read_back() {
    for m in [PricingModel::StickyStrike, PricingModel::StickyMoneyness, PricingModel::StickyDelta] {
        assert_eq!(PricingModel::from_string(m.name()), m);
    }
    assert_eq!(PricingModel::StickyMoneyness.name(), "sticky_moneyness");
    assert_eq!(PricingModel::default(), PricingModel::StickyStrike);
}

#[test]
fn pricing_model_from_normalized_is_exact() {
    assert_eq!(PricingModel::from_normalized("sticky-delta"), PricingModel::StickyStrike);
    assert_eq!(PricingModel::from_normalized("sticky_delta"), PricingModel::StickyDelta);
}

#[test]
fn selection_model_ignores_case_only() {
    assert_eq!(SelectionModel::from_str("STRIKE-SPACE"), Some(SelectionModel::StrikeSpace));
    assert_eq!(SelectionModel::from_str("strike_space"), None);
    assert_eq!(SelectionModel::from_lowercase_key("Delta"), None);
}

#[test]
fn interpolation_mode_parsing() {
    assert_eq!(InterpolationMode::from_string("svi"), InterpolationMode::SVI);
    assert_eq!(InterpolationMode::from_string("SVI"), InterpolationMode::SVI);
    assert_eq!(InterpolationMode::from_string("linear"), InterpolationMode::Linear);
    assert_eq!(InterpolationMode::from_string("cubic"), InterpolationMode::Linear);
    assert_eq!(InterpolationMode::default(), InterpolationMode::Linear);
    for m in [InterpolationMode::Linear, InterpolationMode::SVI] {
        assert_eq!(InterpolationMode::from_string(m.name()), m);
    }
}

#[test]
fn spread_type_parsing() {
    assert_eq!(SpreadType::from_string("iron-butterfly"), SpreadType::IronButterfly);
    assert_eq!(SpreadType::from_string("Short_Iron_Butterfly"), SpreadType::IronButterfly);
    assert_eq!(SpreadType::from_string("butterfly"), SpreadType::IronButterfly);
    assert_eq!(SpreadType::from_string("reverse-butterfly"), SpreadType::LongIronButterfly);
    assert_eq!(SpreadType::from_string("longironbutterfly"), SpreadType::LongIronButterfly);
    assert_eq!(SpreadType::from_string("long-straddle"), SpreadType::Straddle);
    assert_eq!(SpreadType::from_string("shortstraddle"), SpreadType::ShortStraddle);
    assert_eq!(SpreadType::from_string("calendar-straddle"), SpreadType::CalendarStraddle);
    assert_eq!(SpreadType::from_string("post_straddle"), SpreadType::PostEarningsStraddle);
    assert_eq!(SpreadType::from_string("postearningstraddle"), SpreadType::PostEarningsStraddle);
    assert_eq!(SpreadType::from_string("diagonal"), SpreadType::Calendar);
    assert_eq!(SpreadType::default(), SpreadType::Calendar);
}

#[test]
fn spread_type_config_names_read_back() {
    for t in [
        SpreadType::Calendar,
        SpreadType::IronButterfly,
        SpreadType::LongIronButterfly,
        SpreadType::Straddle,
        SpreadType::ShortStraddle,
        SpreadType::CalendarStraddle,
        SpreadType::PostEarningsStraddle,
    ] {
        assert_eq!(SpreadType::from_string(t.config_name()), t);
    }
    assert_eq!(SpreadType::PostEarningsStraddle.config_name(), "post-earnings-straddle");
}

#[test]
fn selection_type_parsing() {
    assert_eq!(SelectionType::from_string("delta"), SelectionType::Delta);
    assert_eq!(SelectionType::from_string("Delta-Scan"), SelectionType::DeltaScan);
    assert_eq!(SelectionType::from_string("deltascan"), SelectionType::DeltaScan);
    assert_eq!(SelectionType::from_string("atm"), SelectionType::ATM);
    assert_eq!(SelectionType::from_string("whatever"), SelectionType::ATM);
    assert_eq!(SelectionType::default(), SelectionType::ATM);
    for t in [SelectionType::ATM, SelectionType::Delta, SelectionType::DeltaScan] {
        assert_eq!(SelectionType::from_string(t.config_name()), t);
    }
}

#[test]
fn simple_config_parsing() {
    assert_eq!(simple_config::SpreadType::from_string("Iron-Butterfly"), simple_config::SpreadType::IronButterfly);
    assert_eq!(simple_config::SpreadType::from_string("long_straddle"), simple_config::SpreadType::Straddle);
    assert_eq!(simple_config::SpreadType::from_string("short_straddle"), simple_config::SpreadType::Calendar);
    assert_eq!(simple_config::SelectionType::from_string("delta_scan"), simple_config::SelectionType::DeltaScan);
    assert_eq!(simple_config::SpreadType::default(), simple_config::SpreadType::Calendar);
    assert_eq!(simple_config::default_straddle_entry_days(), 5);
    assert_eq!(simple_config::default_straddle_exit_days(), 1);
    assert_eq!(simple_config::default_delta_scan_steps(), 5);
    assert_eq!(simple_config::default_min_straddle_dte(), 7);
    for t in [simple_config::SpreadType::Calendar, simple_config::SpreadType::IronButterfly, simple_config::SpreadType::Straddle] {
        assert_eq!(simple_config::SpreadType::from_string(t.config_name()), t);
    }
}

#[test]
fn earnings_provider_parsing() {
    assert_eq!(EarningsProvider::from_str("NASDAQ"), Ok(EarningsProvider::Nasdaq));
    assert_eq!(EarningsProvider::from_str("tv"), Ok(EarningsProvider::TradingView));
    assert_eq!(EarningsProvider::from_str("TradingView"), Ok(EarningsProvider::TradingView));
    assert_eq!(EarningsProvider::from_str("yf"), Ok(EarningsProvider::Yahoo));
    assert_eq!(
        EarningsProvider::from_str("Bloomberg"),
        Err("Invalid earnings provider 'Bloomberg'. Valid values: nasdaq, tradingview, yahoo".to_string())
    );
    assert_eq!(EarningsProvider::default(), EarningsProvider::TradingView);
    for p in [EarningsProvider::Nasdaq, EarningsProvider::TradingView, EarningsProvider::Yahoo] {
        assert_eq!(EarningsProvider::from_str(p.display_name()), Ok(p));
    }
}
