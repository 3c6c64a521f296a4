//! Options analytics and backtest configuration logic with machine-checked contracts.

pub mod text;
pub mod pricing_model;
pub mod selection_model;
pub mod interpolation;
pub mod clock;
pub mod config;
pub mod sources;
pub mod dates;
pub mod money;
pub mod trade_pnl;
pub mod backtest_stats;
pub mod bpr;
pub mod analytics;
pub mod attribution;
pub mod hedging;
pub mod lookback;
pub mod simple_config;
