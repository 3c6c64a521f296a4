# cs_backtest

Options analytics and earnings-backtest logic whose contracts are proved with Verus.

- `src/` is the verified library: configuration parsing (pricing, interpolation and
  selection models, spread and selection types, earnings providers), the trading
  period of a backtest, expiration choice, exact decimal P&L of option strategies and
  their entry checks, backtest and hedging statistics, P&L attribution totals, the
  buying-power timeline of a portfolio, and the sampling of lookback windows.
  Decimal arithmetic is rust_decimal's and times of day are chrono's, both reached
  through small trusted wrappers whose contracts are stated next to them.
- `app/` is ordinary Rust around it: serde and `Display` forms of the library's types,
  default data directories read from the environment, and the floating-point analytics
  (Black-Scholes, Greeks, SVI fitting, volatility smiles and surfaces, straddle
  pricing, backtest and hedging ratios).
- `tests/` exercises the library on concrete values.
