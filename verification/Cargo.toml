[package]
name = "cs_backtest"
version = "0.1.0"
edition = "2021"
publish = false

[dependencies]
chrono = { version = "=0.4.45", features = ["serde"] }
rust_decimal = "=1.43.0"
serde = { version = "=1.0.229", features = ["derive"] }
thiserror = "=2.0.21"
dirs = "=7.0.0"
statrs = "=0.19.1"
roots = "=0.0.8"
