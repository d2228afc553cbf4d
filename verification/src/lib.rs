//! A cross-venue trading engine: price aggregation across exchanges and
//! oracles, arbitrage detection and two-leg execution with partial-failure
//! containment, and liquidity-provider position management on a DEX.
//!
//! All market quantities are fixed-point integers: prices, sizes and volumes
//! are `u64` values in a caller-chosen scale, and dimensionless ratios (fees,
//! thresholds, volatility, deviations) are `u64` values in parts per million.

pub mod aggregator;
pub mod auth;
pub mod config;
pub mod decimal;
pub mod detector;
pub mod errors;
pub mod events;
pub mod executor;
pub mod lp;
pub mod math;
pub mod metrics;
pub mod oracle;
pub mod sim;
