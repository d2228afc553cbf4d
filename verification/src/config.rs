//! The configuration surface the core consumes. The process around the engine
//! loads and parses it; the core only checks that the values are usable
//! together and otherwise assumes a validated configuration.

use vstd::prelude::*;
use crate::errors::CoreError;
use crate::math::RATIO_SCALE;

verus! {

/// Every option the core recognizes. Prices and sizes are fixed-point values
/// in the caller's price scale; `_ppm` fields are ratios in parts per million;
/// `_ms` fields are durations in milliseconds.
#[derive(Clone, Copy, Debug)]
pub struct EngineConfig {
    /// An opportunity is emitted only when its estimated net profit is
    /// strictly greater than this absolute threshold.
    pub min_profit_threshold: u64,
    /// Upper bound on the tradable size of an opportunity.
    pub max_trade_size: u64,
    /// Lower bound on the size of any placed trade.
    pub min_trade_size: u64,
    /// Largest tolerated price impact of a swap.
    pub price_impact_threshold_ppm: u64,
    /// Largest tolerated slippage of a swap.
    pub slippage_tolerance_ppm: u64,
    /// An LP position is rebalanced when its price deviation reaches this.
    pub rebalance_threshold_ppm: u64,
    /// Quotes older than this are excluded from aggregation.
    pub staleness_window_ms: u64,
    /// Order books older than this are excluded from arbitrage detection.
    pub book_staleness_bound_ms: u64,
    /// Consecutive failures after which a venue's circuit opens.
    pub circuit_failure_limit: u64,
    /// How long an open circuit waits before it allows a probe.
    pub circuit_cooldown_ms: u64,
    /// Overall deadline of a two-leg execution.
    pub execution_deadline_ms: u64,
    /// An opportunity older than this is stale and is not executed.
    pub max_opportunity_age_ms: u64,
    /// How often a transient venue failure is retried before giving up.
    pub max_retry_attempts: u64,
    /// First retry backoff; it doubles with every further attempt.
    pub retry_backoff_base_ms: u64,
    /// Cadence of periodic fee harvesting.
    pub harvest_interval_ms: u64,
}

impl EngineConfig {
    /// A configuration the core can run on: ratios are at most 100%, the size
    /// band is ordered, and the breaker and executor limits are meaningful.
    pub open spec fn valid(self) -> bool {
        &&& self.min_trade_size <= self.max_trade_size
        &&& self.price_impact_threshold_ppm <= RATIO_SCALE
        &&& self.slippage_tolerance_ppm <= RATIO_SCALE
        &&& self.rebalance_threshold_ppm <= RATIO_SCALE
        &&& self.circuit_failure_limit >= 1
        &&& self.execution_deadline_ms >= 1
        &&& self.retry_backoff_base_ms >= 1
    }

    /// Checks the configuration; fails with `ConfigurationError` exactly when
    /// some value is outside what `valid` allows.
    pub fn validate(&self) -> (r: Result<(), CoreError>)
        ensures
            r is Ok <==> self.valid(),
            r is Err ==> r->Err_0 == CoreError::ConfigurationError,
    {
        if self.min_trade_size <= self.max_trade_size
            && self.price_impact_threshold_ppm <= RATIO_SCALE
            && self.slippage_tolerance_ppm <= RATIO_SCALE
            && self.rebalance_threshold_ppm <= RATIO_SCALE
            && self.circuit_failure_limit >= 1
            && self.execution_deadline_ms >= 1
            && self.retry_backoff_base_ms >= 1
        {
            Ok(())
        } else {
            Err(CoreError::ConfigurationError)
        }
    }
}

} // verus!
