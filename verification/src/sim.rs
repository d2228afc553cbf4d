//! The volume-simulation harness: a configurable stream of randomly sized
//! trades across a set of simulated wallets, with the bookkeeping needed to
//! analyze the run. Pacing (the sleeps between trades) is the caller's
//! business; this module draws the random values and keeps the totals right.

use vstd::prelude::*;
use crate::errors::CoreError;
use crate::math::{seq_sum, average_u64};

verus! {

/// The smallest and largest simulated network latency, in milliseconds.
pub const SIM_LATENCY_MIN_MS: u64 = 50;
pub const SIM_LATENCY_MAX_MS: u64 = 200;

/// Relies on rand::random_range over `Range<u64>`: it panics on an empty
/// range, and otherwise returns a value of the range.
#[verifier::external_body]
fn random_in_range(lo: u64, hi: u64) -> (r: u64)
    requires
        lo < hi,
    ensures
        lo <= r < hi,
{
    rand::random_range(lo..hi)
}

/// What a simulation run is told to do. Sizes are fixed-point volume units;
/// intervals bound the pacing delay between trades.
#[derive(Clone, Copy, Debug)]
pub struct SimulationConfig {
    pub num_wallets: usize,
    pub min_trade_size: u64,
    pub max_trade_size: u64,
    pub min_interval_ms: u64,
    pub max_interval_ms: u64,
    pub duration_ms: u64,
}

impl SimulationConfig {
    /// A runnable configuration: at least one wallet, and non-empty size and
    /// interval ranges.
    pub open spec fn valid(self) -> bool {
        &&& self.num_wallets >= 1
        &&& self.min_trade_size < self.max_trade_size
        &&& self.min_interval_ms < self.max_interval_ms
    }
}

/// What a simulation run produced. `wallet_volumes[w]` is the volume traded
/// by wallet `w`; `execution_times` holds one latency per trade.
pub struct SimulationResult {
    pub total_volume: u64,
    pub num_trades: usize,
    pub average_trade_size: u64,
    pub wallet_volumes: Vec<u64>,
    pub execution_times: Vec<u64>,
}

impl SimulationResult {
    pub open spec fn well_formed(self, cfg: SimulationConfig) -> bool {
        &&& self.wallet_volumes@.len() == cfg.num_wallets
        &&& self.execution_times@.len() == self.num_trades
        &&& self.total_volume as int <= self.num_trades * cfg.max_trade_size
        &&& forall|i: int| 0 <= i < self.execution_times@.len()
                ==> SIM_LATENCY_MIN_MS <= #[trigger] self.execution_times@[i]
                    < SIM_LATENCY_MAX_MS
    }
}

/// The simulated trading harness.
pub struct VolumeSimulator {
    pub config: SimulationConfig,
}

impl VolumeSimulator {
    /// Accepts a runnable configuration; fails with `ConfigurationError`
    /// exactly when the wallet count or one of the ranges is unusable.
    pub fn new(config: SimulationConfig) -> (r: Result<VolumeSimulator, CoreError>)
        ensures
            r is Ok <==> config.valid(),
            r matches Ok(s) ==> s.config == config,
            r matches Err(e) ==> e == CoreError::ConfigurationError,
    {
        if config.num_wallets >= 1 && config.min_trade_size < config.max_trade_size
            && config.min_interval_ms < config.max_interval_ms {
            Ok(VolumeSimulator { config })
        } else {
            Err(CoreError::ConfigurationError)
        }
    }

    /// Picks the wallet for the next trade, uniformly at random.
    pub fn select_random_wallet(&self) -> (r: usize)
        requires
            self.config.valid(),
        ensures
            r < self.config.num_wallets,
    {
        let w = random_in_range(0, self.config.num_wallets as u64);
        w as usize
    }

    /// Draws the next trade's size from the configured range.
    pub fn generate_trade_size(&self) -> (r: u64)
        requires
            self.config.valid(),
        ensures
            self.config.min_trade_size <= r < self.config.max_trade_size,
    {
        random_in_range(self.config.min_trade_size, self.config.max_trade_size)
    }

    /// Draws the pacing delay before the next trade from the configured
    /// range; the caller sleeps for it.
    pub fn generate_delay(&self) -> (r: u64)
        requires
            self.config.valid(),
        ensures
            self.config.min_interval_ms <= r < self.config.max_interval_ms,
    {
        random_in_range(self.config.min_interval_ms, self.config.max_interval_ms)
    }

    /// Simulates one trade's execution latency.
    pub fn simulate_trade_execution(&self) -> (r: u64)
        ensures
            SIM_LATENCY_MIN_MS <= r < SIM_LATENCY_MAX_MS,
    {
        random_in_range(SIM_LATENCY_MIN_MS, SIM_LATENCY_MAX_MS)
    }

    /// Runs `num_trades` simulated trades and returns the bookkeeping: every
    /// trade's size is drawn from the configured range and booked against a
    /// random wallet (volumes saturate at the largest machine value), one
    /// latency is recorded per trade, and the average trade size is the final
    /// quotient.
    pub fn run_simulation(&self, num_trades: usize) -> (r: SimulationResult)
        requires
            self.config.valid(),
        ensures
            r.well_formed(self.config),
            r.num_trades == num_trades,
            r.average_trade_size == (if num_trades > 0 {
                r.total_volume as int / num_trades as int
            } else {
                0int
            }),
    {
        let mut wallet_volumes: Vec<u64> = Vec::new();
        let mut k: usize = 0;
        while k < self.config.num_wallets
            invariant
                k <= self.config.num_wallets,
                wallet_volumes@.len() == k,
            decreases self.config.num_wallets - k,
        {
            wallet_volumes.push(0);
            k = k + 1;
        }
        let mut total_volume: u64 = 0;
        let mut execution_times: Vec<u64> = Vec::new();
        let mut t: usize = 0;
        while t < num_trades
            invariant
                self.config.valid(),
                t <= num_trades,
                wallet_volumes@.len() == self.config.num_wallets,
                execution_times@.len() == t,
                total_volume as int <= t * self.config.max_trade_size,
                forall|i: int| 0 <= i < execution_times@.len()
                    ==> SIM_LATENCY_MIN_MS <= #[trigger] execution_times@[i]
                        < SIM_LATENCY_MAX_MS,
            decreases num_trades - t,
        {
            let wallet = self.select_random_wallet();
            let size = self.generate_trade_size();
            let latency = self.simulate_trade_execution();
            proof {
                assert(t * self.config.max_trade_size + self.config.max_trade_size
                    == (t + 1) * self.config.max_trade_size) by (nonlinear_arith);
            }
            total_volume = if total_volume <= u64::MAX - size {
                total_volume + size
            } else {
                u64::MAX
            };
            let old_wallet_volume = wallet_volumes[wallet];
            let new_wallet_volume = if old_wallet_volume <= u64::MAX - size {
                old_wallet_volume + size
            } else {
                u64::MAX
            };
            wallet_volumes.set(wallet, new_wallet_volume);
            execution_times.push(latency);
            t = t + 1;
        }
        let average_trade_size = if num_trades > 0 {
            total_volume / (num_trades as u64)
        } else {
            0
        };
        SimulationResult {
            total_volume,
            num_trades,
            average_trade_size,
            wallet_volumes,
            execution_times,
        }
    }
}

/// Summary statistics of a simulation run.
#[derive(Clone, Copy, Debug, PartialEq, Eq, Structural)]
pub struct SimulationAnalysis {
    pub total_volume: u64,
    pub num_trades: u64,
    pub average_trade_size: u64,
    pub average_execution_time_ms: u64,
    pub average_wallet_volume: u64,
}

/// Computes a run's summary statistics: the totals carried over, and the mean
/// execution time and mean per-wallet volume, rounded down.
pub fn analyze_simulation_results(result: &SimulationResult) -> (r: SimulationAnalysis)
    requires
        result.execution_times@.len() > 0,
        result.wallet_volumes@.len() > 0,
    ensures
        r.total_volume == result.total_volume,
        r.num_trades == result.num_trades,
        r.average_trade_size == result.average_trade_size,
        r.average_execution_time_ms == seq_sum(result.execution_times@)
            / result.execution_times@.len() as int,
        r.average_wallet_volume == seq_sum(result.wallet_volumes@)
            / result.wallet_volumes@.len() as int,
{
    SimulationAnalysis {
        total_volume: result.total_volume,
        num_trades: result.num_trades as u64,
        average_trade_size: result.average_trade_size,
        average_execution_time_ms: average_u64(&result.execution_times),
        average_wallet_volume: average_u64(&result.wallet_volumes),
    }
}

} // verus!
