//! The engine's own metrics bookkeeping: trade, LP and process counters,
//! updated by the components and read by whatever exports them. Exporting the
//! numbers to a metrics store is the caller's business; this module only
//! keeps them right.

use vstd::prelude::*;
use crate::math::{seq_sum, average_u64, lemma_u64_mul_fits, RATIO_SCALE};

verus! {

/// Counters for executed trades. Latencies are in milliseconds.
pub struct TradeMetrics {
    pub total_volume: u64,
    pub num_trades: u64,
    pub successful_trades: u64,
    pub failed_trades: u64,
    pub average_trade_size: u64,
    pub trade_latencies: Vec<u64>,
}

/// Counters for LP positions: each entry of `position_values` maps a position
/// id to its most recently recorded value.
pub struct LpMetrics {
    pub total_lp_value: u64,
    pub num_positions: u64,
    pub total_fees_earned: u64,
    pub position_values: Vec<(u64, u64)>,
    pub rebalance_count: u64,
}

/// Process-level counters. `cpu_usage_ppm` is a load ratio in parts per
/// million; times are in milliseconds.
pub struct PerformanceMetrics {
    pub start_time: Option<u64>,
    pub uptime_ms: u64,
    pub memory_usage: u64,
    pub cpu_usage_ppm: u64,
    pub error_count: u64,
}

/// All the engine's metrics, with the bookkeeping invariants that make the
/// derived numbers meaningful.
pub struct MetricsState {
    pub trade: TradeMetrics,
    pub lp: LpMetrics,
    pub perf: PerformanceMetrics,
}

impl MetricsState {
    /// Success and failure counts partition the trades, one latency is kept
    /// per trade, the average is the stored quotient, and the LP table maps
    /// each position id at most once.
    pub open spec fn well_formed(self) -> bool {
        &&& self.trade.successful_trades + self.trade.failed_trades == self.trade.num_trades
        &&& self.trade.trade_latencies@.len() == self.trade.num_trades
        &&& self.trade.average_trade_size == (if self.trade.num_trades > 0 {
            self.trade.total_volume as int / self.trade.num_trades as int
        } else {
            0int
        })
        &&& forall|i: int, j: int| 0 <= i < j < self.lp.position_values@.len()
                ==> (#[trigger] self.lp.position_values@[i]).0
                    != (#[trigger] self.lp.position_values@[j]).0
        &&& self.lp.num_positions == self.lp.position_values@.len()
    }

    pub fn new() -> (r: MetricsState)
        ensures
            r.well_formed(),
            r.trade.num_trades == 0,
            r.lp.position_values@.len() == 0,
            r.perf.error_count == 0,
            r.perf.start_time is None,
    {
        MetricsState {
            trade: TradeMetrics {
                total_volume: 0,
                num_trades: 0,
                successful_trades: 0,
                failed_trades: 0,
                average_trade_size: 0,
                trade_latencies: Vec::new(),
            },
            lp: LpMetrics {
                total_lp_value: 0,
                num_positions: 0,
                total_fees_earned: 0,
                position_values: Vec::new(),
                rebalance_count: 0,
            },
            perf: PerformanceMetrics {
                start_time: None,
                uptime_ms: 0,
                memory_usage: 0,
                cpu_usage_ppm: 0,
                error_count: 0,
            },
        }
    }

    /// Books one executed trade: its volume (saturating), its success or
    /// failure, its latency, and the refreshed average trade size.
    pub fn record_trade(&mut self, volume: u64, success: bool, latency_ms: u64)
        requires
            old(self).well_formed(),
            old(self).trade.num_trades < u64::MAX,
        ensures
            final(self).well_formed(),
            final(self).trade.total_volume == vstd::math::min(
                old(self).trade.total_volume + volume,
                u64::MAX as int,
            ),
            final(self).trade.num_trades == old(self).trade.num_trades + 1,
            final(self).trade.successful_trades == old(self).trade.successful_trades
                + (if success { 1int } else { 0int }),
            final(self).trade.failed_trades == old(self).trade.failed_trades
                + (if success { 0int } else { 1int }),
            final(self).trade.trade_latencies@ == old(self).trade.trade_latencies@.push(
                latency_ms),
            final(self).trade.average_trade_size == final(self).trade.total_volume as int
                / final(self).trade.num_trades as int,
            final(self).lp == old(self).lp,
            final(self).perf == old(self).perf,
    {
        let t = &mut self.trade;
        t.total_volume = if t.total_volume <= u64::MAX - volume {
            t.total_volume + volume
        } else {
            u64::MAX
        };
        t.num_trades = t.num_trades + 1;
        if success {
            t.successful_trades = t.successful_trades + 1;
        } else {
            t.failed_trades = t.failed_trades + 1;
        }
        t.trade_latencies.push(latency_ms);
        t.average_trade_size = t.total_volume / t.num_trades;
    }

    /// Books an LP position's recorded value and harvested fees: the totals
    /// grow (saturating) and the position's entry in the value table is
    /// updated, or created when the id is new.
    pub fn record_lp_position(&mut self, position_id: u64, value: u64, fees_earned: u64)
        requires
            old(self).well_formed(),
        ensures
            final(self).well_formed(),
            final(self).lp.total_lp_value == vstd::math::min(
                old(self).lp.total_lp_value + value,
                u64::MAX as int,
            ),
            final(self).lp.total_fees_earned == vstd::math::min(
                old(self).lp.total_fees_earned + fees_earned,
                u64::MAX as int,
            ),
            final(self).lp.rebalance_count == old(self).lp.rebalance_count,
            (exists|i: int| 0 <= i < old(self).lp.position_values@.len()
                && (#[trigger] old(self).lp.position_values@[i]).0 == position_id)
                ==> (exists|i: int| {
                    &&& 0 <= i < old(self).lp.position_values@.len()
                    &&& (#[trigger] old(self).lp.position_values@[i]).0 == position_id
                    &&& final(self).lp.position_values@
                        == old(self).lp.position_values@.update(i, (position_id, value))
                }),
            (forall|i: int| 0 <= i < old(self).lp.position_values@.len()
                ==> (#[trigger] old(self).lp.position_values@[i]).0 != position_id)
                ==> final(self).lp.position_values@
                    == old(self).lp.position_values@.push((position_id, value)),
            final(self).trade == old(self).trade,
            final(self).perf == old(self).perf,
    {
        let lp = &mut self.lp;
        lp.total_lp_value = if lp.total_lp_value <= u64::MAX - value {
            lp.total_lp_value + value
        } else {
            u64::MAX
        };
        lp.total_fees_earned = if lp.total_fees_earned <= u64::MAX - fees_earned {
            lp.total_fees_earned + fees_earned
        } else {
            u64::MAX
        };
        match position_index(&lp.position_values, position_id) {
            Option::Some(i) => {
                lp.position_values.set(i, (position_id, value));
            },
            Option::None => {
                lp.position_values.push((position_id, value));
                lp.num_positions = lp.position_values.len() as u64;
            },
        }
    }

    /// Counts one completed rebalance (saturating).
    pub fn record_rebalance(&mut self)
        requires
            old(self).well_formed(),
        ensures
            final(self).well_formed(),
            final(self).lp.rebalance_count == vstd::math::min(
                old(self).lp.rebalance_count + 1,
                u64::MAX as int,
            ),
            final(self).trade == old(self).trade,
            final(self).perf == old(self).perf,
            final(self).lp == (LpMetrics {
                rebalance_count: final(self).lp.rebalance_count,
                ..old(self).lp
            }),
    {
        if self.lp.rebalance_count < u64::MAX {
            self.lp.rebalance_count = self.lp.rebalance_count + 1;
        }
    }

    /// Refreshes the process gauges at `now`: the first call pins the start
    /// time, and the uptime is measured from it (zero if the clock ran
    /// backwards).
    pub fn update_performance_metrics(&mut self, memory_usage: u64, cpu_usage_ppm: u64, now: u64)
        requires
            old(self).well_formed(),
        ensures
            final(self).well_formed(),
            final(self).perf.start_time == (if old(self).perf.start_time is Some {
                old(self).perf.start_time
            } else {
                Some(now)
            }),
            final(self).perf.memory_usage == memory_usage,
            final(self).perf.cpu_usage_ppm == cpu_usage_ppm,
            final(self).perf.uptime_ms == (if now >= final(self).perf.start_time->0 {
                now - final(self).perf.start_time->0
            } else {
                0int
            }),
            final(self).perf.error_count == old(self).perf.error_count,
            final(self).trade == old(self).trade,
            final(self).lp == old(self).lp,
    {
        let start = match self.perf.start_time {
            Option::Some(s) => s,
            Option::None => {
                self.perf.start_time = Some(now);
                now
            },
        };
        self.perf.memory_usage = memory_usage;
        self.perf.cpu_usage_ppm = cpu_usage_ppm;
        self.perf.uptime_ms = if now >= start {
            now - start
        } else {
            0
        };
    }

    /// Counts one error (saturating).
    pub fn record_error(&mut self)
        requires
            old(self).well_formed(),
        ensures
            final(self).well_formed(),
            final(self).perf.error_count == vstd::math::min(
                old(self).perf.error_count + 1,
                u64::MAX as int,
            ),
            final(self).trade == old(self).trade,
            final(self).lp == old(self).lp,
            final(self).perf == (PerformanceMetrics {
                error_count: final(self).perf.error_count,
                ..old(self).perf
            }),
    {
        if self.perf.error_count < u64::MAX {
            self.perf.error_count = self.perf.error_count + 1;
        }
    }
}

/// The share of successful trades among all trades, in parts per million
/// (zero when nothing was traded).
pub fn calculate_success_rate(successful: u64, total: u64) -> (r: u64)
    requires
        successful <= total,
    ensures
        total == 0 ==> r == 0,
        total > 0 ==> r == successful * RATIO_SCALE / total as int,
{
    if total == 0 {
        return 0;
    }
    proof {
        lemma_u64_mul_fits(successful, RATIO_SCALE);
        assert(successful * RATIO_SCALE <= total * RATIO_SCALE) by (nonlinear_arith)
            requires successful <= total;
        vstd::arithmetic::div_mod::lemma_div_is_ordered(
            successful * RATIO_SCALE,
            total * RATIO_SCALE,
            total as int,
        );
        vstd::arithmetic::div_mod::lemma_div_multiples_vanish(RATIO_SCALE as int, total as int);
        assert(total * RATIO_SCALE == (total as int) * (RATIO_SCALE as int)) by (nonlinear_arith);
    }
    ((successful as u128) * (RATIO_SCALE as u128) / (total as u128)) as u64
}

/// The mean of the recorded latencies, in milliseconds; zero when none were
/// recorded.
pub fn calculate_average_latency(latencies: &Vec<u64>) -> (r: u64)
    ensures
        latencies@.len() == 0 ==> r == 0,
        latencies@.len() > 0 ==> r == seq_sum(latencies@) / latencies@.len() as int,
{
    if latencies.len() == 0 {
        0
    } else {
        average_u64(latencies)
    }
}

/// The index of a position id in the value table.
fn position_index(values: &Vec<(u64, u64)>, id: u64) -> (r: Option<usize>)
    ensures
        r matches Some(i) ==> i < values@.len() && values@[i as int].0 == id,
        r is None <==> (forall|i: int| 0 <= i < values@.len()
            ==> (#[trigger] values@[i]).0 != id),
{
    let n = values.len();
    let mut i: usize = 0;
    while i < n
        invariant
            n == values@.len(),
            i <= n,
            forall|j: int| 0 <= j < i ==> (#[trigger] values@[j]).0 != id,
        decreases n - i,
    {
        if values[i].0 == id {
            return Some(i);
        }
        i = i + 1;
    }
    None
}

} // verus!
