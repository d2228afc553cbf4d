//! Liquidity-provider position management: sizing a position's price range
//! from volatility, deciding when the range must move, and driving the
//! two-phase rebalance (withdraw, then redeposit) without ever losing track
//! of a position whose redeposit failed.

use vstd::prelude::*;
use crate::math::{abs_diff_spec, deviation_reaches, lemma_u64_mul_fits, ppm_mul, ppm_of, RATIO_SCALE};

verus! {

/// The floor of the square root, defined by counting up: the largest `r`
/// with `r * r <= n`.
pub open spec fn sqrt_floor(n: int) -> int
    decreases n,
{
    if n < 1 {
        0
    } else {
        let p = sqrt_floor(n - 1);
        if (p + 1) * (p + 1) <= n {
            p + 1
        } else {
            p
        }
    }
}

pub proof fn lemma_sqrt_floor_bounds(n: int)
    requires
        n >= 0,
    ensures
        sqrt_floor(n) >= 0,
        sqrt_floor(n) * sqrt_floor(n) <= n,
        (sqrt_floor(n) + 1) * (sqrt_floor(n) + 1) > n,
    decreases n,
{
    if n == 0 {
        assert(sqrt_floor(0) == 0);
    } else {
        lemma_sqrt_floor_bounds(n - 1);
        let p = sqrt_floor(n - 1);
        if (p + 1) * (p + 1) <= n {
            assert(sqrt_floor(n) == p + 1);
            assert((p + 2) * (p + 2) > n) by (nonlinear_arith)
                requires (p + 1) * (p + 1) > n - 1, (p + 1) * (p + 1) <= n, p >= 0;
            assert((sqrt_floor(n) + 1) * (sqrt_floor(n) + 1) > n);
        } else {
            assert(sqrt_floor(n) == p);
            assert(p * p <= n - 1);
            assert((p + 1) * (p + 1) > n);
        }
    }
}

/// Any value with the floor-square-root bounds is the floor square root.
pub proof fn lemma_sqrt_floor_unique(n: int, r: int)
    requires
        n >= 0,
        r >= 0,
        r * r <= n,
        (r + 1) * (r + 1) > n,
    ensures
        r == sqrt_floor(n),
{
    lemma_sqrt_floor_bounds(n);
    let s = sqrt_floor(n);
    if r < s {
        assert((r + 1) * (r + 1) <= s * s) by (nonlinear_arith)
            requires r + 1 <= s, r >= 0;
    }
    if r > s {
        assert((s + 1) * (s + 1) <= r * r) by (nonlinear_arith)
            requires s + 1 <= r, s >= 0;
    }
}

/// The floor of the square root of a machine word, by binary search.
pub fn isqrt(n: u64) -> (r: u64)
    ensures
        r == sqrt_floor(n as int),
        r <= 0x1_0000_0000,
{
    let mut lo: u64 = 0;
    let mut hi: u64 = 0x1_0000_0000;
    proof {
        assert((hi as int) * (hi as int) > n as int);
    }
    while hi - lo > 1
        invariant
            lo < hi,
            hi <= 0x1_0000_0000,
            (lo as int) * (lo as int) <= n as int,
            (hi as int) * (hi as int) > n as int,
        decreases hi - lo,
    {
        let mid = lo + (hi - lo) / 2;
        proof {
            lemma_u64_mul_fits(mid, mid);
        }
        if (mid as u128) * (mid as u128) <= n as u128 {
            lo = mid;
        } else {
            hi = mid;
        }
    }
    proof {
        lemma_sqrt_floor_unique(n as int, lo as int);
    }
    lo
}

/// The width of an optimal range, in parts per million of the current price:
/// volatility times the square root of the time horizon, capped at 100%.
pub open spec fn range_ppm_spec(volatility_ppm: u64, time_horizon: u64) -> int {
    let raw = volatility_ppm * sqrt_floor(time_horizon as int);
    if raw <= RATIO_SCALE {
        raw
    } else {
        RATIO_SCALE as int
    }
}

/// The bounds of an optimal range around `price`: the price moved down and up
/// by the same absolute width, so the midpoint of the range is exactly the
/// price it was derived from.
pub open spec fn optimal_range_min_spec(price: u64, volatility_ppm: u64, time_horizon: u64) -> int {
    price - ppm_mul(price, range_ppm_spec(volatility_ppm, time_horizon) as u64)
}

pub open spec fn optimal_range_max_spec(price: u64, volatility_ppm: u64, time_horizon: u64) -> int {
    price + ppm_mul(price, range_ppm_spec(volatility_ppm, time_horizon) as u64)
}

/// Computes the price range an LP position should cover: current price `p`,
/// volatility estimate `v` (parts per million) and time horizon `t` give a
/// half-width of `p * v * sqrt(t) / 1_000_000`, capped at `p` itself. The
/// result depends on the arguments alone, so identical inputs always yield
/// identical bounds.
pub fn calculate_optimal_range(current_price: u64, volatility_ppm: u64, time_horizon: u64) -> (r: (
    u64,
    u64,
))
    requires
        volatility_ppm <= RATIO_SCALE,
        current_price <= u64::MAX / 2,
    ensures
        r.0 == optimal_range_min_spec(current_price, volatility_ppm, time_horizon),
        r.1 == optimal_range_max_spec(current_price, volatility_ppm, time_horizon),
        r.0 <= current_price <= r.1,
{
    let s = isqrt(time_horizon);
    proof {
        lemma_u64_mul_fits(volatility_ppm, s);
        assert(volatility_ppm * s <= 1_000_000 * 0x1_0000_0000) by (nonlinear_arith)
            requires volatility_ppm <= 1_000_000, s <= 0x1_0000_0000, s >= 0;
    }
    let raw: u64 = volatility_ppm * s;
    let range_ppm: u64 = if raw <= RATIO_SCALE { raw } else { RATIO_SCALE };
    let delta = ppm_of(current_price, range_ppm);
    (current_price - delta, current_price + delta)
}

/// The midpoint of a price range.
pub open spec fn midpoint_spec(min_price: u64, max_price: u64) -> int {
    (min_price + max_price) / 2
}

pub fn midpoint(min_price: u64, max_price: u64) -> (r: u64)
    ensures
        r == midpoint_spec(min_price, max_price),
{
    (((min_price as u128) + (max_price as u128)) / 2) as u64
}

/// How far the current price sits from a range's midpoint, relative to that
/// midpoint, in parts per million (rounded down, saturating at the largest
/// machine value).
pub fn calculate_rebalance_threshold(current_price: u64, min_price: u64, max_price: u64) -> (r:
    u64)
    requires
        min_price + max_price >= 2,
    ensures
        r == vstd::math::min(
            abs_diff_spec(current_price, midpoint_spec(min_price, max_price) as u64)
                * RATIO_SCALE / midpoint_spec(min_price, max_price),
            u64::MAX as int,
        ),
{
    let mid = midpoint(min_price, max_price);
    let diff: u64 = if current_price >= mid { current_price - mid } else { mid - current_price };
    proof {
        lemma_u64_mul_fits(diff, RATIO_SCALE);
    }
    let dev: u128 = (diff as u128) * (RATIO_SCALE as u128) / (mid as u128);
    if dev > u64::MAX as u128 {
        u64::MAX
    } else {
        dev as u64
    }
}

/// Whether an LP position must be rebalanced: true exactly when the relative
/// deviation of the current price from the range's midpoint is at least the
/// threshold (the boundary is inclusive, unlike the strict profit boundary of
/// arbitrage detection).
pub fn should_rebalance(
    current_price: u64,
    min_price: u64,
    max_price: u64,
    threshold_ppm: u64,
) -> (r: bool)
    requires
        min_price + max_price >= 2,
    ensures
        r <==> abs_diff_spec(current_price, midpoint_spec(min_price, max_price) as u64)
            * RATIO_SCALE >= threshold_ppm * midpoint_spec(min_price, max_price),
{
    let mid = midpoint(min_price, max_price);
    deviation_reaches(mid, current_price, threshold_ppm)
}

/// Sizes a position from the capital at risk: `total_capital` scaled by
/// `risk_per_trade_ppm`, divided by the current price.
pub fn calculate_optimal_position_size(
    total_capital: u64,
    risk_per_trade_ppm: u64,
    current_price: u64,
) -> (r: u64)
    requires
        risk_per_trade_ppm <= RATIO_SCALE,
        current_price > 0,
    ensures
        r == ppm_mul(total_capital, risk_per_trade_ppm) / (current_price as int),
{
    let budget = ppm_of(total_capital, risk_per_trade_ppm);
    budget / current_price
}

/// Rederiving a range from the very inputs it was derived from triggers
/// nothing: the range is symmetric around the price, so the price sits on the
/// midpoint, the deviation is zero, and any positive threshold is missed.
pub proof fn lemma_rederived_range_is_quiet(
    price: u64,
    volatility_ppm: u64,
    time_horizon: u64,
    threshold_ppm: u64,
)
    requires
        volatility_ppm <= RATIO_SCALE,
        price >= 1,
        price <= u64::MAX / 2,
        threshold_ppm >= 1,
    ensures
        midpoint_spec(
            optimal_range_min_spec(price, volatility_ppm, time_horizon) as u64,
            optimal_range_max_spec(price, volatility_ppm, time_horizon) as u64,
        ) == price,
        abs_diff_spec(
            price,
            midpoint_spec(
                optimal_range_min_spec(price, volatility_ppm, time_horizon) as u64,
                optimal_range_max_spec(price, volatility_ppm, time_horizon) as u64,
            ) as u64,
        ) == 0,
        !(abs_diff_spec(
            price,
            midpoint_spec(
                optimal_range_min_spec(price, volatility_ppm, time_horizon) as u64,
                optimal_range_max_spec(price, volatility_ppm, time_horizon) as u64,
            ) as u64,
        ) * RATIO_SCALE >= threshold_ppm * midpoint_spec(
            optimal_range_min_spec(price, volatility_ppm, time_horizon) as u64,
            optimal_range_max_spec(price, volatility_ppm, time_horizon) as u64,
        )),
{
    let rp = range_ppm_spec(volatility_ppm, time_horizon);
    lemma_sqrt_floor_bounds(time_horizon as int);
    assert(volatility_ppm * sqrt_floor(time_horizon as int) >= 0) by (nonlinear_arith)
        requires volatility_ppm >= 0, sqrt_floor(time_horizon as int) >= 0;
    assert(0 <= rp <= 1_000_000);
    let d = ppm_mul(price, rp as u64);
    assert(price * (rp as u64) <= price * 1_000_000) by (nonlinear_arith)
        requires 0 <= rp <= 1_000_000, price >= 0, rp as u64 == rp;
    vstd::arithmetic::div_mod::lemma_div_is_ordered(
        price * (rp as u64),
        price * 1_000_000,
        1_000_000,
    );
    vstd::arithmetic::div_mod::lemma_div_multiples_vanish(price as int, 1_000_000);
    assert(price * 1_000_000 == 1_000_000 * price) by (nonlinear_arith);
    assert(d <= price);
    assert((price - d) + (price + d) == 2 * price);
    assert(midpoint_spec((price - d) as u64, (price + d) as u64) == price);
    assert(threshold_ppm * price >= 1 * price) by (nonlinear_arith)
        requires threshold_ppm >= 1, price >= 0;
}

/// The lifecycle of an LP position.
#[derive(Clone, Copy, Debug, PartialEq, Eq, Structural)]
pub enum PositionStatus {
    /// Created but not yet confirmed by the venue.
    Pending,
    /// Live and earning fees.
    Active,
    /// Liquidity withdrawn, redeposit under way.
    Rebalancing,
    /// Withdrawal succeeded but the redeposit failed: funds are out of the
    /// pool and wait for explicit reconciliation.
    Orphaned,
    /// Wound down.
    Closed,
}

/// The transitions the lifecycle allows. A rebalance loops through
/// `Rebalancing`; its failure path ends in `Orphaned`, which only an explicit
/// reconciliation leaves.
pub open spec fn valid_transition(from: PositionStatus, to: PositionStatus) -> bool {
    ||| (from is Pending && to is Active)
    ||| (from is Active && to is Rebalancing)
    ||| (from is Rebalancing && to is Active)
    ||| (from is Active && to is Closed)
    ||| (from is Rebalancing && to is Orphaned)
    ||| (from is Orphaned && to is Active)
}

/// A bounded-range liquidity deposit on a DEX. Tokens and venues are carried
/// as opaque numeric identifiers.
#[derive(Clone, Copy, Debug, PartialEq, Eq, Structural)]
pub struct LpPosition {
    pub id: u64,
    pub venue: usize,
    pub token_a: u64,
    pub token_b: u64,
    pub amount_a: u64,
    pub amount_b: u64,
    pub min_price: u64,
    pub max_price: u64,
    pub fees_accrued: u64,
    pub status: PositionStatus,
    pub created_at: u64,
    pub last_rebalance_at: u64,
}

impl LpPosition {
    pub open spec fn well_formed(self) -> bool {
        self.min_price < self.max_price
    }
}

/// An error from the position manager.
#[derive(Clone, Copy, Debug, PartialEq, Eq, Structural)]
pub enum LpError {
    /// No position with the given id exists.
    UnknownPosition,
    /// The requested change is not a lifecycle transition the position's
    /// current status allows; in particular, a rebalance request for a
    /// position already rebalancing is rejected, never queued.
    InvalidTransition,
}

/// The table of LP positions, keyed by position id; the manager owns every
/// position's status exclusively.
pub struct LpPositionManager {
    pub positions: Vec<LpPosition>,
    pub next_id: u64,
}

impl LpPositionManager {
    /// Ids are unique, below the allocator's next id, and every position's
    /// range is ordered.
    pub open spec fn well_formed(self) -> bool {
        &&& forall|i: int, j: int| 0 <= i < j < self.positions@.len()
                ==> (#[trigger] self.positions@[i]).id != (#[trigger] self.positions@[j]).id
        &&& forall|i: int| 0 <= i < self.positions@.len()
                ==> (#[trigger] self.positions@[i]).id < self.next_id
        &&& forall|i: int| 0 <= i < self.positions@.len()
                ==> (#[trigger] self.positions@[i]).well_formed()
    }

    pub open spec fn spec_index_of(self, id: u64) -> Option<int> {
        if exists|i: int| 0 <= i < self.positions@.len() && (#[trigger] self.positions@[i]).id == id {
            Some(choose|i: int| 0 <= i < self.positions@.len()
                && (#[trigger] self.positions@[i]).id == id)
        } else {
            None
        }
    }

    pub fn new() -> (r: LpPositionManager)
        ensures
            r.well_formed(),
            r.positions@.len() == 0,
    {
        LpPositionManager { positions: Vec::new(), next_id: 0 }
    }

    /// Opens a new position in `Pending` status and returns its id.
    pub fn create_position(
        &mut self,
        venue: usize,
        token_a: u64,
        token_b: u64,
        amount_a: u64,
        amount_b: u64,
        min_price: u64,
        max_price: u64,
        now: u64,
    ) -> (r: u64)
        requires
            old(self).well_formed(),
            min_price < max_price,
            old(self).next_id < u64::MAX,
        ensures
            final(self).well_formed(),
            r == old(self).next_id,
            final(self).next_id == old(self).next_id + 1,
            final(self).positions@ == old(self).positions@.push(LpPosition {
                id: r,
                venue,
                token_a,
                token_b,
                amount_a,
                amount_b,
                min_price,
                max_price,
                fees_accrued: 0,
                status: PositionStatus::Pending,
                created_at: now,
                last_rebalance_at: 0,
            }),
    {
        let id = self.next_id;
        self.next_id = self.next_id + 1;
        self.positions.push(LpPosition {
            id,
            venue,
            token_a,
            token_b,
            amount_a,
            amount_b,
            min_price,
            max_price,
            fees_accrued: 0,
            status: PositionStatus::Pending,
            created_at: now,
            last_rebalance_at: 0,
        });
        id
    }

    /// The index of the position with the given id.
    fn index_of(&self, id: u64) -> (r: Option<usize>)
        requires
            self.well_formed(),
        ensures
            r matches Some(i) ==> i < self.positions@.len() && self.positions@[i as int].id == id,
            r is None <==> (forall|i: int| 0 <= i < self.positions@.len()
                ==> (#[trigger] self.positions@[i]).id != id),
    {
        let n = self.positions.len();
        let mut i: usize = 0;
        while i < n
            invariant
                n == self.positions@.len(),
                i <= n,
                forall|j: int| 0 <= j < i ==> (#[trigger] self.positions@[j]).id != id,
            decreases n - i,
        {
            if self.positions[i].id == id {
                return Some(i);
            }
            i = i + 1;
        }
        None
    }

    /// Whether the table holds a position with `id` whose status is `st`;
    /// the condition under which each status change below succeeds.
    pub open spec fn has_with_status(self, id: u64, st: PositionStatus) -> bool {
        exists|i: int| {
            &&& 0 <= i < self.positions@.len()
            &&& (#[trigger] self.positions@[i]).id == id
            &&& self.positions@[i].status == st
        }
    }

    /// Confirms a pending position as live. Succeeds exactly when a position
    /// with `id` exists in `Pending` status; fails with `UnknownPosition`
    /// exactly when the id is absent, else with `InvalidTransition`.
    pub fn activate(&mut self, id: u64) -> (r: Result<(), LpError>)
        requires
            old(self).well_formed(),
        ensures
            final(self).well_formed(),
            final(self).next_id == old(self).next_id,
            r is Ok <==> old(self).has_with_status(id, PositionStatus::Pending),
            r is Ok ==> (exists|i: int| {
                &&& 0 <= i < old(self).positions@.len()
                &&& (#[trigger] old(self).positions@[i]).id == id
                &&& old(self).positions@[i].status is Pending
                &&& valid_transition(old(self).positions@[i].status, PositionStatus::Active)
                &&& final(self).positions@ == old(self).positions@.update(i, LpPosition {
                    status: PositionStatus::Active,
                    ..old(self).positions@[i]
                })
            }),
            r is Err ==> final(self).positions@ == old(self).positions@,
            r matches Err(e) ==> (e is UnknownPosition <==> (forall|i: int|
                0 <= i < old(self).positions@.len()
                    ==> (#[trigger] old(self).positions@[i]).id != id)),
    {
        let idx = match self.index_of(id) {
            Option::Some(i) => i,
            Option::None => {
                return Err(LpError::UnknownPosition);
            },
        };
        let p = self.positions[idx];
        match p.status {
            PositionStatus::Pending => {
                self.positions.set(idx, LpPosition { status: PositionStatus::Active, ..p });
                Ok(())
            },
            _ => Err(LpError::InvalidTransition),
        }
    }

    /// Phase one of a rebalance: fees are harvested and liquidity withdrawn,
    /// and the position enters `Rebalancing`. Succeeds exactly when a
    /// position with `id` exists in `Active` status; in particular a position
    /// already rebalancing is rejected with `InvalidTransition`, never
    /// queued.
    pub fn begin_rebalance(&mut self, id: u64) -> (r: Result<(), LpError>)
        requires
            old(self).well_formed(),
        ensures
            final(self).well_formed(),
            final(self).next_id == old(self).next_id,
            r is Ok <==> old(self).has_with_status(id, PositionStatus::Active),
            r is Ok ==> (exists|i: int| {
                &&& 0 <= i < old(self).positions@.len()
                &&& (#[trigger] old(self).positions@[i]).id == id
                &&& old(self).positions@[i].status is Active
                &&& valid_transition(old(self).positions@[i].status, PositionStatus::Rebalancing)
                &&& final(self).positions@ == old(self).positions@.update(i, LpPosition {
                    status: PositionStatus::Rebalancing,
                    ..old(self).positions@[i]
                })
            }),
            r is Err ==> final(self).positions@ == old(self).positions@,
            r matches Err(e) ==> (e is UnknownPosition <==> (forall|i: int|
                0 <= i < old(self).positions@.len()
                    ==> (#[trigger] old(self).positions@[i]).id != id)),
    {
        let idx = match self.index_of(id) {
            Option::Some(i) => i,
            Option::None => {
                return Err(LpError::UnknownPosition);
            },
        };
        let p = self.positions[idx];
        match p.status {
            PositionStatus::Active => {
                self.positions.set(idx, LpPosition { status: PositionStatus::Rebalancing, ..p });
                Ok(())
            },
            _ => Err(LpError::InvalidTransition),
        }
    }

    /// Phase two of a rebalance succeeded: the position is live again on its
    /// new range. Succeeds exactly when a position with `id` exists in
    /// `Rebalancing` status.
    pub fn complete_rebalance(&mut self, id: u64, new_min: u64, new_max: u64, now: u64) -> (r:
        Result<(), LpError>)
        requires
            old(self).well_formed(),
            new_min < new_max,
        ensures
            final(self).well_formed(),
            final(self).next_id == old(self).next_id,
            r is Ok <==> old(self).has_with_status(id, PositionStatus::Rebalancing),
            r is Ok ==> (exists|i: int| {
                &&& 0 <= i < old(self).positions@.len()
                &&& (#[trigger] old(self).positions@[i]).id == id
                &&& old(self).positions@[i].status is Rebalancing
                &&& valid_transition(old(self).positions@[i].status, PositionStatus::Active)
                &&& final(self).positions@ == old(self).positions@.update(i, LpPosition {
                    status: PositionStatus::Active,
                    min_price: new_min,
                    max_price: new_max,
                    last_rebalance_at: now,
                    ..old(self).positions@[i]
                })
            }),
            r is Err ==> final(self).positions@ == old(self).positions@,
            r matches Err(e) ==> (e is UnknownPosition <==> (forall|i: int|
                0 <= i < old(self).positions@.len()
                    ==> (#[trigger] old(self).positions@[i]).id != id)),
    {
        let idx = match self.index_of(id) {
            Option::Some(i) => i,
            Option::None => {
                return Err(LpError::UnknownPosition);
            },
        };
        let p = self.positions[idx];
        match p.status {
            PositionStatus::Rebalancing => {
                self.positions.set(idx, LpPosition {
                    status: PositionStatus::Active,
                    min_price: new_min,
                    max_price: new_max,
                    last_rebalance_at: now,
                    ..p
                });
                Ok(())
            },
            _ => Err(LpError::InvalidTransition),
        }
    }

    /// Phase two of a rebalance failed: the liquidity is withdrawn but not
    /// redeployed. The position becomes `Orphaned` and stays in the table; it
    /// is reported, never dropped, and waits for explicit reconciliation.
    /// Succeeds exactly when a position with `id` exists in `Rebalancing`
    /// status.
    pub fn fail_rebalance(&mut self, id: u64) -> (r: Result<(), LpError>)
        requires
            old(self).well_formed(),
        ensures
            final(self).well_formed(),
            final(self).next_id == old(self).next_id,
            final(self).positions@.len() == old(self).positions@.len(),
            r is Ok <==> old(self).has_with_status(id, PositionStatus::Rebalancing),
            r is Ok ==> (exists|i: int| {
                &&& 0 <= i < old(self).positions@.len()
                &&& (#[trigger] old(self).positions@[i]).id == id
                &&& old(self).positions@[i].status is Rebalancing
                &&& valid_transition(old(self).positions@[i].status, PositionStatus::Orphaned)
                &&& final(self).positions@ == old(self).positions@.update(i, LpPosition {
                    status: PositionStatus::Orphaned,
                    ..old(self).positions@[i]
                })
            }),
            r is Err ==> final(self).positions@ == old(self).positions@,
            r matches Err(e) ==> (e is UnknownPosition <==> (forall|i: int|
                0 <= i < old(self).positions@.len()
                    ==> (#[trigger] old(self).positions@[i]).id != id)),
    {
        let idx = match self.index_of(id) {
            Option::Some(i) => i,
            Option::None => {
                return Err(LpError::UnknownPosition);
            },
        };
        let p = self.positions[idx];
        match p.status {
            PositionStatus::Rebalancing => {
                self.positions.set(idx, LpPosition { status: PositionStatus::Orphaned, ..p });
                Ok(())
            },
            _ => Err(LpError::InvalidTransition),
        }
    }

    /// The explicit reconciliation action: redeploys an orphaned position's
    /// funds on a fresh range, making it live again. Succeeds exactly when a
    /// position with `id` exists in `Orphaned` status.
    pub fn reconcile(&mut self, id: u64, new_min: u64, new_max: u64, now: u64) -> (r: Result<
        (),
        LpError,
    >)
        requires
            old(self).well_formed(),
            new_min < new_max,
        ensures
            final(self).well_formed(),
            final(self).next_id == old(self).next_id,
            r is Ok <==> old(self).has_with_status(id, PositionStatus::Orphaned),
            r is Ok ==> (exists|i: int| {
                &&& 0 <= i < old(self).positions@.len()
                &&& (#[trigger] old(self).positions@[i]).id == id
                &&& old(self).positions@[i].status is Orphaned
                &&& valid_transition(old(self).positions@[i].status, PositionStatus::Active)
                &&& final(self).positions@ == old(self).positions@.update(i, LpPosition {
                    status: PositionStatus::Active,
                    min_price: new_min,
                    max_price: new_max,
                    last_rebalance_at: now,
                    ..old(self).positions@[i]
                })
            }),
            r is Err ==> final(self).positions@ == old(self).positions@,
            r matches Err(e) ==> (e is UnknownPosition <==> (forall|i: int|
                0 <= i < old(self).positions@.len()
                    ==> (#[trigger] old(self).positions@[i]).id != id)),
    {
        let idx = match self.index_of(id) {
            Option::Some(i) => i,
            Option::None => {
                return Err(LpError::UnknownPosition);
            },
        };
        let p = self.positions[idx];
        match p.status {
            PositionStatus::Orphaned => {
                self.positions.set(idx, LpPosition {
                    status: PositionStatus::Active,
                    min_price: new_min,
                    max_price: new_max,
                    last_rebalance_at: now,
                    ..p
                });
                Ok(())
            },
            _ => Err(LpError::InvalidTransition),
        }
    }

    /// Winds a live position down. Succeeds exactly when a position with `id`
    /// exists in `Active` status.
    pub fn close(&mut self, id: u64) -> (r: Result<(), LpError>)
        requires
            old(self).well_formed(),
        ensures
            final(self).well_formed(),
            final(self).next_id == old(self).next_id,
            r is Ok <==> old(self).has_with_status(id, PositionStatus::Active),
            r is Ok ==> (exists|i: int| {
                &&& 0 <= i < old(self).positions@.len()
                &&& (#[trigger] old(self).positions@[i]).id == id
                &&& old(self).positions@[i].status is Active
                &&& valid_transition(old(self).positions@[i].status, PositionStatus::Closed)
                &&& final(self).positions@ == old(self).positions@.update(i, LpPosition {
                    status: PositionStatus::Closed,
                    ..old(self).positions@[i]
                })
            }),
            r is Err ==> final(self).positions@ == old(self).positions@,
            r matches Err(e) ==> (e is UnknownPosition <==> (forall|i: int|
                0 <= i < old(self).positions@.len()
                    ==> (#[trigger] old(self).positions@[i]).id != id)),
    {
        let idx = match self.index_of(id) {
            Option::Some(i) => i,
            Option::None => {
                return Err(LpError::UnknownPosition);
            },
        };
        let p = self.positions[idx];
        match p.status {
            PositionStatus::Active => {
                self.positions.set(idx, LpPosition { status: PositionStatus::Closed, ..p });
                Ok(())
            },
            _ => Err(LpError::InvalidTransition),
        }
    }

    /// Books harvested fees against a live position, saturating at the
    /// largest machine value. Succeeds exactly when a position with `id`
    /// exists in `Active` status.
    pub fn harvest(&mut self, id: u64, amount: u64) -> (r: Result<(), LpError>)
        requires
            old(self).well_formed(),
        ensures
            final(self).well_formed(),
            final(self).next_id == old(self).next_id,
            r is Ok <==> old(self).has_with_status(id, PositionStatus::Active),
            r is Ok ==> (exists|i: int| {
                &&& 0 <= i < old(self).positions@.len()
                &&& (#[trigger] old(self).positions@[i]).id == id
                &&& old(self).positions@[i].status is Active
                &&& final(self).positions@ == old(self).positions@.update(i, LpPosition {
                    fees_accrued: vstd::math::min(
                        old(self).positions@[i].fees_accrued + amount,
                        u64::MAX as int,
                    ) as u64,
                    ..old(self).positions@[i]
                })
            }),
            r is Err ==> final(self).positions@ == old(self).positions@,
            r matches Err(e) ==> (e is UnknownPosition <==> (forall|i: int|
                0 <= i < old(self).positions@.len()
                    ==> (#[trigger] old(self).positions@[i]).id != id)),
    {
        let idx = match self.index_of(id) {
            Option::Some(i) => i,
            Option::None => {
                return Err(LpError::UnknownPosition);
            },
        };
        let p = self.positions[idx];
        match p.status {
            PositionStatus::Active => {
                let fees = if p.fees_accrued <= u64::MAX - amount {
                    p.fees_accrued + amount
                } else {
                    u64::MAX
                };
                self.positions.set(idx, LpPosition { fees_accrued: fees, ..p });
                Ok(())
            },
            _ => Err(LpError::InvalidTransition),
        }
    }

    /// The ids of every orphaned position, in table order. Soundness and
    /// completeness of this query are `lemma_orphan_ids_sound` and
    /// `lemma_orphan_ids_complete`.
    pub fn orphaned_positions(&self) -> (r: Vec<u64>)
        requires
            self.well_formed(),
        ensures
            r@ == orphan_ids(self.positions@),
    {
        let n = self.positions.len();
        let mut r: Vec<u64> = Vec::new();
        let mut i: usize = 0;
        while i < n
            invariant
                n == self.positions@.len(),
                i <= n,
                r@ == orphan_ids(self.positions@.take(i as int)),
            decreases n - i,
        {
            let orphaned = match self.positions[i].status {
                PositionStatus::Orphaned => true,
                _ => false,
            };
            if orphaned {
                r.push(self.positions[i].id);
            }
            proof {
                let t = self.positions@.take(i + 1);
                assert(t.drop_last() =~= self.positions@.take(i as int));
                assert(t.last() == self.positions@[i as int]);
            }
            i = i + 1;
        }
        proof {
            assert(self.positions@.take(n as int) =~= self.positions@);
        }
        r
    }
}

/// The ids of the orphaned positions of a table, in order.
pub open spec fn orphan_ids(s: Seq<LpPosition>) -> Seq<u64>
    decreases s.len(),
{
    if s.len() == 0 {
        Seq::empty()
    } else {
        let prefix = orphan_ids(s.drop_last());
        if s.last().status is Orphaned {
            prefix.push(s.last().id)
        } else {
            prefix
        }
    }
}

/// Every id the orphan query reports belongs to an orphaned position of the
/// table.
pub proof fn lemma_orphan_ids_sound(s: Seq<LpPosition>, j: int)
    requires
        0 <= j < orphan_ids(s).len(),
    ensures
        exists|k: int| {
            &&& 0 <= k < s.len()
            &&& (#[trigger] s[k]).id == orphan_ids(s)[j]
            &&& s[k].status is Orphaned
        },
    decreases s.len(),
{
    let p = orphan_ids(s.drop_last());
    if s.last().status is Orphaned && j == p.len() {
        assert(s[s.len() - 1].id == orphan_ids(s)[j]);
    } else {
        lemma_orphan_ids_sound(s.drop_last(), j);
        let k = choose|k: int| {
            &&& 0 <= k < s.drop_last().len()
            &&& (#[trigger] s.drop_last()[k]).id == orphan_ids(s.drop_last())[j]
            &&& s.drop_last()[k].status is Orphaned
        };
        assert(s[k] == s.drop_last()[k]);
    }
}

/// Every orphaned position of the table is reported by the orphan query: it
/// is never dropped.
pub proof fn lemma_orphan_ids_complete(s: Seq<LpPosition>, k: int)
    requires
        0 <= k < s.len(),
        s[k].status is Orphaned,
    ensures
        orphan_ids(s).contains(s[k].id),
    decreases s.len(),
{
    let p = orphan_ids(s.drop_last());
    if k == s.len() - 1 {
        assert(orphan_ids(s)[p.len() as int] == s[k].id);
    } else {
        assert(s.drop_last()[k] == s[k]);
        lemma_orphan_ids_complete(s.drop_last(), k);
        let w = choose|w: int| 0 <= w < p.len() && p[w] == s.drop_last()[k].id;
        assert(orphan_ids(s)[w] == s[k].id);
    }
}

} // verus!
