use dexbot::lp::{
    calculate_optimal_position_size, calculate_optimal_range, calculate_rebalance_threshold,
    isqrt, midpoint, should_rebalance, LpError, LpPositionManager, PositionStatus,
};

#[test]
fn isqrt_is_the_floor_square_root() {
    assert_eq!(isqrt(0), 0);
    assert_eq!(isqrt(1), 1);
    assert_eq!(isqrt(3), 1);
    assert_eq!(isqrt(4), 2);
    assert_eq!(isqrt(99), 9);
    assert_eq!(isqrt(100), 10);
    assert_eq!(isqrt(u64::MAX), 4_294_967_295);
}

#[test]
fn range_is_symmetric_and_scales_with_volatility_and_horizon() {
    // price 100.00 in hundredths, volatility 2% (20_000 ppm), horizon 9:
    // range = 2% * 3 = 6%, so bounds are 94.00 and 106.00
    let (min, max) = calculate_optimal_range(10_000, 20_000, 9);
    assert_eq!((min, max), (9_400, 10_600));
    // a zero horizon or zero volatility collapses the range onto the price
    assert_eq!(calculate_optimal_range(10_000, 20_000, 0), (10_000, 10_000));
    assert_eq!(calculate_optimal_range(10_000, 0, 9), (10_000, 10_000));
    // the half-width never exceeds the price itself (range capped at 100%)
    let (min2, max2) = calculate_optimal_range(10_000, 1_000_000, u64::MAX);
    assert_eq!((min2, max2), (0, 20_000));
}

#[test]
fn identical_inputs_always_give_identical_bounds() {
    let a = calculate_optimal_range(123_456, 37_000, 42);
    let b = calculate_optimal_range(123_456, 37_000, 42);
    assert_eq!(a, b);
    // re-deriving the range from its own midpoint changes nothing and the
    // deviation from that midpoint is zero: no spurious rebalance trigger
    let (min, max) = a;
    let mid = midpoint(min, max);
    assert_eq!(mid, 123_456);
    assert_eq!(calculate_rebalance_threshold(123_456, min, max), 0);
    assert!(!should_rebalance(123_456, min, max, 1));
    let c = calculate_optimal_range(mid, 37_000, 42);
    assert_eq!(c, a);
}

#[test]
fn rebalance_trigger_boundary_is_inclusive() {
    // midpoint 100 (scale 10: 1_000), threshold 5% = 50_000 ppm
    let (min, max) = (900, 1_100);
    assert_eq!(midpoint(min, max), 1_000);
    // current 106.0: deviation 6% >= 5% -> triggers
    assert!(should_rebalance(1_060, min, max, 50_000));
    assert_eq!(calculate_rebalance_threshold(1_060, min, max), 60_000);
    // current 104.9: deviation 4.9% < 5% -> does not trigger
    assert!(!should_rebalance(1_049, min, max, 50_000));
    assert_eq!(calculate_rebalance_threshold(1_049, min, max), 49_000);
    // exact equality triggers (inclusive boundary)
    assert!(should_rebalance(1_050, min, max, 50_000));
}

#[test]
fn position_size_follows_risk_budget() {
    // 10_000.00 capital, 2.5% risk per trade, price 5.00
    assert_eq!(calculate_optimal_position_size(1_000_000, 25_000, 500), 50);
}

#[test]
fn lifecycle_loops_through_rebalancing() {
    let mut mgr = LpPositionManager::new();
    let id = mgr.create_position(0, 1, 2, 500, 500, 900, 1_100, 10);
    assert_eq!(mgr.positions[0].status, PositionStatus::Pending);
    mgr.activate(id).unwrap();
    assert_eq!(mgr.positions[0].status, PositionStatus::Active);
    mgr.begin_rebalance(id).unwrap();
    assert_eq!(mgr.positions[0].status, PositionStatus::Rebalancing);
    // a second rebalance request for the same position is rejected, not queued
    assert_eq!(mgr.begin_rebalance(id), Err(LpError::InvalidTransition));
    mgr.complete_rebalance(id, 950, 1_150, 20).unwrap();
    let p = mgr.positions[0];
    assert_eq!(p.status, PositionStatus::Active);
    assert_eq!((p.min_price, p.max_price), (950, 1_150));
    assert_eq!(p.last_rebalance_at, 20);
    mgr.close(id).unwrap();
    assert_eq!(mgr.positions[0].status, PositionStatus::Closed);
    // a closed position allows no further transitions
    assert_eq!(mgr.begin_rebalance(id), Err(LpError::InvalidTransition));
    assert_eq!(mgr.activate(99), Err(LpError::UnknownPosition));
}

#[test]
fn failed_redeposit_orphans_the_position_until_reconciled() {
    let mut mgr = LpPositionManager::new();
    let id = mgr.create_position(0, 1, 2, 500, 500, 900, 1_100, 10);
    mgr.activate(id).unwrap();
    mgr.begin_rebalance(id).unwrap();
    // phase two fails: the position is orphaned, reported, never dropped
    mgr.fail_rebalance(id).unwrap();
    assert_eq!(mgr.positions[0].status, PositionStatus::Orphaned);
    assert_eq!(mgr.orphaned_positions(), vec![id]);
    // an orphaned position cannot quietly resume rebalancing
    assert_eq!(mgr.begin_rebalance(id), Err(LpError::InvalidTransition));
    // only the explicit reconciliation action brings it back
    mgr.reconcile(id, 940, 1_140, 30).unwrap();
    assert_eq!(mgr.positions[0].status, PositionStatus::Active);
    assert!(mgr.orphaned_positions().is_empty());
}

#[test]
fn harvest_accrues_fees_on_live_positions_only() {
    let mut mgr = LpPositionManager::new();
    let id = mgr.create_position(0, 1, 2, 500, 500, 900, 1_100, 10);
    assert_eq!(mgr.harvest(id, 7), Err(LpError::InvalidTransition));
    mgr.activate(id).unwrap();
    mgr.harvest(id, 7).unwrap();
    mgr.harvest(id, 5).unwrap();
    assert_eq!(mgr.positions[0].fees_accrued, 12);
    assert_eq!(mgr.harvest(77, 1), Err(LpError::UnknownPosition));
}
