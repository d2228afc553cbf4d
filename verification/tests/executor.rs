use dexbot::detector::ArbitrageOpportunity;
use dexbot::errors::{CoreError, VenueErrorKind};
use dexbot::events::EngineEvent;
use dexbot::executor::{
    ExecAction, ExecOutcome, ExecutionState, ExposureLog, Leg, LegStatus,
};

fn opportunity() -> ArbitrageOpportunity {
    ArbitrageOpportunity {
        symbol: "BTCUSDT".to_string(),
        buy_venue: 0,
        sell_venue: 1,
        buy_price: 999_000,
        sell_price: 1_000_000,
        tradable_size: 4,
        estimated_net_profit: 100,
        detected_at: 1_000,
    }
}

#[test]
fn start_rechecks_staleness_and_balances() {
    // too old: detected at 1_000, max age 200, now 1_300
    let r = ExecutionState::start(opportunity(), 1_300, 200, 5_000, 10, u64::MAX);
    assert!(matches!(r, Err(CoreError::StalePrice)));
    // base balance short of the traded size
    let r = ExecutionState::start(opportunity(), 1_100, 200, 5_000, 3, u64::MAX);
    assert!(matches!(r, Err(CoreError::InsufficientBalance)));
    // quote balance short of the buy cost (999_000 * 4)
    let r = ExecutionState::start(opportunity(), 1_100, 200, 5_000, 4, 3_995_999);
    assert!(matches!(r, Err(CoreError::InsufficientBalance)));
    // fresh and funded
    let s = ExecutionState::start(opportunity(), 1_100, 200, 5_000, 4, 3_996_000).unwrap();
    assert_eq!(s.deadline, 6_100);
    assert_eq!(s.buy.status, LegStatus::Pending);
    assert_eq!(s.sell.status, LegStatus::Pending);
    assert!(s.done.is_none());
}

#[test]
fn both_fills_complete_successfully() {
    let mut s = ExecutionState::start(opportunity(), 1_100, 200, 5_000, 100, u64::MAX).unwrap();
    assert_eq!(s.on_leg_filled(Leg::Buy, 999_000, 4), ExecAction::Wait);
    assert!(s.done.is_none());
    assert_eq!(s.on_leg_filled(Leg::Sell, 1_000_000, 4), ExecAction::Finished);
    assert_eq!(s.done, Some(ExecOutcome::Success));
    let e = s.completion_event();
    assert_eq!(
        e,
        EngineEvent::TradeExecuted {
            buy_venue: 0,
            sell_venue: 1,
            buy_value: 3_996_000,
            sell_value: 4_000_000,
            estimated_net_profit: 100,
            success: true,
        }
    );
}

#[test]
fn transient_failures_retry_with_growing_backoff_then_give_up() {
    let mut s = ExecutionState::start(opportunity(), 1_100, 200, 5_000, 100, u64::MAX).unwrap();
    let mut log = ExposureLog::new();
    // two retries allowed, base backoff 100 ms
    let a1 = s.on_leg_failed(&mut log, Leg::Buy, VenueErrorKind::Timeout, 1_200, 2, 100);
    assert_eq!(a1, ExecAction::Retry { leg: Leg::Buy, backoff_ms: 100 });
    let a2 = s.on_leg_failed(&mut log, Leg::Buy, VenueErrorKind::RateLimit, 1_400, 2, 100);
    assert_eq!(a2, ExecAction::Retry { leg: Leg::Buy, backoff_ms: 200 });
    // the retry budget is exhausted; the other (pending) leg is cancelled
    let a3 = s.on_leg_failed(&mut log, Leg::Buy, VenueErrorKind::Network, 1_600, 2, 100);
    assert_eq!(a3, ExecAction::Cancel { leg: Leg::Sell });
    assert_eq!(s.buy.status, LegStatus::Failed);
    assert_eq!(s.sell.status, LegStatus::CancelRequested);
    assert!(s.done.is_none());
    // the cancel lands in time: nothing filled, the execution aborts cleanly
    let a4 = s.on_cancel_outcome(&mut log, Leg::Sell, None, 1_700);
    assert_eq!(a4, ExecAction::Finished);
    assert_eq!(s.done, Some(ExecOutcome::Aborted));
    assert!(log.unresolved().is_empty());
}

#[test]
fn fatal_error_is_not_retried() {
    let mut s = ExecutionState::start(opportunity(), 1_100, 200, 5_000, 100, u64::MAX).unwrap();
    let mut log = ExposureLog::new();
    let a = s.on_leg_failed(&mut log, Leg::Sell, VenueErrorKind::Authentication, 1_200, 5, 100);
    assert_eq!(a, ExecAction::Cancel { leg: Leg::Buy });
    assert_eq!(s.sell.status, LegStatus::Failed);
}

#[test]
fn filled_leg_with_failed_leg_becomes_open_exposure() {
    // leg A (sell) fills, then leg B (buy) fails fatally: the resulting state
    // is an open-exposure record referencing leg A's fill, and a query for
    // unresolved exposures returns it
    let mut s = ExecutionState::start(opportunity(), 1_100, 200, 5_000, 100, u64::MAX).unwrap();
    let mut log = ExposureLog::new();
    assert_eq!(s.on_leg_filled(Leg::Sell, 1_000_000, 4), ExecAction::Wait);
    let a = s.on_leg_failed(&mut log, Leg::Buy, VenueErrorKind::InsufficientBalance, 1_300, 5, 100);
    match a {
        ExecAction::ExposureRecorded { exposure } => {
            assert_eq!(exposure.leg, Leg::Sell);
            assert_eq!(exposure.venue, 1);
            assert_eq!(exposure.price, 1_000_000);
            assert_eq!(exposure.quantity, 4);
            assert!(!exposure.resolved);
        },
        other => panic!("expected an exposure, got {:?}", other),
    }
    assert_eq!(s.done, Some(ExecOutcome::OpenExposure));
    let open = log.unresolved();
    assert_eq!(open.len(), 1);
    assert_eq!(open[0].price, 1_000_000);
    // the completion event reports the partial failure
    let e = s.completion_event();
    match e {
        EngineEvent::TradeExecuted { success, sell_value, buy_value, .. } => {
            assert!(!success);
            assert_eq!(sell_value, 4_000_000);
            assert_eq!(buy_value, 0);
        },
        other => panic!("expected a trade event, got {:?}", other),
    }
    // reconciling the record removes it from the unresolved query
    log.resolve(0);
    assert!(log.unresolved().is_empty());
}

#[test]
fn deadline_cancels_unfilled_legs_and_late_fill_is_exposure() {
    let mut s = ExecutionState::start(opportunity(), 1_100, 200, 1_000, 100, u64::MAX).unwrap();
    let mut log = ExposureLog::new();
    assert_eq!(s.deadline, 2_100);
    let (cancel_buy, cancel_sell) = s.on_deadline(2_100);
    assert!(cancel_buy && cancel_sell);
    assert_eq!(s.buy.status, LegStatus::CancelRequested);
    // the buy leg had already filled when the cancel arrived
    let a = s.on_cancel_outcome(&mut log, Leg::Buy, Some((999_000, 4)), 2_150);
    assert_eq!(a, ExecAction::Wait);
    // the sell leg's cancel landed in time: one filled leg remains
    let a2 = s.on_cancel_outcome(&mut log, Leg::Sell, None, 2_200);
    match a2 {
        ExecAction::ExposureRecorded { exposure } => {
            assert_eq!(exposure.leg, Leg::Buy);
            assert_eq!(exposure.venue, 0);
            assert_eq!(exposure.quantity, 4);
        },
        other => panic!("expected an exposure, got {:?}", other),
    }
    assert_eq!(s.done, Some(ExecOutcome::OpenExposure));
    assert_eq!(log.unresolved().len(), 1);
}

#[test]
fn finished_executions_map_to_the_error_taxonomy() {
    // success surfaces no error
    let mut s = ExecutionState::start(opportunity(), 1_100, 200, 5_000, 100, u64::MAX).unwrap();
    s.on_leg_filled(Leg::Buy, 999_000, 4);
    s.on_leg_filled(Leg::Sell, 1_000_000, 4);
    assert_eq!(s.outcome_error(), None);
    // a partial fill surfaces a partial-fill mismatch
    let mut t = ExecutionState::start(opportunity(), 1_100, 200, 5_000, 100, u64::MAX).unwrap();
    let mut log = ExposureLog::new();
    t.on_leg_filled(Leg::Sell, 1_000_000, 4);
    t.on_leg_failed(&mut log, Leg::Buy, VenueErrorKind::Authentication, 1_200, 0, 100);
    assert_eq!(t.outcome_error(), Some(CoreError::PartialFillMismatch));
}

#[test]
fn venue_error_kinds_map_to_the_error_taxonomy() {
    assert_eq!(VenueErrorKind::Timeout.as_core_error(), CoreError::VenueUnavailable);
    assert_eq!(VenueErrorKind::RateLimit.as_core_error(), CoreError::VenueUnavailable);
    assert_eq!(VenueErrorKind::Network.as_core_error(), CoreError::VenueUnavailable);
    assert!(VenueErrorKind::Network.is_transient());
    assert_eq!(VenueErrorKind::Authentication.as_core_error(), CoreError::AuthenticationError);
    assert!(!VenueErrorKind::Authentication.is_transient());
    assert_eq!(
        VenueErrorKind::InsufficientBalance.as_core_error(),
        CoreError::InsufficientBalance
    );
}
