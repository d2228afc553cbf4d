use dexbot::aggregator::{CircuitState, PriceAggregator, PriceQuote, Side};
use dexbot::errors::CoreError;

fn quote(venue: usize, bid: u64, ask: u64, ts: u64) -> PriceQuote {
    PriceQuote { venue, price: (bid + ask) / 2, bid_price: bid, ask_price: ask, timestamp: ts, confidence: None }
}

#[test]
fn best_price_picks_extremes_among_fresh() {
    let mut agg = PriceAggregator::new(3);
    assert!(agg.apply_quote(quote(0, 100, 110, 1_000)));
    assert!(agg.apply_quote(quote(1, 105, 108, 1_000)));
    assert!(agg.apply_quote(quote(2, 103, 104, 1_000)));
    // sell-side: the maximum bid; buy-side: the minimum ask
    assert_eq!(agg.get_best_price(1_500, 1_000, Side::Sell), Ok((1, 105)));
    assert_eq!(agg.get_best_price(1_500, 1_000, Side::Buy), Ok((2, 104)));
}

#[test]
fn stale_quotes_are_excluded_not_defaulted() {
    let mut agg = PriceAggregator::new(2);
    agg.apply_quote(quote(0, 100, 110, 1_000));
    agg.apply_quote(quote(1, 200, 210, 5_000));
    // at 5_800 with a window of 1_000 ms, venue 0's quote is stale
    assert_eq!(agg.get_best_price(5_800, 1_000, Side::Sell), Ok((1, 200)));
    // with no fresh quote at all the query fails, it does not invent a price
    assert_eq!(agg.get_best_price(10_000, 1_000, Side::Sell), Err(CoreError::NoPriceAvailable));
}

#[test]
fn monotonic_timestamp_filter_drops_stale_updates() {
    let mut agg = PriceAggregator::new(1);
    assert!(agg.apply_quote(quote(0, 100, 101, 10)));
    // an older and an equal timestamp are both discarded
    assert!(!agg.apply_quote(quote(0, 999, 1_000, 9)));
    assert!(!agg.apply_quote(quote(0, 999, 1_000, 10)));
    assert_eq!(agg.get_best_price(11, 100, Side::Sell), Ok((0, 100)));
    // a strictly newer timestamp replaces the quote
    assert!(agg.apply_quote(quote(0, 120, 121, 11)));
    assert_eq!(agg.get_best_price(11, 100, Side::Sell), Ok((0, 120)));
}

#[test]
fn circuit_opens_after_limit_and_excludes_venue() {
    let limit: u64 = 3;
    let mut agg = PriceAggregator::new(2);
    agg.apply_quote(quote(0, 300, 310, 1_000));
    agg.apply_quote(quote(1, 100, 110, 1_000));
    // venue 0 fails `limit` times in a row; only the last failure opens it
    assert!(!agg.record_failure(0, 1_001, limit));
    assert!(!agg.record_failure(0, 1_002, limit));
    assert!(agg.record_failure(0, 1_003, limit));
    assert_eq!(agg.health[0].circuit, CircuitState::Open);
    // the open venue leaves aggregation although its quote is fresh and best
    assert_eq!(agg.get_best_price(1_100, 1_000, Side::Sell), Ok((1, 100)));
}

#[test]
fn circuit_closes_after_successful_probe() {
    let limit: u64 = 1;
    let cooldown: u64 = 500;
    let mut agg = PriceAggregator::new(1);
    agg.apply_quote(quote(0, 100, 110, 1_000));
    assert!(agg.record_failure(0, 1_000, limit));
    // before the cool-down no probe is allowed
    assert!(!agg.allow_probe(0, 1_300, cooldown));
    assert_eq!(agg.health[0].circuit, CircuitState::Open);
    // after the cool-down one probe is allowed; its success closes the circuit
    assert!(agg.allow_probe(0, 1_600, cooldown));
    assert_eq!(agg.health[0].circuit, CircuitState::HalfOpen);
    // half-open still keeps the venue out of aggregation
    assert_eq!(agg.get_best_price(1_600, 1_000, Side::Sell), Err(CoreError::NoPriceAvailable));
    assert!(agg.record_success(0, 1_700));
    assert_eq!(agg.health[0].circuit, CircuitState::Closed);
    assert_eq!(agg.get_best_price(1_700, 1_000, Side::Sell), Ok((0, 100)));
}

#[test]
fn failed_probe_reopens_circuit() {
    let mut agg = PriceAggregator::new(1);
    assert!(agg.record_failure(0, 100, 1));
    assert!(agg.allow_probe(0, 700, 500));
    assert_eq!(agg.health[0].circuit, CircuitState::HalfOpen);
    // the failed probe re-opens the circuit (and counts as an opening)
    assert!(agg.record_failure(0, 710, 1));
    assert_eq!(agg.health[0].circuit, CircuitState::Open);
    assert_eq!(agg.health[0].opened_at, 710);
}

#[test]
fn tearing_down_a_subscription_keeps_breaker_counters_intact() {
    let mut agg = PriceAggregator::new(2);
    agg.subscribe(0);
    agg.subscribe(1);
    assert!(agg.subscribed[0] && agg.subscribed[1]);
    // venue 0 accumulates failures while subscribed
    agg.record_failure(0, 100, 5);
    agg.record_failure(0, 200, 5);
    let before = agg.health[0];
    // unsubscribing and resubscribing leaves the counters exactly as they were
    agg.unsubscribe(0);
    assert!(!agg.subscribed[0]);
    assert_eq!(agg.health[0], before);
    agg.subscribe(0);
    assert_eq!(agg.health[0], before);
    assert_eq!(agg.health[0].consecutive_failures, 2);
}
