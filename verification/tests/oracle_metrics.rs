use dexbot::errors::CoreError;
use dexbot::metrics::{calculate_average_latency, calculate_success_rate, MetricsState};
use dexbot::oracle::{get_best_price, validate_pyth_price, OracleQuote};

#[test]
fn oracle_blend_weighs_the_tighter_confidence_more() {
    // price 100 with width 2 (tight) against price 200 with width 6 (loose):
    // (100*6 + 200*2) / (2+6) = 125, closer to the tight source
    let a = OracleQuote { price: 100, confidence: 2 };
    let b = OracleQuote { price: 200, confidence: 6 };
    assert_eq!(get_best_price(Some(a), Some(b)), Ok(125));
    // equal widths blend to the plain average, zero widths too
    let c = OracleQuote { price: 100, confidence: 4 };
    let d = OracleQuote { price: 200, confidence: 4 };
    assert_eq!(get_best_price(Some(c), Some(d)), Ok(150));
    let e = OracleQuote { price: 100, confidence: 0 };
    let f = OracleQuote { price: 200, confidence: 0 };
    assert_eq!(get_best_price(Some(e), Some(f)), Ok(150));
}

#[test]
fn oracle_blend_uses_the_single_fresh_source() {
    let a = OracleQuote { price: 100, confidence: 2 };
    assert_eq!(get_best_price(Some(a), None), Ok(100));
    assert_eq!(get_best_price(None, Some(a)), Ok(100));
    assert_eq!(get_best_price(None, None), Err(CoreError::NoPriceAvailable));
}

#[test]
fn pyth_price_validation_bounds_the_confidence_width() {
    // valid: positive price and width, width under a tenth of the price
    assert!(validate_pyth_price(1_000, 99));
    // a width of exactly a tenth is too wide
    assert!(!validate_pyth_price(1_000, 100));
    assert!(!validate_pyth_price(0, 1));
    assert!(!validate_pyth_price(1_000, 0));
}

#[test]
fn test_metrics() {
    let mut metrics = MetricsState::new();

    // trade recording: volume 100.0 in tenths, success, 100 ms latency
    metrics.record_trade(1_000, true, 100);
    assert_eq!(metrics.trade.num_trades, 1);
    assert_eq!(metrics.trade.successful_trades, 1);
    assert_eq!(metrics.trade.failed_trades, 0);
    assert_eq!(metrics.trade.total_volume, 1_000);
    assert_eq!(metrics.trade.average_trade_size, 1_000);

    // LP position recording: value 1000.0, fees 10.0
    metrics.record_lp_position(1, 10_000, 100);
    assert_eq!(metrics.lp.total_lp_value, 10_000);
    assert_eq!(metrics.lp.total_fees_earned, 100);
    assert_eq!(metrics.lp.position_values, vec![(1, 10_000)]);

    // rebalance recording
    metrics.record_rebalance();
    assert_eq!(metrics.lp.rebalance_count, 1);

    // performance metrics: 1 MiB memory, 50% cpu
    metrics.update_performance_metrics(1024 * 1024, 500_000, 42);
    assert_eq!(metrics.perf.memory_usage, 1024 * 1024);
    assert_eq!(metrics.perf.cpu_usage_ppm, 500_000);
    assert_eq!(metrics.perf.start_time, Some(42));
    assert_eq!(metrics.perf.uptime_ms, 0);
    metrics.update_performance_metrics(1024 * 1024, 500_000, 142);
    assert_eq!(metrics.perf.uptime_ms, 100);

    // error recording
    metrics.record_error();
    assert_eq!(metrics.perf.error_count, 1);
}

#[test]
fn average_trade_size_tracks_the_running_totals() {
    let mut m = MetricsState::new();
    m.record_trade(10, true, 5);
    m.record_trade(25, false, 7);
    assert_eq!(m.trade.num_trades, 2);
    assert_eq!(m.trade.successful_trades, 1);
    assert_eq!(m.trade.failed_trades, 1);
    assert_eq!(m.trade.total_volume, 35);
    assert_eq!(m.trade.average_trade_size, 17);
    assert_eq!(m.trade.trade_latencies, vec![5, 7]);
}

#[test]
fn recording_a_known_position_updates_its_value_in_place() {
    let mut m = MetricsState::new();
    m.record_lp_position(7, 100, 1);
    m.record_lp_position(8, 50, 0);
    m.record_lp_position(7, 140, 2);
    assert_eq!(m.lp.position_values, vec![(7, 140), (8, 50)]);
    assert_eq!(m.lp.num_positions, 2);
    // the totals accumulate every report, as recorded
    assert_eq!(m.lp.total_lp_value, 290);
    assert_eq!(m.lp.total_fees_earned, 3);
}

#[test]
fn success_rate_is_exact_and_zero_on_no_trades() {
    assert_eq!(calculate_success_rate(0, 0), 0);
    assert_eq!(calculate_success_rate(1, 2), 500_000);
    assert_eq!(calculate_success_rate(1, 3), 333_333);
    assert_eq!(calculate_success_rate(3, 3), 1_000_000);
}

#[test]
fn test_average_latency_is_the_floor_mean() {
    assert_eq!(calculate_average_latency(&vec![]), 0);
    assert_eq!(calculate_average_latency(&vec![100]), 100);
    assert_eq!(calculate_average_latency(&vec![100, 101]), 100);
    assert_eq!(calculate_average_latency(&vec![3, 4, 6]), 4);
}
