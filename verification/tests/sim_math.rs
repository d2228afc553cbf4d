use dexbot::config::EngineConfig;
use dexbot::errors::CoreError;
use dexbot::math::{average_u64, deviation_exceeds, deviation_reaches, ppm_of, sum_u64};
use dexbot::sim::{analyze_simulation_results, SimulationConfig, VolumeSimulator};

fn sim_config() -> SimulationConfig {
    SimulationConfig {
        num_wallets: 10,
        min_trade_size: 1_000,
        max_trade_size: 10_000,
        min_interval_ms: 1_000,
        max_interval_ms: 5_000,
        duration_ms: 10_000,
    }
}

#[test]
fn test_volume_simulation() {
    let simulator = VolumeSimulator::new(sim_config()).unwrap();
    let result = simulator.run_simulation(25);
    assert!(result.total_volume > 0);
    assert!(result.num_trades > 0);
    assert!(!result.wallet_volumes.is_empty());
    assert_eq!(result.num_trades, 25);
    assert_eq!(result.execution_times.len(), 25);
    assert_eq!(result.wallet_volumes.len(), 10);
    for t in &result.execution_times {
        assert!((50..200).contains(t));
    }
    assert!(result.total_volume >= 25 * 1_000);
    assert!(result.total_volume <= 25 * 10_000);
    assert_eq!(result.average_trade_size, result.total_volume / 25);
    let volume_across_wallets: u64 = result.wallet_volumes.iter().sum();
    assert_eq!(volume_across_wallets, result.total_volume);

    let analysis = analyze_simulation_results(&result);
    assert_eq!(analysis.total_volume, result.total_volume);
    assert_eq!(analysis.num_trades, 25);
    assert_eq!(analysis.average_trade_size, result.average_trade_size);
    assert!((50..200).contains(&analysis.average_execution_time_ms));
    assert_eq!(analysis.average_wallet_volume, result.total_volume / 10);
}

#[test]
fn simulator_rejects_unusable_configurations() {
    let mut bad = sim_config();
    bad.num_wallets = 0;
    assert!(matches!(VolumeSimulator::new(bad), Err(CoreError::ConfigurationError)));
    let mut bad2 = sim_config();
    bad2.min_trade_size = bad2.max_trade_size;
    assert!(matches!(VolumeSimulator::new(bad2), Err(CoreError::ConfigurationError)));
    let mut bad3 = sim_config();
    bad3.min_interval_ms = bad3.max_interval_ms + 1;
    assert!(matches!(VolumeSimulator::new(bad3), Err(CoreError::ConfigurationError)));
}

#[test]
fn random_draws_stay_in_their_ranges() {
    let sim = VolumeSimulator::new(sim_config()).unwrap();
    for _ in 0..50 {
        assert!(sim.select_random_wallet() < 10);
        assert!((1_000..10_000).contains(&sim.generate_trade_size()));
        assert!((1_000..5_000).contains(&sim.generate_delay()));
        assert!((50..200).contains(&sim.simulate_trade_execution()));
    }
}

#[test]
fn ppm_scaling_is_exact() {
    assert_eq!(ppm_of(1_000_000, 1_000), 1_000); // 0.1%
    assert_eq!(ppm_of(5_002_000, 1_000), 5_002);
    assert_eq!(ppm_of(u64::MAX, 1_000_000), u64::MAX);
    assert_eq!(ppm_of(77, 0), 0);
    assert_eq!(ppm_of(999, 500_000), 499); // rounds down
}

#[test]
fn deviation_comparisons_are_exact_at_the_boundary() {
    // 6% of 1_000 against a 5% threshold
    assert!(deviation_reaches(1_000, 1_060, 50_000));
    assert!(!deviation_reaches(1_000, 1_049, 50_000));
    assert!(deviation_reaches(1_000, 1_050, 50_000)); // inclusive
    assert!(!deviation_exceeds(1_000, 1_050, 50_000)); // strict
    assert!(deviation_exceeds(1_000, 1_051, 50_000));
    // deviation below the base works the same way
    assert!(deviation_reaches(1_000, 940, 50_000));
}

#[test]
fn sums_and_averages_are_exact() {
    assert_eq!(sum_u64(&vec![]), 0);
    assert_eq!(sum_u64(&vec![u64::MAX, u64::MAX]), 2 * (u64::MAX as u128));
    assert_eq!(average_u64(&vec![1, 2, 4]), 2);
    assert_eq!(average_u64(&vec![u64::MAX, u64::MAX]), u64::MAX);
}

#[test]
fn engine_config_validation_checks_every_bound() {
    let good = EngineConfig {
        min_profit_threshold: 100,
        max_trade_size: 1_000,
        min_trade_size: 10,
        price_impact_threshold_ppm: 10_000,
        slippage_tolerance_ppm: 5_000,
        rebalance_threshold_ppm: 50_000,
        staleness_window_ms: 1_000,
        book_staleness_bound_ms: 1_000,
        circuit_failure_limit: 3,
        circuit_cooldown_ms: 5_000,
        execution_deadline_ms: 2_000,
        max_opportunity_age_ms: 500,
        max_retry_attempts: 3,
        retry_backoff_base_ms: 100,
        harvest_interval_ms: 60_000,
    };
    assert!(good.validate().is_ok());
    let mut bad = good;
    bad.min_trade_size = 2_000;
    assert_eq!(bad.validate(), Err(CoreError::ConfigurationError));
    let mut bad2 = good;
    bad2.rebalance_threshold_ppm = 1_000_001;
    assert_eq!(bad2.validate(), Err(CoreError::ConfigurationError));
    let mut bad3 = good;
    bad3.circuit_failure_limit = 0;
    assert_eq!(bad3.validate(), Err(CoreError::ConfigurationError));
}
