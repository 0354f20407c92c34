use vpp_sim::devices::baseload::BaseLoad;
use vpp_sim::devices::battery::Battery;
use vpp_sim::devices::ev_charger::EvCharger;
use vpp_sim::devices::solar::SolarPv;
use vpp_sim::devices::types::{DeviceContext, Solar};
use vpp_sim::forecast::NaiveForecast;
use vpp_sim::sim::controller::{GreedyController, NaiveRtController};
use vpp_sim::sim::engine::Engine;
use vpp_sim::sim::event::DemandResponseEvent;
use vpp_sim::sim::feeder::Feeder;
use vpp_sim::sim::kpi::KpiReport;
use vpp_sim::sim::schedule::DayAheadSchedule;
use vpp_sim::sim::types::{SimConfig, StepResult};

/// The one-day baseline forecast the engines plan with.
fn baseline_forecast(steps_per_day: usize, seed: u64) -> Vec<i64> {
    let mut profile = BaseLoad::new(800, 700, 191, 50, steps_per_day, seed);
    let mut baseline = Vec::new();
    for t in 0..steps_per_day {
        baseline.push(profile.power_kw(&DeviceContext::new(t)));
    }
    NaiveForecast.forecast(&baseline, steps_per_day)
}

fn baseline_engine_naive(seed: u64) -> Engine<NaiveRtController> {
    let config = SimConfig::new(24, 1, seed);
    let forecast = baseline_forecast(24, seed);
    let target = DayAheadSchedule::flat_target(&forecast);
    Engine::new(
        config,
        BaseLoad::new(800, 700, 191, 50, 24, seed),
        Solar::Simple(SolarPv::new(5000, 24, 6, 18, 50, seed.wrapping_add(1))),
        Battery::new(10_000_000, 5_000_000, 5000, 5000, 950_000, 950_000, 24),
        EvCharger::new(7200, 4_000_000, 14_000_000, 3, 10, 24, seed.wrapping_add(2)),
        Feeder::with_limits("MainFeeder", 5000, 4000),
        NaiveRtController,
        forecast,
        target,
        DemandResponseEvent::new(17, 21, 1500),
    )
}

fn baseline_engine_greedy(seed: u64) -> Engine<GreedyController> {
    let config = SimConfig::new(24, 1, seed);
    let forecast = baseline_forecast(24, seed);
    let target = DayAheadSchedule::flat_target(&forecast);
    let controller = GreedyController::new(
        &forecast, &target, 10_000_000, 5000, 5000, 500_000, 950_000, 950_000, 1000, 5000, 6, 18,
    );
    Engine::new(
        config,
        BaseLoad::new(800, 700, 191, 50, 24, seed),
        Solar::Simple(SolarPv::new(5000, 24, 6, 18, 50, seed.wrapping_add(1))),
        Battery::new(10_000_000, 5_000_000, 5000, 5000, 950_000, 950_000, 24),
        EvCharger::new(7200, 4_000_000, 14_000_000, 3, 10, 24, seed.wrapping_add(2)),
        Feeder::with_limits("MainFeeder", 5000, 4000),
        controller,
        forecast,
        target,
        DemandResponseEvent::new(17, 21, 1500),
    )
}

fn rmse_milli(results: &Vec<StepResult>) -> i64 {
    KpiReport::from_results(results, 1000, 10_000_000).rmse_tracking_kw
}

#[test]
fn two_engines_same_seed_produce_identical_step_vectors() {
    let mut a = baseline_engine_naive(42);
    let mut b = baseline_engine_naive(42);
    let ra = a.run();
    let rb = b.run();
    assert_eq!(ra.len(), 24);
    assert_eq!(ra, rb);
}

#[test]
fn different_seeds_produce_different_runs() {
    let mut a = baseline_engine_naive(42);
    let mut b = baseline_engine_naive(43);
    let ra = a.run();
    let rb = b.run();
    assert_ne!(ra, rb);
}

#[test]
fn every_step_satisfies_the_universal_invariants() {
    let mut engine = baseline_engine_naive(42);
    let results = engine.run();
    for r in &results {
        // Feeder balance: the net load is the plain sum of the four flows.
        assert_eq!(
            r.feeder_kw,
            r.base_kw_after_dr + r.ev_actual_kw + r.solar_kw + r.battery_actual_kw
        );
        // Sign conventions.
        assert!(r.base_kw_raw >= 0);
        assert!(r.solar_kw <= 0);
        assert!(r.ev_actual_kw >= 0);
        // SOC bounds.
        assert!(r.battery_soc >= 0 && r.battery_soc <= 1_000_000);
        // DR bounds.
        assert!(r.dr_achieved_kw >= 0 && r.dr_achieved_kw <= r.dr_requested_kw);
        assert!(r.dr_achieved_kw <= r.base_kw_raw + r.ev_requested_kw);
        // Battery rate bounds.
        assert!(r.battery_actual_kw >= -5000 && r.battery_actual_kw <= 5000);
        // EV rate bounds.
        assert!(r.ev_actual_kw <= r.ev_cap_kw.max(0) && r.ev_actual_kw <= 7200);
        // Tracking error definition.
        assert_eq!(r.tracking_error_kw, r.feeder_kw - r.target_kw);
    }
}

#[test]
fn solar_strictly_negative_inside_daylight_with_real_peak() {
    let mut engine = baseline_engine_naive(42);
    let results = engine.run();
    for r in &results {
        let day_t = r.timestep % 24;
        // Strictly inside the daylight window, with a 5 kW array, the
        // simple model generates unless the noise multiplier collapses;
        // with the baseline noise of 5 percent it never does.
        if day_t > 6 && day_t < 18 {
            assert!(r.solar_kw < 0, "solar should generate at t={}", r.timestep);
        }
    }
}

#[test]
fn greedy_beats_naive_on_baseline_tracking() {
    let mut naive = baseline_engine_naive(42);
    let mut greedy = baseline_engine_greedy(42);
    let rmse_naive = rmse_milli(&naive.run());
    let rmse_greedy = rmse_milli(&greedy.run());
    assert!(
        rmse_greedy * 10 <= rmse_naive * 9,
        "greedy RMSE ({rmse_greedy}) should be at most 0.9x naive RMSE ({rmse_naive})"
    );
}

#[test]
fn battery_energy_conserved_at_unit_efficiency() {
    // With both efficiencies at one, the stored energy moves by exactly
    // the summed grid-side battery energy.
    let config = SimConfig::new(24, 1, 7);
    let forecast = baseline_forecast(24, 7);
    let target = DayAheadSchedule::flat_target(&forecast);
    let mut engine = Engine::new(
        config,
        BaseLoad::new(800, 700, 191, 50, 24, 7),
        Solar::Simple(SolarPv::new(5000, 24, 6, 18, 50, 8)),
        Battery::new(10_000_000, 5_000_000, 5000, 5000, 1_000_000, 1_000_000, 24),
        EvCharger::new(7200, 4_000_000, 14_000_000, 3, 10, 24, 9),
        Feeder::with_limits("MainFeeder", 5000, 4000),
        NaiveRtController,
        forecast,
        target,
        DemandResponseEvent::new(17, 21, 1500),
    );
    let initial_stored = engine.battery().stored_kwh;
    let results = engine.run();
    let moved: i64 = results.iter().map(|r| r.battery_actual_kw * 1000).sum();
    assert_eq!(engine.battery().stored_kwh, initial_stored + moved);
}

#[test]
fn multi_day_run_counts_every_step() {
    let config = SimConfig::new(24, 3, 42);
    let forecast = baseline_forecast(24, 42);
    let target = DayAheadSchedule::flat_target(&forecast);
    let mut engine = Engine::new(
        config,
        BaseLoad::new(800, 700, 191, 50, 24, 42),
        Solar::Simple(SolarPv::new(5000, 24, 6, 18, 50, 43)),
        Battery::new(10_000_000, 5_000_000, 5000, 5000, 950_000, 950_000, 24),
        EvCharger::new(7200, 4_000_000, 14_000_000, 3, 10, 24, 44),
        Feeder::with_limits("MainFeeder", 5000, 4000),
        NaiveRtController,
        forecast,
        target,
        DemandResponseEvent::new(17, 21, 1500),
    );
    let results = engine.run();
    assert_eq!(results.len(), 72);
    for (t, r) in results.iter().enumerate() {
        assert_eq!(r.timestep, t);
        assert_eq!(r.time_hr, t as i64 * 1000);
    }
}
