use vpp_sim::forecast::NaiveForecast;
use vpp_sim::sim::event::DemandResponseEvent;
use vpp_sim::sim::feeder::Feeder;
use vpp_sim::sim::kpi::KpiReport;
use vpp_sim::sim::power_balance::feeder_net_kw;
use vpp_sim::sim::schedule::DayAheadSchedule;
use vpp_sim::sim::types::{SimConfig, StepResult};

// --- SimConfig ---

#[test]
fn sim_config_basic() {
    let cfg = SimConfig::new(24, 1, 42);
    assert_eq!(cfg.steps_per_day, 24);
    assert_eq!(cfg.days, 1);
    assert_eq!(cfg.dt_mh, 1000); // one hour per step
    assert_eq!(cfg.seed, 42);
    assert_eq!(cfg.total_steps(), 24);
}

#[test]
fn sim_config_multi_day() {
    let cfg = SimConfig::new(48, 3, 0);
    assert_eq!(cfg.total_steps(), 144);
    assert_eq!(cfg.dt_mh, 500); // half an hour per step
}

// --- Feeder ---

#[test]
fn test_new_feeder_defaults() {
    let feeder = Feeder::new("FeederA");
    assert_eq!(feeder.name(), "FeederA");
    assert_eq!(feeder.net_kw(), 0);
    assert_eq!(feeder.max_import_kw(), i64::MAX);
    assert_eq!(feeder.max_export_kw(), i64::MAX);
}

#[test]
fn test_with_limits() {
    let feeder = Feeder::with_limits("FeederA", 5000, 3000);
    assert_eq!(feeder.max_import_kw(), 5000);
    assert_eq!(feeder.max_export_kw(), 3000);
    assert_eq!(feeder.min_net_kw(), -3000);
    assert_eq!(feeder.max_net_kw(), 5000);
}

#[test]
fn test_aggregate_net_kw() {
    let mut feeder = Feeder::new("FeederA");
    feeder.add_net_kw(3500); // load
    feeder.add_net_kw(-1000); // generation
    feeder.add_net_kw(500);
    assert_eq!(feeder.net_kw(), 3000);
}

#[test]
fn test_reset_clears_net_kw() {
    let mut feeder = Feeder::new("FeederA");
    feeder.add_net_kw(2000);
    feeder.reset();
    assert_eq!(feeder.net_kw(), 0);
}

#[test]
fn test_within_limits() {
    let mut feeder = Feeder::with_limits("FeederA", 4000, 2000);
    feeder.add_net_kw(3500);
    assert!(feeder.within_limits());

    feeder.add_net_kw(1000);
    assert!(!feeder.within_limits());

    feeder.reset();
    feeder.add_net_kw(-2500);
    assert!(!feeder.within_limits());
}

// --- Power balance ---

#[test]
fn all_loads_positive() {
    let net = feeder_net_kw(1000, 2000, 0, 0);
    assert_eq!(net, 3000);
}

#[test]
fn solar_reduces_feeder() {
    let net = feeder_net_kw(1000, 0, -3000, 0);
    assert_eq!(net, -2000);
}

#[test]
fn battery_discharge_reduces_feeder() {
    let net = feeder_net_kw(2000, 0, 0, -1500);
    assert_eq!(net, 500);
}

#[test]
fn mixed_scenario() {
    // base 0.8, ev 3.0, solar -2.5, battery -1.0 sums to 0.3 kW
    let net = feeder_net_kw(800, 3000, -2500, -1000);
    assert_eq!(net, 300);
}

// --- Demand response event ---

#[test]
fn active_only_inside_window() {
    let event = DemandResponseEvent::new(5, 8, 2000);
    assert!(!event.is_active(4));
    assert!(event.is_active(5));
    assert!(event.is_active(7));
    assert!(!event.is_active(8));
}

#[test]
fn reduction_is_zero_outside_window() {
    let event = DemandResponseEvent::new(10, 12, 1500);
    assert_eq!(event.requested_reduction_at_kw(9), 0);
    assert_eq!(event.requested_reduction_at_kw(10), 1500);
    assert_eq!(event.requested_reduction_at_kw(11), 1500);
    assert_eq!(event.requested_reduction_at_kw(12), 0);
}

// --- Day-ahead schedule ---

#[test]
fn flat_target_matches_length() {
    let forecast = vec![1000, 2000, 3000, 4000];
    let schedule = DayAheadSchedule::flat_target(&forecast);
    assert_eq!(schedule.len(), forecast.len());
}

#[test]
fn flat_target_is_average() {
    let forecast = vec![1000, 2000, 3000];
    let schedule = DayAheadSchedule::flat_target(&forecast);
    assert_eq!(schedule, vec![2000, 2000, 2000]);
}

// --- Forecast ---

#[test]
fn forecast_matches_horizon_length() {
    let baseline = vec![1000, 2000, 3000];
    let forecast = NaiveForecast.forecast(&baseline, 7);
    assert_eq!(forecast.len(), 7);
}

#[test]
fn forecast_copies_baseline_when_equal() {
    let baseline = vec![500, 1000, 1500, 2000];
    let forecast = NaiveForecast.forecast(&baseline, baseline.len());
    assert_eq!(forecast, baseline);
}

#[test]
fn forecast_repeats_baseline_cyclically() {
    let baseline = vec![1, 2, 3];
    let forecast = NaiveForecast.forecast(&baseline, 7);
    assert_eq!(forecast, vec![1, 2, 3, 1, 2, 3, 1]);
}

// --- KPI report ---

fn make_result(tracking_error_kw: i64, battery_actual_kw: i64, feeder_kw: i64) -> StepResult {
    make_result_with_cost(tracking_error_kw, battery_actual_kw, feeder_kw, 0)
}

fn make_result_with_cost(
    tracking_error_kw: i64,
    battery_actual_kw: i64,
    feeder_kw: i64,
    imbalance_cost: i64,
) -> StepResult {
    StepResult {
        timestep: 0,
        time_hr: 0,
        base_kw_raw: 0,
        base_kw_after_dr: 0,
        solar_kw: 0,
        ev_requested_kw: 0,
        ev_after_dr_kw: 0,
        ev_cap_kw: 0,
        ev_actual_kw: 0,
        battery_setpoint_kw: 0,
        battery_actual_kw,
        battery_soc: 500_000,
        feeder_kw,
        target_kw: feeder_kw - tracking_error_kw,
        tracking_error_kw,
        dr_requested_kw: 0,
        dr_achieved_kw: 0,
        within_feeder_limits: true,
        imbalance_cost,
    }
}

#[test]
fn rmse_computation() {
    // errors 1, -1, 2, -2 kW: mean square is 2.5 kW^2, so the rounded-down
    // root in milli-kW is 1581.
    let results: Vec<StepResult> = [1000, -1000, 2000, -2000]
        .iter()
        .map(|&e| make_result(e, 0, e))
        .collect();
    let kpi = KpiReport::from_results(&results, 1000, 10_000_000);
    assert_eq!(kpi.rmse_tracking_kw, 1581);
}

#[test]
fn battery_throughput() {
    // battery powers 2, -3, 1, -1 kW over one-hour steps: 7 kWh moved.
    let results: Vec<StepResult> = [2000, -3000, 1000, -1000]
        .iter()
        .map(|&b| make_result(0, b, 0))
        .collect();
    let kpi = KpiReport::from_results(&results, 1000, 10_000_000);
    assert_eq!(kpi.battery_throughput_kwh, 7_000_000);
    // 7 kWh over 2 * 10 kWh: 0.35 equivalent full cycles.
    assert_eq!(kpi.battery_equivalent_full_cycles, 350);
}

#[test]
fn feeder_violation_counting() {
    let mut results = vec![make_result(0, 0, 3000); 5];
    results[1].within_feeder_limits = false;
    results[3].within_feeder_limits = false;
    let kpi = KpiReport::from_results(&results, 1000, 10_000_000);
    assert_eq!(kpi.feeder_violation_count, 2);
}

#[test]
fn peak_import_and_export() {
    let results: Vec<StepResult> = [3000, -2000, 5000, -1000]
        .iter()
        .map(|&f| make_result(0, 0, f))
        .collect();
    let kpi = KpiReport::from_results(&results, 1000, 10_000_000);
    assert_eq!(kpi.peak_import_kw, 5000);
    assert_eq!(kpi.peak_export_kw, 2000);
}

#[test]
fn empty_results() {
    let kpi = KpiReport::from_results(&Vec::new(), 1000, 10_000_000);
    assert_eq!(kpi.rmse_tracking_kw, 0);
    assert_eq!(kpi.feeder_violation_count, 0);
    assert_eq!(kpi.total_imbalance_cost, 0);
}

#[test]
fn imbalance_cost_single_step() {
    // price 0.10/kWh, |error| 2 kW, one hour: cost 0.20 units, which is
    // 200000 micro-units.
    let r = make_result_with_cost(2000, 0, 2000, 200_000);
    let kpi = KpiReport::from_results(&vec![r], 1000, 10_000_000);
    assert_eq!(kpi.total_imbalance_cost, 200_000);
}

#[test]
fn imbalance_cost_aggregation() {
    // costs 0.10, 0.25 and 0.05 units total 0.40 units.
    let results = vec![
        make_result_with_cost(1000, 0, 1000, 100_000),
        make_result_with_cost(-2500, 0, -2500, 250_000),
        make_result_with_cost(500, 0, 500, 50_000),
    ];
    let kpi = KpiReport::from_results(&results, 1000, 10_000_000);
    assert_eq!(kpi.total_imbalance_cost, 400_000);
}

#[test]
fn curtailment_share() {
    let mut a = make_result(0, 0, 0);
    a.dr_requested_kw = 2000;
    a.dr_achieved_kw = 1000;
    let mut b = make_result(0, 0, 0);
    b.dr_requested_kw = 2000;
    b.dr_achieved_kw = 2000;
    let kpi = KpiReport::from_results(&vec![a, b], 1000, 10_000_000);
    // 3 kW of 4 kW requested: 75 percent, in milli-percent.
    assert_eq!(kpi.curtailment_pct, 75_000);
}
