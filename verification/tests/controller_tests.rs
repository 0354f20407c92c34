use vpp_sim::sim::controller::{Controller, GreedyController, NaiveRtController};
use vpp_sim::sim::types::{StepInput, StepState};

fn make_input(base_raw: i64, solar: i64, ev_req: i64, dr_req: i64, target: i64) -> StepInput {
    StepInput {
        timestep: 0,
        forecast_kw: target,
        target_kw: target,
        dr_requested_kw: dr_req,
        base_demand_raw_kw: base_raw,
        solar_kw: solar,
        ev_requested_kw: ev_req,
    }
}

fn make_state(max_charge: i64, max_discharge: i64, max_import: i64, max_export: i64) -> StepState {
    StepState {
        battery_soc: 500_000,
        battery_max_charge_kw: max_charge,
        battery_max_discharge_kw: max_discharge,
        max_import_kw: max_import,
        max_export_kw: max_export,
    }
}

// --- NaiveRtController ---

#[test]
fn discharges_when_load_above_target() {
    let input = make_input(3000, 0, 0, 0, 1000);
    let state = make_state(4000, 3000, 5000, 4000);
    let d = NaiveRtController.dispatch(&input, &state);
    assert_eq!(d.battery_setpoint_kw, -2000);
}

#[test]
fn charges_when_load_below_target() {
    let input = make_input(1000, 0, 0, 0, 2500);
    let state = make_state(4000, 3000, 5000, 4000);
    let d = NaiveRtController.dispatch(&input, &state);
    assert_eq!(d.battery_setpoint_kw, 1500);
}

#[test]
fn caps_flexible_load_when_import_cannot_be_met() {
    let input = make_input(6000, 0, 4000, 0, 0);
    let state = make_state(4000, 3000, 5000, 4000);
    let d = NaiveRtController.dispatch(&input, &state);
    assert_eq!(d.ev_cap_kw, 2000);
}

#[test]
fn keeps_flexible_load_when_import_feasible() {
    let input = make_input(2000, 0, 2500, 0, 0);
    let state = make_state(4000, 3000, 5000, 4000);
    let d = NaiveRtController.dispatch(&input, &state);
    assert_eq!(d.ev_cap_kw, 2500);
}

#[test]
fn constrained_setpoint_respects_import_limit() {
    let input = make_input(6000, 0, 0, 0, 1000);
    let state = make_state(4000, 3000, 5000, 4000);
    let d = NaiveRtController.dispatch(&input, &state);
    let feeder_kw = 6000 + d.battery_setpoint_kw;
    assert!(feeder_kw <= 5000);
}

#[test]
fn constrained_setpoint_battery_limited_when_infeasible() {
    let input = make_input(10_000, 0, 0, 0, 1000);
    let state = make_state(4000, 3000, 5000, 4000);
    let d = NaiveRtController.dispatch(&input, &state);
    assert_eq!(d.battery_setpoint_kw, -3000);
    let feeder_kw = 10_000 + d.battery_setpoint_kw;
    assert_eq!(feeder_kw, 7000);
}

#[test]
fn constrained_setpoint_respects_export_limit() {
    let input = make_input(0, -6000, 0, 0, -5000);
    let state = make_state(4000, 3000, 5000, 2000);
    let d = NaiveRtController.dispatch(&input, &state);
    let feeder_kw = -6000 + d.battery_setpoint_kw;
    assert!(feeder_kw >= -2000);
}

#[test]
fn demand_response_sheds_flexible_then_baseload() {
    let input = make_input(3000, 0, 2000, 4000, 0);
    let state = make_state(4000, 3000, 5000, 4000);
    let d = NaiveRtController.dispatch(&input, &state);
    assert_eq!(d.ev_after_dr_kw, 0);
    assert_eq!(d.base_demand_kw, 1000);
    assert_eq!(d.dr_achieved_kw, 4000);
}

#[test]
fn demand_response_limited_by_available_load() {
    let input = make_input(1000, 0, 500, 3000, 0);
    let state = make_state(4000, 3000, 5000, 4000);
    let d = NaiveRtController.dispatch(&input, &state);
    assert_eq!(d.ev_after_dr_kw, 0);
    assert_eq!(d.base_demand_kw, 0);
    assert_eq!(d.dr_achieved_kw, 1500);
}

// --- GreedyController ---

/// A greedy controller with baseline-like parameters: flat forecast and
/// target, a 10 kWh battery, one-hour steps, daylight from 6 to 18.
fn build_greedy() -> GreedyController {
    let forecast = vec![800i64; 24];
    let target = vec![800i64; 24];
    GreedyController::new(
        &forecast, &target, 10_000_000, 5000, 5000, 500_000, 950_000, 950_000, 1000, 5000, 6, 18,
    )
}

#[test]
fn greedy_dr_matches_naive() {
    let greedy = build_greedy();
    let input = make_input(3000, 0, 2000, 4000, 800);
    let state = make_state(5000, 5000, 5000, 4000);
    let d = greedy.dispatch(&input, &state);
    assert_eq!(d.ev_after_dr_kw, 0);
    assert_eq!(d.base_demand_kw, 1000);
    assert_eq!(d.dr_achieved_kw, 4000);
}

#[test]
fn greedy_respects_feeder_import_limit() {
    let greedy = build_greedy();
    let input = make_input(6000, 0, 0, 0, 1000);
    let state = make_state(5000, 5000, 5000, 4000);
    let d = greedy.dispatch(&input, &state);
    let feeder_kw = 6000 + d.battery_setpoint_kw;
    assert!(feeder_kw <= 5000);
}

#[test]
fn greedy_respects_battery_limits() {
    let greedy = build_greedy();
    let input = make_input(10_000, 0, 0, 0, 1000);
    let state = make_state(5000, 5000, 5000, 4000);
    let d = greedy.dispatch(&input, &state);
    assert!(d.battery_setpoint_kw >= -5000);
    assert!(d.battery_setpoint_kw <= 5000);
}

#[test]
fn greedy_throttles_charge_when_capacity_scarce() {
    let greedy = build_greedy();
    // At t=10 (solar), SOC almost full, lots of future solar demand:
    // greedy should charge less than naive to save room for later.
    let input = StepInput {
        timestep: 10,
        forecast_kw: 800,
        target_kw: 800,
        dr_requested_kw: 0,
        base_demand_raw_kw: 400,
        solar_kw: -4000,
        ev_requested_kw: 0,
    };
    let state = StepState {
        battery_soc: 900_000,
        battery_max_charge_kw: 5000,
        battery_max_discharge_kw: 5000,
        max_import_kw: 10_000,
        max_export_kw: 10_000,
    };

    let d_naive = NaiveRtController.dispatch(&input, &state);
    let d_greedy = greedy.dispatch(&input, &state);

    assert!(
        d_greedy.battery_setpoint_kw < d_naive.battery_setpoint_kw - 10,
        "greedy ({}) should charge less than naive ({}) at high SOC",
        d_greedy.battery_setpoint_kw,
        d_naive.battery_setpoint_kw,
    );
}

#[test]
fn greedy_matches_naive_when_no_future_demand() {
    let greedy = build_greedy();
    // At t=22 (night, past sunset) there is no future charge demand:
    // greedy matches naive.
    let input = StepInput {
        timestep: 22,
        forecast_kw: 800,
        target_kw: 800,
        dr_requested_kw: 0,
        base_demand_raw_kw: 1200,
        solar_kw: 0,
        ev_requested_kw: 0,
    };
    let state = StepState {
        battery_soc: 500_000,
        battery_max_charge_kw: 5000,
        battery_max_discharge_kw: 5000,
        max_import_kw: 10_000,
        max_export_kw: 10_000,
    };

    let d_naive = NaiveRtController.dispatch(&input, &state);
    let d_greedy = greedy.dispatch(&input, &state);

    assert!(
        (d_greedy.battery_setpoint_kw - d_naive.battery_setpoint_kw).abs() <= 10,
        "greedy ({}) should match naive ({}) when no future demand",
        d_greedy.battery_setpoint_kw,
        d_naive.battery_setpoint_kw,
    );
}

#[test]
fn greedy_solar_estimate_negative_during_daylight() {
    for t in 7..17 {
        let solar = GreedyController::estimate_solar_kw(t, 24, 6, 18, 5000);
        assert!(solar < 0, "solar should be negative at t={t}, got {solar}");
    }
}

#[test]
fn greedy_solar_estimate_zero_at_night() {
    for t in [0, 1, 2, 3, 4, 5, 18, 19, 20, 21, 22, 23] {
        let solar = GreedyController::estimate_solar_kw(t, 24, 6, 18, 5000);
        assert_eq!(solar, 0, "solar should be 0 at t={t}");
    }
}
