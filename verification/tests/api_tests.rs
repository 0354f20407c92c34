use vpp_sim::api::handlers::{default_step, state_response, telemetry_range};
use vpp_sim::api::types::TelemetryRecord;
use vpp_sim::api::{parse_from_to, parse_usize_param, route, split_target, Route};
use vpp_sim::cli::parse_options;
use vpp_sim::sim::kpi::KpiReport;
use vpp_sim::sim::types::{SimConfig, StepResult};

fn make_step_result() -> StepResult {
    StepResult {
        timestep: 5,
        time_hr: 5000,
        base_kw_raw: 1000,
        base_kw_after_dr: 900,
        solar_kw: -2500,
        ev_requested_kw: 3000,
        ev_after_dr_kw: 2500,
        ev_cap_kw: 2500,
        ev_actual_kw: 2400,
        battery_setpoint_kw: -1000,
        battery_actual_kw: -950,
        battery_soc: 480_000,
        feeder_kw: -150,
        target_kw: 0,
        tracking_error_kw: -150,
        dr_requested_kw: 500,
        dr_achieved_kw: 400,
        within_feeder_limits: true,
        imbalance_cost: 15,
    }
}

#[test]
fn parses_query_range() {
    assert_eq!(
        parse_from_to("from=1&to=3").expect("query should parse"),
        (Some(1), Some(3))
    );
    assert_eq!(
        parse_from_to("").expect("empty query should parse"),
        (None, None)
    );
}

#[test]
fn rejects_invalid_query_range() {
    assert!(parse_from_to("from=abc").is_err());
    assert!(parse_from_to("from=5&to=1").is_err());
}

#[test]
fn later_query_values_win() {
    assert_eq!(
        parse_from_to("from=1&from=2&to=9").expect("query should parse"),
        (Some(2), Some(9))
    );
    // Unknown keys and empty pairs are ignored.
    assert_eq!(
        parse_from_to("&&skip=7&to=3&").expect("query should parse"),
        (None, Some(3))
    );
}

#[test]
fn parse_usize_param_accepts_digits() {
    assert_eq!(parse_usize_param("from", "42"), Ok(42));
    assert!(parse_usize_param("from", "").is_err());
    assert!(parse_usize_param("from", "4x2").is_err());
}

#[test]
fn split_target_separates_path_and_query() {
    let (path, query) = split_target("/telemetry?from=1&to=3");
    assert_eq!(path, "/telemetry");
    assert_eq!(query, "from=1&to=3");
    let (path, query) = split_target("/state");
    assert_eq!(path, "/state");
    assert_eq!(query, "");
}

#[test]
fn telemetry_record_from_step_result_maps_fields() {
    let step = make_step_result();
    let record = TelemetryRecord::from(&step);

    assert_eq!(record.timestep, 5);
    assert_eq!(record.time_hr, 5000);
    assert_eq!(record.target_kw, 0);
    assert_eq!(record.feeder_kw, -150);
    assert_eq!(record.tracking_error_kw, -150);
    // CSV schema v1 renames
    assert_eq!(record.baseload_kw, 900); // base_kw_after_dr
    assert_eq!(record.solar_kw, -2500);
    assert_eq!(record.ev_requested_kw, 3000);
    assert_eq!(record.ev_dispatched_kw, 2400); // ev_actual_kw
    assert_eq!(record.battery_kw, -950); // battery_actual_kw
    assert_eq!(record.battery_soc, 480_000);
    assert_eq!(record.dr_requested_kw, 500);
    assert_eq!(record.dr_achieved_kw, 400);
    assert!(record.limit_ok); // within_feeder_limits
    assert_eq!(record.imbalance_cost, 15);
}

#[test]
fn telemetry_range_filters_inclusively() {
    let results: Vec<StepResult> = (0..24)
        .map(|t| {
            let mut r = make_step_result();
            r.timestep = t;
            r
        })
        .collect();
    let all = telemetry_range(&results, 0, usize::MAX);
    assert_eq!(all.len(), 24);
    let window = telemetry_range(&results, 5, 10);
    assert_eq!(window.len(), 6); // timesteps 5,6,7,8,9,10
    assert_eq!(window[0].timestep, 5);
    assert_eq!(window[5].timestep, 10);
}

#[test]
fn state_response_uses_latest_step() {
    let results: Vec<StepResult> = (0..3)
        .map(|t| {
            let mut r = make_step_result();
            r.timestep = t;
            r
        })
        .collect();
    let config = SimConfig::new(24, 1, 42);
    let kpi = KpiReport::from_results(&results, config.dt_mh, 10_000_000);
    let state = state_response(&config, &kpi, &results);
    assert_eq!(state.latest_step.timestep, 2);

    let empty: Vec<StepResult> = Vec::new();
    let kpi_empty = KpiReport::from_results(&empty, config.dt_mh, 10_000_000);
    let state = state_response(&config, &kpi_empty, &empty);
    assert_eq!(state.latest_step.timestep, 0);
    assert_eq!(state.latest_step.feeder_kw, 0);
    let d = default_step();
    assert_eq!(d.timestep, 0);
    assert!(d.within_feeder_limits);
}

#[test]
fn supports_scenario_cli() {
    let opts = parse_options(&vec!["--scenario".to_string(), "scenario.toml".to_string()])
        .expect("parse should succeed");
    assert_eq!(opts.scenario.as_deref(), Some("scenario.toml"));
    assert!(opts.preset.is_none());
}

#[test]
fn supports_preset_cli() {
    let opts = parse_options(&vec!["--preset".to_string(), "baseline".to_string()])
        .expect("parse should succeed");
    assert_eq!(opts.preset.as_deref(), Some("baseline"));
    assert!(opts.scenario.is_none());
}

#[test]
fn supports_api_bind_cli() {
    let opts = parse_options(&vec![
        "--preset".to_string(),
        "baseline".to_string(),
        "--api-bind".to_string(),
        "127.0.0.1:8080".to_string(),
    ])
    .expect("parse should succeed");
    assert_eq!(opts.api_bind.as_deref(), Some("127.0.0.1:8080"));
}

#[test]
fn rejects_conflicting_or_malformed_cli() {
    assert!(parse_options(&vec![
        "--scenario".to_string(),
        "a.toml".to_string(),
        "--preset".to_string(),
        "baseline".to_string(),
    ])
    .is_err());
    assert!(parse_options(&vec!["--preset".to_string()]).is_err());
    assert!(parse_options(&vec!["--bogus".to_string()]).is_err());
    assert!(parse_options(&vec![
        "--preset".to_string(),
        "a".to_string(),
        "--preset".to_string(),
        "b".to_string(),
    ])
    .is_err());
}

#[test]
fn routes_requests_by_method_and_path() {
    assert_eq!(route("GET", "/state"), Route::State);
    assert_eq!(route("GET", "/telemetry"), Route::Telemetry);
    assert_eq!(route("GET", "/nope"), Route::NotFound);
    assert_eq!(route("POST", "/state"), Route::MethodNotAllowed);
}
