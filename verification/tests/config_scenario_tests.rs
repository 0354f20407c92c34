use vpp_sim::config::ScenarioConfig;
use vpp_sim::runner::{run_scenario, SimRunner};
use vpp_sim::scenario::ScenarioConfig as FlatScenario;
use vpp_sim::scenario::{find_value, parse_u32, parse_u64, parse_usize};
use vpp_sim::telemetry::write_telemetry_csv;

// --- Rich configuration ---

#[test]
fn baseline_preset_valid() {
    let cfg = ScenarioConfig::baseline();
    let errors = cfg.validate();
    assert!(errors.is_empty(), "baseline should be valid");
}

#[test]
fn from_preset_baseline() {
    let cfg = ScenarioConfig::from_preset("baseline");
    assert!(cfg.is_ok());
}

#[test]
fn from_preset_unknown() {
    let err = ScenarioConfig::from_preset("nonexistent");
    assert!(err.is_err());
    let e = err.unwrap_err();
    assert!(e.message.contains("unknown preset"));
}

#[test]
fn validation_catches_zero_steps() {
    let mut cfg = ScenarioConfig::baseline();
    cfg.simulation.steps_per_day = 0;
    let errors = cfg.validate();
    assert!(errors.iter().any(|e| e.field == "simulation.steps_per_day"));
}

#[test]
fn validation_catches_invalid_soc() {
    let mut cfg = ScenarioConfig::baseline();
    cfg.battery.initial_soc = 1_500_000;
    let errors = cfg.validate();
    assert!(errors.iter().any(|e| e.field == "battery.initial_soc"));
}

#[test]
fn validation_catches_bad_controller() {
    let mut cfg = ScenarioConfig::baseline();
    cfg.simulation.controller = "bogus".to_string();
    let errors = cfg.validate();
    assert!(errors.iter().any(|e| e.field == "simulation.controller"));
}

#[test]
fn validation_accepts_greedy_controller() {
    let mut cfg = ScenarioConfig::baseline();
    cfg.simulation.controller = "greedy".to_string();
    let errors = cfg.validate();
    assert!(errors.is_empty(), "greedy controller should be valid");
}

#[test]
fn validation_catches_bad_solar_model() {
    let mut cfg = ScenarioConfig::baseline();
    cfg.solar.model = "v3".to_string();
    let errors = cfg.validate();
    assert!(errors.iter().any(|e| e.field == "solar.model"));
}

#[test]
fn validation_catches_inverted_daylight_window() {
    let mut cfg = ScenarioConfig::baseline();
    cfg.solar.sunrise_idx = 18;
    cfg.solar.sunset_idx = 6;
    let errors = cfg.validate();
    assert!(errors.iter().any(|e| e.field == "solar.sunrise_idx"));
}

#[test]
fn validation_catches_sunset_beyond_day() {
    let mut cfg = ScenarioConfig::baseline();
    cfg.solar.sunset_idx = 25;
    let errors = cfg.validate();
    assert!(errors.iter().any(|e| e.field == "solar.sunset_idx"));
}

#[test]
fn validation_catches_inverted_dwell() {
    let mut cfg = ScenarioConfig::baseline();
    cfg.ev.dwell_steps_min = 11;
    cfg.ev.dwell_steps_max = 10;
    let errors = cfg.validate();
    assert!(errors.iter().any(|e| e.field == "ev.dwell_steps_min"));
}

#[test]
fn validation_catches_inverted_dr_window() {
    let mut cfg = ScenarioConfig::baseline();
    cfg.dr_event.start_step = 22;
    cfg.dr_event.end_step = 21;
    let errors = cfg.validate();
    assert!(errors.iter().any(|e| e.field == "dr_event.start_step"));
}

#[test]
fn all_presets_are_valid() {
    for name in ScenarioConfig::presets() {
        let cfg = ScenarioConfig::from_preset(name.as_str());
        assert!(cfg.is_ok(), "preset \"{name}\" should load");
        let errors = cfg.as_ref().map(|c| c.validate()).unwrap_or_default();
        assert!(errors.is_empty(), "preset \"{name}\" should be valid");
    }
}

#[test]
fn high_solar_has_larger_pv() {
    let base = ScenarioConfig::baseline();
    let high = ScenarioConfig::high_solar();
    assert!(high.solar.kw_peak > base.solar.kw_peak);
    assert_eq!(high.solar.model, "ar1");
}

#[test]
fn dr_stress_has_tighter_limits() {
    let base = ScenarioConfig::baseline();
    let dr = ScenarioConfig::dr_stress();
    assert!(dr.feeder.max_import_kw < base.feeder.max_import_kw);
    assert!(dr.dr_event.requested_reduction_kw > base.dr_event.requested_reduction_kw);
}

// --- Flat scenario ---

#[test]
fn scenario_validation_includes_offending_key_path() {
    let value = vec![("houses".to_string(), 0i64)];
    let err = FlatScenario::from_kv_pairs(&value).expect_err("must fail");
    assert!(err.contains("$.houses"));
}

#[test]
fn unknown_key_reports_path() {
    let value = vec![("bad_key".to_string(), 1i64)];
    let err = FlatScenario::from_kv_pairs(&value).expect_err("must fail");
    assert!(err.contains("$.bad_key"));
}

#[test]
fn kv_pairs_fill_defaults() {
    let value = vec![("houses".to_string(), 2i64), ("feeder_kw".to_string(), 10_500i64)];
    let cfg = FlatScenario::from_kv_pairs(&value).expect("decode");
    assert_eq!(cfg.houses, 2);
    assert_eq!(cfg.feeder_kw, 10_500);
    assert_eq!(cfg.seed, 42);
    assert_eq!(cfg.steps_per_day, 24);
}

#[test]
fn find_value_takes_first_match() {
    let pairs = vec![
        ("houses".to_string(), 2i64),
        ("seed".to_string(), 9i64),
        ("houses".to_string(), 5i64),
    ];
    assert_eq!(find_value(&pairs, "houses"), Some(2));
    assert_eq!(find_value(&pairs, "seed"), Some(9));
    assert_eq!(find_value(&pairs, "feeder_kw"), None);
}

#[test]
fn scenario_preset_demo_loads() {
    let cfg = FlatScenario::from_preset("demo").expect("demo preset");
    assert!(cfg.houses > 0);
    assert!(FlatScenario::from_preset("nope").is_err());
}

// --- Scenario field parsers ---

#[test]
fn parse_u32_defaults_and_ranges() {
    assert_eq!(parse_u32(None, "$.houses", 1), Ok(1));
    assert_eq!(parse_u32(Some("7"), "$.houses", 1), Ok(7));
    assert!(parse_u32(Some("x"), "$.houses", 1).is_err());
    assert!(parse_u32(Some("4294967296"), "$.houses", 1).is_err());
}

#[test]
fn parse_u64_defaults_and_ranges() {
    assert_eq!(parse_u64(None, "$.seed", 42), Ok(42));
    assert_eq!(parse_u64(Some("123456789012345"), "$.seed", 42), Ok(123456789012345));
    assert!(parse_u64(Some(""), "$.seed", 42).is_err());
}

#[test]
fn parse_usize_defaults_and_ranges() {
    assert_eq!(parse_usize(None, "$.steps_per_day", 24), Ok(24));
    assert_eq!(parse_usize(Some("96"), "$.steps_per_day", 24), Ok(96));
    assert!(parse_usize(Some("9.6"), "$.steps_per_day", 24).is_err());
}

// --- Scenario runner ---

#[test]
fn same_scenario_and_seed_is_deterministic() {
    let scenario = FlatScenario {
        houses: 3,
        feeder_kw: 40_000,
        seed: 777,
        steps_per_day: 24,
        solar_kw_peak_per_house: 5000,
        dr_start_step: 17,
        dr_end_step: 21,
        dr_reduction_kw_per_house: 1500,
    };

    let run_a = run_scenario(&scenario);
    let run_b = run_scenario(&scenario);

    let out_a = write_telemetry_csv(&run_a.telemetry);
    let out_b = write_telemetry_csv(&run_b.telemetry);

    assert_eq!(out_a, out_b);
}

#[test]
fn sim_runner_follows_configured_controller() {
    let naive_cfg = ScenarioConfig::baseline();
    let mut naive = SimRunner::from_scenario(&naive_cfg);
    assert!(matches!(naive, SimRunner::Naive(_)));
    assert_eq!(naive.config().steps_per_day, 24);
    assert_eq!(naive.battery().capacity_kwh, 10_000_000);

    let mut greedy_cfg = ScenarioConfig::baseline();
    greedy_cfg.simulation.controller = "greedy".to_string();
    let mut greedy = SimRunner::from_scenario(&greedy_cfg);
    assert!(matches!(greedy, SimRunner::Greedy(_)));

    // Same seed, same devices: the raw readings of the first step agree
    // across controllers, and reruns are identical.
    let a = naive.step(0);
    let b = greedy.step(0);
    assert_eq!(a.base_kw_raw, b.base_kw_raw);
    assert_eq!(a.solar_kw, b.solar_kw);

    let mut naive2 = SimRunner::from_scenario(&naive_cfg);
    assert_eq!(naive2.step(0), a);
}

#[test]
fn run_scenario_emits_one_row_per_step() {
    let cfg = FlatScenario::demo();
    let result = run_scenario(&cfg);
    assert_eq!(result.telemetry.len(), 24);
    assert!(result.kpis.rmse_tracking_kw >= 0);
    assert!(result.kpis.feeder_peak_load_kw >= 0);
}
