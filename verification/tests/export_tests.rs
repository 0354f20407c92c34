use vpp_sim::io::export::write_csv;
use vpp_sim::sim::types::StepResult;
use vpp_sim::telemetry::{
    row_from_result, write_telemetry_csv, TelemetryRow, TELEMETRY_SCHEMA_V1_HEADER,
};
use vpp_sim::text::{format_milli, format_u64, parse_u64_digits};

fn make_step(t: usize) -> StepResult {
    StepResult {
        timestep: t,
        time_hr: t as i64 * 1000,
        base_kw_raw: 1000,
        base_kw_after_dr: 900,
        solar_kw: -2500,
        ev_requested_kw: 3000,
        ev_after_dr_kw: 2500,
        ev_cap_kw: 2500,
        ev_actual_kw: 2500,
        battery_setpoint_kw: -1000,
        battery_actual_kw: -1000,
        battery_soc: 480_000,
        feeder_kw: -100,
        target_kw: 0,
        tracking_error_kw: -100,
        dr_requested_kw: 500,
        dr_achieved_kw: 500,
        within_feeder_limits: true,
        imbalance_cost: 10_000,
    }
}

#[test]
fn header_matches_schema_v1() {
    let results = vec![make_step(0)];
    let output = write_csv(&results);
    let first_line = output.lines().next().unwrap_or("");
    assert_eq!(
        first_line,
        "timestep,time_hr,target_kw,feeder_kw,tracking_error_kw,baseload_kw,solar_kw,\
ev_requested_kw,ev_dispatched_kw,battery_kw,battery_soc,dr_requested_kw,dr_achieved_kw,limit_ok"
    );
    assert_eq!(first_line, TELEMETRY_SCHEMA_V1_HEADER);
}

#[test]
fn row_count_matches_step_count() {
    let results: Vec<StepResult> = (0..24).map(make_step).collect();
    let output = write_csv(&results);
    let lines: Vec<&str> = output.lines().collect();
    // 1 header + 24 data rows
    assert_eq!(lines.len(), 25);
}

#[test]
fn deterministic_output() {
    let results: Vec<StepResult> = (0..5).map(make_step).collect();
    let buf1 = write_csv(&results);
    let buf2 = write_csv(&results);
    assert_eq!(buf1, buf2);
}

#[test]
fn round_trip_parseable() {
    let results: Vec<StepResult> = (0..3).map(make_step).collect();
    let buf = write_csv(&results);

    let mut rdr = csv::ReaderBuilder::new().from_reader(buf.as_bytes());
    let headers = rdr.headers().cloned().ok();
    assert_eq!(headers.as_ref().map(csv::StringRecord::len), Some(14));

    let mut row_count = 0;
    for record in rdr.records() {
        let rec = record.expect("every row should parse");
        // Numeric columns parse as decimals.
        for i in 1..13 {
            let val: Result<f64, _> = rec[i].parse();
            assert!(val.is_ok(), "column {i} should parse as a number");
        }
        // limit_ok parses as bool.
        let ok_val: Result<bool, _> = rec[13].parse();
        assert!(ok_val.is_ok(), "limit_ok column should parse as bool");
        row_count += 1;
    }
    assert_eq!(row_count, 3);
}

#[test]
fn round_trip_values_match_records_exactly() {
    let results: Vec<StepResult> = (0..3).map(make_step).collect();
    let buf = write_csv(&results);

    let mut rdr = csv::ReaderBuilder::new().from_reader(buf.as_bytes());
    for (record, step) in rdr.records().zip(results.iter()) {
        let rec = record.expect("row should parse");
        let milli = |s: &str| -> i64 {
            let v: f64 = s.parse().expect("number");
            (v * 1000.0).round() as i64
        };
        assert_eq!(rec[0].parse::<usize>().unwrap(), step.timestep);
        assert_eq!(milli(&rec[1]), step.time_hr);
        assert_eq!(milli(&rec[2]), step.target_kw);
        assert_eq!(milli(&rec[3]), step.feeder_kw);
        assert_eq!(milli(&rec[4]), step.tracking_error_kw);
        assert_eq!(milli(&rec[5]), step.base_kw_after_dr);
        assert_eq!(milli(&rec[6]), step.solar_kw);
        assert_eq!(milli(&rec[7]), step.ev_requested_kw);
        assert_eq!(milli(&rec[8]), step.ev_actual_kw);
        assert_eq!(milli(&rec[9]), step.battery_actual_kw);
        let soc: f64 = rec[10].parse().unwrap();
        assert_eq!((soc * 1_000_000.0).round() as i64, step.battery_soc);
        assert_eq!(milli(&rec[11]), step.dr_requested_kw);
        assert_eq!(milli(&rec[12]), step.dr_achieved_kw);
        assert_eq!(rec[13].parse::<bool>().unwrap(), step.within_feeder_limits);
    }
}

#[test]
fn telemetry_csv_has_schema_v1_header_and_rows_per_timestep() {
    let rows: Vec<TelemetryRow> = (0..24).map(|t| row_from_result(&make_step(t))).collect();
    let csv_text = write_telemetry_csv(&rows);
    let mut lines = csv_text.lines();
    assert_eq!(lines.next(), Some(TELEMETRY_SCHEMA_V1_HEADER));
    assert_eq!(lines.count(), 24);
}

#[test]
fn telemetry_export_is_deterministic_for_fixed_rows() {
    let rows: Vec<TelemetryRow> = (0..24).map(|t| row_from_result(&make_step(t))).collect();
    let out_a = write_telemetry_csv(&rows);
    let out_b = write_telemetry_csv(&rows);
    assert_eq!(out_a, out_b);
}

#[test]
fn telemetry_and_export_agree() {
    let results: Vec<StepResult> = (0..5).map(make_step).collect();
    let rows: Vec<TelemetryRow> = results.iter().map(row_from_result).collect();
    assert_eq!(write_csv(&results), write_telemetry_csv(&rows));
}

#[test]
fn format_milli_renders_three_decimals() {
    assert_eq!(format_milli(0), "0.000");
    assert_eq!(format_milli(1500), "1.500");
    assert_eq!(format_milli(-2500), "-2.500");
    assert_eq!(format_milli(-1), "-0.001");
    assert_eq!(format_milli(12_345_678), "12345.678");
}

#[test]
fn format_u64_renders_decimal() {
    assert_eq!(format_u64(0), "0");
    assert_eq!(format_u64(7), "7");
    assert_eq!(format_u64(240), "240");
    assert_eq!(format_u64(1_000_000), "1000000");
}

#[test]
fn parse_u64_digits_round_trips() {
    for n in [0u64, 1, 9, 10, 99, 12345, 1_000_000_000] {
        assert_eq!(parse_u64_digits(&format_u64(n)), Some(n));
    }
    assert_eq!(parse_u64_digits(""), None);
    assert_eq!(parse_u64_digits("12x"), None);
    assert_eq!(parse_u64_digits("99999999999999999999999"), None);
}
