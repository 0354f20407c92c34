//! Telemetry rows in the public schema and their CSV text.
//!
//! Field names follow CSV schema v1: `baseload_kw` is the baseload after
//! demand response, `ev_dispatched_kw` the actual EV power, `battery_kw`
//! the actual battery power, `limit_ok` the feeder limit check.

use vstd::prelude::*;

verus! {

use crate::text::{dec_digits_spec, format_milli, format_micro, format_u64, micro_chars,
    milli_chars};

/// Schema v1 column header for CSV telemetry export.
pub const TELEMETRY_SCHEMA_V1_HEADER: &'static str =
    "timestep,time_hr,target_kw,feeder_kw,tracking_error_kw,baseload_kw,solar_kw,ev_requested_kw,ev_dispatched_kw,battery_kw,battery_soc,dr_requested_kw,dr_achieved_kw,limit_ok";

/// One telemetry record using CSV schema v1 field names. Powers in
/// milli-kW, time in milli-hours, state of charge in parts per million.
#[derive(Clone, Copy, Debug, PartialEq, Eq, Structural)]
pub struct TelemetryRow {
    /// Timestep index.
    pub timestep: usize,
    /// Simulation time in milli-hours.
    pub time_hr: i64,
    /// Target feeder net load (milli-kW).
    pub target_kw: i64,
    /// Actual feeder net load (milli-kW).
    pub feeder_kw: i64,
    /// Tracking error (milli-kW).
    pub tracking_error_kw: i64,
    /// Baseload after DR curtailment (milli-kW).
    pub baseload_kw: i64,
    /// Solar power in feeder convention (milli-kW).
    pub solar_kw: i64,
    /// Unconstrained EV charging request (milli-kW).
    pub ev_requested_kw: i64,
    /// Actual EV charging power delivered (milli-kW).
    pub ev_dispatched_kw: i64,
    /// Actual battery power in feeder convention (milli-kW).
    pub battery_kw: i64,
    /// Battery state of charge (parts per million).
    pub battery_soc: i64,
    /// DR reduction requested (milli-kW).
    pub dr_requested_kw: i64,
    /// DR reduction achieved (milli-kW).
    pub dr_achieved_kw: i64,
    /// Whether the feeder net load was within limits.
    pub limit_ok: bool,
}

/// The text of a boolean field.
pub open spec fn bool_chars(b: bool) -> Seq<char> {
    if b {
        "true"@
    } else {
        "false"@
    }
}

/// A row's values are far enough from the integer limits to format.
pub open spec fn row_formattable(r: TelemetryRow) -> bool {
    &&& r.time_hr > i64::MIN
    &&& r.target_kw > i64::MIN
    &&& r.feeder_kw > i64::MIN
    &&& r.tracking_error_kw > i64::MIN
    &&& r.baseload_kw > i64::MIN
    &&& r.solar_kw > i64::MIN
    &&& r.ev_requested_kw > i64::MIN
    &&& r.ev_dispatched_kw > i64::MIN
    &&& r.battery_kw > i64::MIN
    &&& r.battery_soc > i64::MIN
    &&& r.dr_requested_kw > i64::MIN
    &&& r.dr_achieved_kw > i64::MIN
}

/// The CSV line of one telemetry row, without its trailing newline:
/// milli-kW values with three decimals, the state of charge with six, the
/// timestep bare, the limit check as `true` or `false`.
pub open spec fn row_chars(r: TelemetryRow) -> Seq<char> {
    dec_digits_spec(r.timestep as nat) + ","@ + milli_chars(r.time_hr as int) + ","@ + milli_chars(
        r.target_kw as int,
    ) + ","@ + milli_chars(r.feeder_kw as int) + ","@ + milli_chars(r.tracking_error_kw as int)
        + ","@ + milli_chars(r.baseload_kw as int) + ","@ + milli_chars(r.solar_kw as int) + ","@
        + milli_chars(r.ev_requested_kw as int) + ","@ + milli_chars(r.ev_dispatched_kw as int)
        + ","@ + milli_chars(r.battery_kw as int) + ","@ + micro_chars(r.battery_soc as int)
        + ","@ + milli_chars(r.dr_requested_kw as int) + ","@ + milli_chars(
        r.dr_achieved_kw as int,
    ) + ","@ + bool_chars(r.limit_ok)
}

/// The whole telemetry file: the header line, then one line per row, each
/// line ended by a newline.
pub open spec fn telemetry_csv_chars(rows: Seq<TelemetryRow>) -> Seq<char>
    decreases rows.len(),
{
    if rows.len() == 0 {
        TELEMETRY_SCHEMA_V1_HEADER@ + "\n"@
    } else {
        telemetry_csv_chars(rows.drop_last()) + row_chars(rows.last()) + "\n"@
    }
}

/// Renders one telemetry row as its CSV line (no trailing newline).
pub fn render_row(r: &TelemetryRow) -> (s: String)
    requires
        row_formattable(*r),
    ensures
        s@ == row_chars(*r),
{
    let mut s = format_u64(r.timestep as u64);
    s.append(",");
    s.append(format_milli(r.time_hr).as_str());
    s.append(",");
    s.append(format_milli(r.target_kw).as_str());
    s.append(",");
    s.append(format_milli(r.feeder_kw).as_str());
    s.append(",");
    s.append(format_milli(r.tracking_error_kw).as_str());
    s.append(",");
    s.append(format_milli(r.baseload_kw).as_str());
    s.append(",");
    s.append(format_milli(r.solar_kw).as_str());
    s.append(",");
    s.append(format_milli(r.ev_requested_kw).as_str());
    s.append(",");
    s.append(format_milli(r.ev_dispatched_kw).as_str());
    s.append(",");
    s.append(format_milli(r.battery_kw).as_str());
    s.append(",");
    s.append(format_micro(r.battery_soc).as_str());
    s.append(",");
    s.append(format_milli(r.dr_requested_kw).as_str());
    s.append(",");
    s.append(format_milli(r.dr_achieved_kw).as_str());
    s.append(",");
    if r.limit_ok {
        s.append("true");
    } else {
        s.append("false");
    }
    proof {
        assert(s@ =~= row_chars(*r));
    }
    s
}

/// Writes the telemetry rows as CSV text: the schema v1 header and one
/// line per row, exactly.
pub fn write_telemetry_csv(rows: &Vec<TelemetryRow>) -> (s: String)
    requires
        forall|i: int| 0 <= i < rows@.len() ==> row_formattable(#[trigger] rows@[i]),
    ensures
        s@ == telemetry_csv_chars(rows@),
{
    let mut s = TELEMETRY_SCHEMA_V1_HEADER.to_owned();
    s.append("\n");
    proof {
        assert(rows@.take(0) =~= Seq::<TelemetryRow>::empty());
        assert(s@ =~= telemetry_csv_chars(rows@.take(0)));
    }
    let mut i: usize = 0;
    while i < rows.len()
        invariant
            0 <= i <= rows@.len(),
            forall|j: int| 0 <= j < rows@.len() ==> row_formattable(#[trigger] rows@[j]),
            s@ == telemetry_csv_chars(rows@.take(i as int)),
        decreases rows@.len() - i,
    {
        let line = render_row(&rows[i]);
        s.append(line.as_str());
        s.append("\n");
        proof {
            assert(rows@.take(i as int + 1).drop_last() =~= rows@.take(i as int));
            assert(rows@.take(i as int + 1).last() == rows@[i as int]);
            assert(s@ =~= telemetry_csv_chars(rows@.take(i as int + 1)));
        }
        i = i + 1;
    }
    proof {
        assert(rows@.take(rows@.len() as int) =~= rows@);
    }
    s
}

/// The telemetry view of a step record: the schema v1 field renaming.
pub fn row_from_result(r: &crate::sim::types::StepResult) -> (row: TelemetryRow)
    ensures
        row == (TelemetryRow {
            timestep: r.timestep,
            time_hr: r.time_hr,
            target_kw: r.target_kw,
            feeder_kw: r.feeder_kw,
            tracking_error_kw: r.tracking_error_kw,
            baseload_kw: r.base_kw_after_dr,
            solar_kw: r.solar_kw,
            ev_requested_kw: r.ev_requested_kw,
            ev_dispatched_kw: r.ev_actual_kw,
            battery_kw: r.battery_actual_kw,
            battery_soc: r.battery_soc,
            dr_requested_kw: r.dr_requested_kw,
            dr_achieved_kw: r.dr_achieved_kw,
            limit_ok: r.within_feeder_limits,
        }),
{
    TelemetryRow {
        timestep: r.timestep,
        time_hr: r.time_hr,
        target_kw: r.target_kw,
        feeder_kw: r.feeder_kw,
        tracking_error_kw: r.tracking_error_kw,
        baseload_kw: r.base_kw_after_dr,
        solar_kw: r.solar_kw,
        ev_requested_kw: r.ev_requested_kw,
        ev_dispatched_kw: r.ev_actual_kw,
        battery_kw: r.battery_actual_kw,
        battery_soc: r.battery_soc,
        dr_requested_kw: r.dr_requested_kw,
        dr_achieved_kw: r.dr_achieved_kw,
        limit_ok: r.within_feeder_limits,
    }
}

} // verus!
