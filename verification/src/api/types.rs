//! API response and query types.
//!
//! Field names follow CSV schema v1 conventions for consistency across
//! export formats.

use vstd::prelude::*;

verus! {

use crate::sim::kpi::KpiReport;
use crate::sim::types::{SimConfig, StepResult};

/// Combined state response: config, KPIs, and latest telemetry record.
pub struct StateResponse {
    /// Simulation configuration.
    pub config: SimConfig,
    /// Aggregate KPI report.
    pub kpi: KpiReport,
    /// Most recent telemetry record (last timestep).
    pub latest_step: TelemetryRecord,
}

/// Single telemetry record using CSV schema v1 field names: the public
/// renaming of a step record, with the imbalance cost carried along.
#[derive(Clone, Copy, Debug, PartialEq, Eq, Structural)]
pub struct TelemetryRecord {
    /// Timestep index.
    pub timestep: usize,
    /// Simulation time in milli-hours.
    pub time_hr: i64,
    /// Target feeder net load (milli-kW).
    pub target_kw: i64,
    /// Actual feeder net load (milli-kW).
    pub feeder_kw: i64,
    /// Tracking error (milli-kW).
    pub tracking_error_kw: i64,
    /// Baseload after DR curtailment (milli-kW).
    pub baseload_kw: i64,
    /// Solar power in feeder convention (milli-kW).
    pub solar_kw: i64,
    /// Unconstrained EV charging request (milli-kW).
    pub ev_requested_kw: i64,
    /// Actual EV charging power delivered (milli-kW).
    pub ev_dispatched_kw: i64,
    /// Actual battery power in feeder convention (milli-kW).
    pub battery_kw: i64,
    /// Battery state of charge (parts per million).
    pub battery_soc: i64,
    /// DR reduction requested (milli-kW).
    pub dr_requested_kw: i64,
    /// DR reduction achieved (milli-kW).
    pub dr_achieved_kw: i64,
    /// Whether the feeder net load was within limits.
    pub limit_ok: bool,
    /// Imbalance cost for this timestep (micro-units of currency).
    pub imbalance_cost: i64,
}

/// The public record of a step result: the schema v1 field renaming.
pub open spec fn record_of(r: StepResult) -> TelemetryRecord {
    TelemetryRecord {
        timestep: r.timestep,
        time_hr: r.time_hr,
        target_kw: r.target_kw,
        feeder_kw: r.feeder_kw,
        tracking_error_kw: r.tracking_error_kw,
        baseload_kw: r.base_kw_after_dr,
        solar_kw: r.solar_kw,
        ev_requested_kw: r.ev_requested_kw,
        ev_dispatched_kw: r.ev_actual_kw,
        battery_kw: r.battery_actual_kw,
        battery_soc: r.battery_soc,
        dr_requested_kw: r.dr_requested_kw,
        dr_achieved_kw: r.dr_achieved_kw,
        limit_ok: r.within_feeder_limits,
        imbalance_cost: r.imbalance_cost,
    }
}

impl TelemetryRecord {
    /// Maps an internal step record to the public API record: the CSV
    /// schema v1 renaming (`base_kw_after_dr` to `baseload_kw`,
    /// `ev_actual_kw` to `ev_dispatched_kw`, `battery_actual_kw` to
    /// `battery_kw`, `within_feeder_limits` to `limit_ok`).
    pub fn from(r: &StepResult) -> (record: TelemetryRecord)
        ensures
            record == record_of(*r),
    {
        TelemetryRecord {
            timestep: r.timestep,
            time_hr: r.time_hr,
            target_kw: r.target_kw,
            feeder_kw: r.feeder_kw,
            tracking_error_kw: r.tracking_error_kw,
            baseload_kw: r.base_kw_after_dr,
            solar_kw: r.solar_kw,
            ev_requested_kw: r.ev_requested_kw,
            ev_dispatched_kw: r.ev_actual_kw,
            battery_kw: r.battery_actual_kw,
            battery_soc: r.battery_soc,
            dr_requested_kw: r.dr_requested_kw,
            dr_achieved_kw: r.dr_achieved_kw,
            limit_ok: r.within_feeder_limits,
            imbalance_cost: r.imbalance_cost,
        }
    }
}

/// Optional range query parameters for the telemetry endpoint.
#[derive(Clone, Copy, Debug, PartialEq, Eq, Structural)]
pub struct TelemetryQuery {
    /// Start timestep (inclusive).
    pub from: Option<usize>,
    /// End timestep (inclusive).
    pub to: Option<usize>,
}

/// Error response body for 400-class errors.
pub struct ErrorResponse {
    /// Human-readable error message.
    pub error: String,
}

} // verus!
