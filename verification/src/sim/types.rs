//! Core simulation types: configuration, step data and the records passed
//! between engine and controller.

use vstd::prelude::*;

verus! {

use crate::numeric::{DAY_MILLI_HOURS, FLOW_LIMIT, POWER_LIMIT, PPM};

/// Centralized simulation configuration. All devices and the engine take
/// their timing from here.
#[derive(Clone, Copy)]
pub struct SimConfig {
    /// Number of simulation steps per day.
    pub steps_per_day: usize,
    /// Number of days to simulate.
    pub days: usize,
    /// Duration of one timestep in milli-hours, `24000 / steps_per_day`.
    pub dt_mh: i64,
    /// Master random seed for reproducibility.
    pub seed: u64,
    /// Imbalance settlement price per kWh, in milli-units of currency.
    pub imbalance_price_per_kwh: i64,
}

impl SimConfig {
    /// Timing validity: a day of at least one step, at most one per
    /// milli-hour, and a bounded horizon and price.
    pub open spec fn wf(&self) -> bool {
        &&& 0 < self.steps_per_day <= DAY_MILLI_HOURS
        &&& 0 < self.days <= 100_000
        &&& self.dt_mh == DAY_MILLI_HOURS as int / self.steps_per_day as int
        &&& 1 <= self.dt_mh <= DAY_MILLI_HOURS
        &&& 0 <= self.imbalance_price_per_kwh <= PPM
    }

    /// Creates a new simulation configuration with the default imbalance
    /// price of a tenth of a currency unit per kWh.
    pub fn new(steps_per_day: usize, days: usize, seed: u64) -> (r: SimConfig)
        requires
            0 < steps_per_day <= DAY_MILLI_HOURS,
            0 < days <= 100_000,
        ensures
            r.wf(),
            r.steps_per_day == steps_per_day,
            r.days == days,
            r.seed == seed,
            r.dt_mh == DAY_MILLI_HOURS as int / steps_per_day as int,
            r.imbalance_price_per_kwh == 100,
    {
        proof {
            assert(1 <= DAY_MILLI_HOURS as int / steps_per_day as int
                && DAY_MILLI_HOURS as int / steps_per_day as int <= DAY_MILLI_HOURS as int)
                by (nonlinear_arith)
                requires
                    0 < steps_per_day as int,
                    (steps_per_day as int) <= DAY_MILLI_HOURS as int,
            ;
        }
        SimConfig {
            steps_per_day,
            days,
            dt_mh: DAY_MILLI_HOURS / (steps_per_day as i64),
            seed,
            imbalance_price_per_kwh: 100,
        }
    }

    /// The same configuration with another imbalance price (milli-units
    /// of currency per kWh).
    pub fn with_price(self, imbalance_price_per_kwh: i64) -> (r: SimConfig)
        requires
            self.wf(),
            0 <= imbalance_price_per_kwh <= PPM,
        ensures
            r.wf(),
            r == (SimConfig { imbalance_price_per_kwh, ..self }),
    {
        SimConfig { imbalance_price_per_kwh, ..self }
    }

    /// Total number of simulation steps across all days.
    pub fn total_steps(&self) -> (r: usize)
        requires
            self.wf(),
        ensures
            r == self.steps_per_day * self.days,
            0 < r <= DAY_MILLI_HOURS * 100_000,
    {
        proof {
            assert(0 < self.steps_per_day as int * self.days as int <= DAY_MILLI_HOURS as int
                * 100_000) by (nonlinear_arith)
                requires
                    0 < self.steps_per_day as int,
                    (self.steps_per_day as int) <= DAY_MILLI_HOURS as int,
                    0 < self.days as int,
                    (self.days as int) <= 100_000,
            ;
        }
        self.steps_per_day * self.days
    }
}

/// A power flow within the range the simulator aggregates safely.
pub open spec fn flow_ok(v: int) -> bool {
    -FLOW_LIMIT <= v <= FLOW_LIMIT
}

/// Device readings and external signals for one timestep, fed to the
/// controller. All powers in milli-kW, feeder convention.
#[derive(Clone, Copy)]
pub struct StepInput {
    /// Current simulation timestep index.
    pub timestep: usize,
    /// Forecasted load for this timestep (milli-kW).
    pub forecast_kw: i64,
    /// Target feeder net load for this timestep (milli-kW).
    pub target_kw: i64,
    /// Demand response reduction requested at this timestep (milli-kW,
    /// non-negative).
    pub dr_requested_kw: i64,
    /// Raw baseload demand before DR curtailment (milli-kW, non-negative).
    pub base_demand_raw_kw: i64,
    /// Solar generation in feeder convention (milli-kW, non-positive).
    pub solar_kw: i64,
    /// Unconstrained EV charging request (milli-kW, non-negative).
    pub ev_requested_kw: i64,
}

impl StepInput {
    /// Signs and bounds the engine guarantees of every input it builds.
    pub open spec fn wf(&self) -> bool {
        &&& flow_ok(self.forecast_kw as int)
        &&& flow_ok(self.target_kw as int)
        &&& 0 <= self.dr_requested_kw <= FLOW_LIMIT
        &&& 0 <= self.base_demand_raw_kw <= FLOW_LIMIT
        &&& -FLOW_LIMIT <= self.solar_kw <= 0
        &&& 0 <= self.ev_requested_kw <= FLOW_LIMIT
    }
}

/// Battery and feeder constraints available to the controller.
#[derive(Clone, Copy)]
pub struct StepState {
    /// Current battery state of charge in parts per million.
    pub battery_soc: i64,
    /// Maximum battery charging power (milli-kW, positive magnitude).
    pub battery_max_charge_kw: i64,
    /// Maximum battery discharging power (milli-kW, positive magnitude).
    pub battery_max_discharge_kw: i64,
    /// Feeder maximum import power (milli-kW, non-negative).
    pub max_import_kw: i64,
    /// Feeder maximum export power (milli-kW, positive magnitude).
    pub max_export_kw: i64,
}

impl StepState {
    /// Signs and bounds the engine guarantees of every state snapshot.
    pub open spec fn wf(&self) -> bool {
        &&& 0 <= self.battery_soc <= PPM
        &&& 0 <= self.battery_max_charge_kw <= POWER_LIMIT
        &&& 0 <= self.battery_max_discharge_kw <= POWER_LIMIT
        &&& 0 <= self.max_import_kw <= FLOW_LIMIT
        &&& 0 <= self.max_export_kw <= FLOW_LIMIT
    }
}

/// Controller dispatch decisions for one timestep.
#[derive(Clone, Copy)]
pub struct StepDispatch {
    /// Baseload after demand response curtailment (milli-kW,
    /// non-negative).
    pub base_demand_kw: i64,
    /// EV charging after demand response shed (milli-kW, non-negative).
    pub ev_after_dr_kw: i64,
    /// EV charging cap after the feeder constraint (milli-kW,
    /// non-negative).
    pub ev_cap_kw: i64,
    /// Battery setpoint in feeder convention (milli-kW; positive charges,
    /// negative discharges).
    pub battery_setpoint_kw: i64,
    /// Achieved demand response reduction (milli-kW, non-negative).
    pub dr_achieved_kw: i64,
}

/// Complete record of one simulation timestep. Powers in milli-kW, time
/// in milli-hours, the state of charge in parts per million, the
/// imbalance cost in micro-units of currency.
#[derive(Clone, Copy, Debug, PartialEq, Eq, Structural)]
pub struct StepResult {
    /// Timestep index.
    pub timestep: usize,
    /// Simulation time in milli-hours.
    pub time_hr: i64,
    /// Raw baseload demand before DR (milli-kW, non-negative).
    pub base_kw_raw: i64,
    /// Baseload after DR curtailment (milli-kW, non-negative).
    pub base_kw_after_dr: i64,
    /// Solar power in feeder convention (milli-kW, non-positive).
    pub solar_kw: i64,
    /// Unconstrained EV charging request (milli-kW, non-negative).
    pub ev_requested_kw: i64,
    /// EV charging after DR shed (milli-kW, non-negative).
    pub ev_after_dr_kw: i64,
    /// EV charging cap from the controller (milli-kW, non-negative).
    pub ev_cap_kw: i64,
    /// Actual EV charging power delivered (milli-kW, non-negative).
    pub ev_actual_kw: i64,
    /// Battery setpoint from the controller (milli-kW).
    pub battery_setpoint_kw: i64,
    /// Actual battery power in feeder convention (milli-kW; positive
    /// charges, negative discharges).
    pub battery_actual_kw: i64,
    /// Battery state of charge after this step (parts per million).
    pub battery_soc: i64,
    /// Feeder net load (milli-kW; positive imports, negative exports).
    pub feeder_kw: i64,
    /// Target feeder net load (milli-kW).
    pub target_kw: i64,
    /// Tracking error: `feeder_kw - target_kw` (milli-kW).
    pub tracking_error_kw: i64,
    /// DR reduction requested (milli-kW).
    pub dr_requested_kw: i64,
    /// DR reduction achieved (milli-kW).
    pub dr_achieved_kw: i64,
    /// Whether the feeder net load is within its limits.
    pub within_feeder_limits: bool,
    /// Imbalance settlement cost of this step (micro-units of currency).
    pub imbalance_cost: i64,
}

/// The ranges the engine guarantees of every record it emits; KPI
/// aggregation relies on them to stay within machine integers.
pub open spec fn step_record_bounded(r: StepResult) -> bool {
    &&& 0 <= r.base_kw_raw <= FLOW_LIMIT
    &&& 0 <= r.base_kw_after_dr <= r.base_kw_raw
    &&& -FLOW_LIMIT <= r.solar_kw <= 0
    &&& 0 <= r.ev_requested_kw <= FLOW_LIMIT
    &&& 0 <= r.ev_actual_kw <= POWER_LIMIT
    &&& -POWER_LIMIT <= r.battery_actual_kw <= POWER_LIMIT
    &&& 0 <= r.battery_soc <= PPM
    &&& -2 * FLOW_LIMIT <= r.feeder_kw <= 2 * FLOW_LIMIT
    &&& -FLOW_LIMIT <= r.target_kw <= FLOW_LIMIT
    &&& -3 * FLOW_LIMIT <= r.tracking_error_kw <= 3 * FLOW_LIMIT
    &&& 0 <= r.dr_requested_kw <= FLOW_LIMIT
    &&& 0 <= r.dr_achieved_kw <= r.dr_requested_kw
    &&& 0 <= r.imbalance_cost <= 100_000_000_000_000_000
}

} // verus!
