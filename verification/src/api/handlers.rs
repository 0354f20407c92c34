//! The pure decisions behind the API endpoints: the state snapshot and
//! the range-filtered telemetry view. Serving them over HTTP is left to
//! the callers.

use vstd::prelude::*;

verus! {

use crate::api::types::{record_of, StateResponse, TelemetryRecord};
use crate::sim::kpi::KpiReport;
use crate::sim::types::{SimConfig, StepResult};

/// A zeroed step record for the edge case of an empty results vector.
pub fn default_step() -> (r: StepResult)
    ensures
        r.timestep == 0,
        r.feeder_kw == 0,
        r.target_kw == 0,
        r.tracking_error_kw == 0,
        r.base_kw_raw == 0,
        r.base_kw_after_dr == 0,
        r.solar_kw == 0,
        r.ev_requested_kw == 0,
        r.ev_after_dr_kw == 0,
        r.ev_cap_kw == 0,
        r.ev_actual_kw == 0,
        r.battery_setpoint_kw == 0,
        r.battery_actual_kw == 0,
        r.battery_soc == 0,
        r.dr_requested_kw == 0,
        r.dr_achieved_kw == 0,
        r.within_feeder_limits,
        r.imbalance_cost == 0,
        r.time_hr == 0,
{
    StepResult {
        timestep: 0,
        time_hr: 0,
        base_kw_raw: 0,
        base_kw_after_dr: 0,
        solar_kw: 0,
        ev_requested_kw: 0,
        ev_after_dr_kw: 0,
        ev_cap_kw: 0,
        ev_actual_kw: 0,
        battery_setpoint_kw: 0,
        battery_actual_kw: 0,
        battery_soc: 0,
        feeder_kw: 0,
        target_kw: 0,
        tracking_error_kw: 0,
        dr_requested_kw: 0,
        dr_achieved_kw: 0,
        within_feeder_limits: true,
        imbalance_cost: 0,
    }
}

/// The state snapshot: configuration, KPI report, and the public record
/// of the last step (a zeroed record when the run is empty).
pub fn state_response(config: &SimConfig, kpi: &KpiReport, results: &Vec<StepResult>) -> (r:
    StateResponse)
    ensures
        r.config == *config,
        r.kpi == *kpi,
        results@.len() > 0 ==> r.latest_step == record_of(results@.last()),
        results@.len() == 0 ==> r.latest_step == record_of(
            StepResult {
                timestep: 0,
                time_hr: 0,
                base_kw_raw: 0,
                base_kw_after_dr: 0,
                solar_kw: 0,
                ev_requested_kw: 0,
                ev_after_dr_kw: 0,
                ev_cap_kw: 0,
                ev_actual_kw: 0,
                battery_setpoint_kw: 0,
                battery_actual_kw: 0,
                battery_soc: 0,
                feeder_kw: 0,
                target_kw: 0,
                tracking_error_kw: 0,
                dr_requested_kw: 0,
                dr_achieved_kw: 0,
                within_feeder_limits: true,
                imbalance_cost: 0,
            },
        ),
{
    let latest = if results.len() > 0 {
        TelemetryRecord::from(&results[results.len() - 1])
    } else {
        let d = default_step();
        TelemetryRecord::from(&d)
    };
    StateResponse { config: *config, kpi: *kpi, latest_step: latest }
}

/// The records whose timesteps lie in `[from, to]`, in order: exactly the
/// filter of the results by the inclusive range.
pub fn telemetry_range(results: &Vec<StepResult>, from: usize, to: usize) -> (r: Vec<
    TelemetryRecord,
>)
    ensures
        r@ == results@.filter(|x: StepResult| from <= x.timestep <= to).map_values(
            |x: StepResult| record_of(x),
        ),
{
    let mut r: Vec<TelemetryRecord> = Vec::new();
    let mut i: usize = 0;
    proof {
        assert(results@.take(0) =~= Seq::<StepResult>::empty());
        assert(results@.take(0).filter(|x: StepResult| from <= x.timestep <= to).map_values(
            |x: StepResult| record_of(x)) =~= Seq::<TelemetryRecord>::empty());
    }
    while i < results.len()
        invariant
            0 <= i <= results@.len(),
            r@ == results@.take(i as int).filter(|x: StepResult| from <= x.timestep
                <= to).map_values(|x: StepResult| record_of(x)),
        decreases results@.len() - i,
    {
        proof {
            assert(results@.take(i as int + 1).drop_last() =~= results@.take(i as int));
            reveal_with_fuel(Seq::filter, 2);
            assert(results@.take(i as int + 1).last() == results@[i as int]);
        }
        let x = results[i];
        if from <= x.timestep && x.timestep <= to {
            r.push(TelemetryRecord::from(&x));
        }
        i = i + 1;
    }
    proof {
        assert(results@.take(results@.len() as int) =~= results@);
    }
    r
}

} // verus!
