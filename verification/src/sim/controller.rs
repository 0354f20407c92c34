//! Controller trait, shared dispatch helpers, and the two controller
//! implementations.

use vstd::prelude::*;

verus! {

use crate::devices::types::{daylight_frac_ppm, daylight_frac_ppm_spec};
use crate::numeric::{
    clamp_spec,
    clamp_i64,
    min_i64,
    max_i64,
    DAY_MILLI_HOURS,
    ENERGY_LIMIT,
    FLOW_LIMIT,
    POWER_LIMIT,
    PPM,
};
use crate::sim::types::{StepDispatch, StepInput, StepState};

// ---------------------------------------------------------------------------
// Shared dispatch helpers (used by both controllers)
// ---------------------------------------------------------------------------

/// Demand response applied to a baseload and a flexible load: the flexible
/// load is shed first, then the baseload, until the requested reduction is
/// met or nothing is left. Yields `(baseload_after, flexible_after,
/// achieved)`.
pub open spec fn apply_demand_response_spec(
    baseload_kw: int,
    flexible_load_kw: int,
    requested_reduction_kw: int,
) -> (int, int, int) {
    let remaining = vstd::math::max(0, requested_reduction_kw);
    let flexible = vstd::math::max(0, flexible_load_kw);
    let flex_shed = vstd::math::min(flexible, remaining);
    let flexible_after = flexible - flex_shed;
    let remaining_after_flex = remaining - flex_shed;
    let base = vstd::math::max(0, baseload_kw);
    let base_shed = vstd::math::min(base, remaining_after_flex);
    let baseload_after = base - base_shed;
    (baseload_after, flexible_after, flex_shed + base_shed)
}

/// Apply demand response by shedding flexible load first, then curtailable
/// baseload. Returns `(baseload_after_kw, flexible_after_kw,
/// achieved_reduction_kw)`. The achieved reduction is never negative,
/// never exceeds the request, and never exceeds what was there to shed.
pub fn apply_demand_response_kw(
    baseload_kw: i64,
    flexible_load_kw: i64,
    requested_reduction_kw: i64,
) -> (r: (i64, i64, i64))
    requires
        -FLOW_LIMIT <= baseload_kw <= FLOW_LIMIT,
        -FLOW_LIMIT <= flexible_load_kw <= FLOW_LIMIT,
        -FLOW_LIMIT <= requested_reduction_kw <= FLOW_LIMIT,
    ensures
        (r.0 as int, r.1 as int, r.2 as int) == apply_demand_response_spec(
            baseload_kw as int,
            flexible_load_kw as int,
            requested_reduction_kw as int,
        ),
        0 <= r.0 <= vstd::math::max(0, baseload_kw as int),
        0 <= r.1 <= vstd::math::max(0, flexible_load_kw as int),
        0 <= r.2 <= vstd::math::max(0, requested_reduction_kw as int),
        r.2 <= vstd::math::max(0, baseload_kw as int) + vstd::math::max(0, flexible_load_kw as int),
        r.0 + r.1 + r.2 == vstd::math::max(0, baseload_kw as int) + vstd::math::max(
            0,
            flexible_load_kw as int,
        ) || r.2 == vstd::math::max(0, requested_reduction_kw as int),
{
    let mut remaining = max_i64(requested_reduction_kw, 0);

    let flexible = max_i64(flexible_load_kw, 0);
    let flex_shed = min_i64(flexible, remaining);
    let flexible_after = flexible - flex_shed;
    remaining = remaining - flex_shed;

    let base = max_i64(baseload_kw, 0);
    let base_shed = min_i64(base, remaining);
    let baseload_after = base - base_shed;

    let achieved = flex_shed + base_shed;
    (baseload_after, flexible_after, achieved)
}

/// The flexible load cap that keeps the feeder import feasible with the
/// battery's full discharge: any overload beyond `max_import` plus the
/// discharge headroom is shed from the flexible load.
pub open spec fn capped_flexible_load_spec(
    net_fixed_kw: int,
    requested_flexible_kw: int,
    max_import_kw: int,
    battery_max_discharge_kw: int,
) -> int {
    let requested = vstd::math::max(0, requested_flexible_kw);
    let overload = vstd::math::max(
        0,
        net_fixed_kw + requested - battery_max_discharge_kw - max_import_kw,
    );
    vstd::math::max(0, requested - overload)
}

/// Cap a flexible load (EV charging) so the feeder import can stay under
/// its limit with the battery's help.
pub fn capped_flexible_load_kw(
    net_fixed_kw: i64,
    requested_flexible_kw: i64,
    max_import_kw: i64,
    battery_max_discharge_kw: i64,
) -> (r: i64)
    requires
        -2 * FLOW_LIMIT <= net_fixed_kw <= 2 * FLOW_LIMIT,
        -FLOW_LIMIT <= requested_flexible_kw <= FLOW_LIMIT,
        0 <= max_import_kw <= FLOW_LIMIT,
        0 <= battery_max_discharge_kw <= POWER_LIMIT,
    ensures
        r == capped_flexible_load_spec(
            net_fixed_kw as int,
            requested_flexible_kw as int,
            max_import_kw as int,
            battery_max_discharge_kw as int,
        ),
        0 <= r <= vstd::math::max(0, requested_flexible_kw as int),
{
    let requested = max_i64(requested_flexible_kw, 0);
    let overload = max_i64(net_fixed_kw + requested - battery_max_discharge_kw - max_import_kw, 0);
    max_i64(requested - overload, 0)
}

/// The battery feasibility window in feeder convention, from the balance
/// `feeder = net_without_battery + battery`: the setpoint must keep the
/// feeder within its limits and stay within the battery's rate limits.
pub open spec fn battery_feasibility_window_spec(
    net_without_battery_kw: int,
    max_import_kw: int,
    max_export_kw: int,
    battery_max_charge_kw: int,
    battery_max_discharge_kw: int,
) -> (int, int) {
    let low = vstd::math::max(-battery_max_discharge_kw, -max_export_kw - net_without_battery_kw);
    let high = vstd::math::min(battery_max_charge_kw, max_import_kw - net_without_battery_kw);
    (low, high)
}

/// Compute the battery feasibility window `(low_kw, high_kw)` in feeder
/// convention.
pub fn battery_feasibility_window(
    net_without_battery_kw: i64,
    max_import_kw: i64,
    max_export_kw: i64,
    battery_max_charge_kw: i64,
    battery_max_discharge_kw: i64,
) -> (r: (i64, i64))
    requires
        -4 * FLOW_LIMIT <= net_without_battery_kw <= 4 * FLOW_LIMIT,
        0 <= max_import_kw <= FLOW_LIMIT,
        0 <= max_export_kw <= FLOW_LIMIT,
        0 <= battery_max_charge_kw <= POWER_LIMIT,
        0 <= battery_max_discharge_kw <= POWER_LIMIT,
    ensures
        (r.0 as int, r.1 as int) == battery_feasibility_window_spec(
            net_without_battery_kw as int,
            max_import_kw as int,
            max_export_kw as int,
            battery_max_charge_kw as int,
            battery_max_discharge_kw as int,
        ),
        -battery_max_discharge_kw <= r.0,
        r.1 <= battery_max_charge_kw,
{
    let low = max_i64(-battery_max_discharge_kw, -max_export_kw - net_without_battery_kw);
    let high = min_i64(battery_max_charge_kw, max_import_kw - net_without_battery_kw);
    (low, high)
}

/// The battery setpoint that tracks the target while honouring the feeder
/// and battery limits: the target is clamped into the feeder range, the
/// tracking value projected into the feasibility window; when the window
/// is empty (the net load alone violates the feeder limits), the setpoint
/// falls back to the battery-limited command closest to the tracking
/// value.
pub open spec fn constrained_battery_setpoint_spec(
    net_without_battery_kw: int,
    target_kw: int,
    max_import_kw: int,
    max_export_kw: int,
    battery_max_charge_kw: int,
    battery_max_discharge_kw: int,
) -> int {
    let constrained_target = clamp_spec(target_kw, -max_export_kw, max_import_kw);
    let window = battery_feasibility_window_spec(
        net_without_battery_kw,
        max_import_kw,
        max_export_kw,
        battery_max_charge_kw,
        battery_max_discharge_kw,
    );
    let desired = constrained_target - net_without_battery_kw;
    if window.0 <= window.1 {
        clamp_spec(desired, window.0, window.1)
    } else {
        clamp_spec(desired, -battery_max_discharge_kw, battery_max_charge_kw)
    }
}

/// Compute the battery setpoint in feeder convention while enforcing the
/// feeder import/export limits and the battery rate limits. The result
/// always lies within the battery rate limits.
pub fn constrained_battery_setpoint_kw(
    net_without_battery_kw: i64,
    target_kw: i64,
    max_import_kw: i64,
    max_export_kw: i64,
    battery_max_charge_kw: i64,
    battery_max_discharge_kw: i64,
) -> (r: i64)
    requires
        -4 * FLOW_LIMIT <= net_without_battery_kw <= 4 * FLOW_LIMIT,
        -FLOW_LIMIT <= target_kw <= FLOW_LIMIT,
        0 <= max_import_kw <= FLOW_LIMIT,
        0 <= max_export_kw <= FLOW_LIMIT,
        0 <= battery_max_charge_kw <= POWER_LIMIT,
        0 <= battery_max_discharge_kw <= POWER_LIMIT,
    ensures
        r == constrained_battery_setpoint_spec(
            net_without_battery_kw as int,
            target_kw as int,
            max_import_kw as int,
            max_export_kw as int,
            battery_max_charge_kw as int,
            battery_max_discharge_kw as int,
        ),
        -battery_max_discharge_kw <= r <= battery_max_charge_kw,
{
    let constrained_target = clamp_i64(target_kw, -max_export_kw, max_import_kw);
    let (low, high) = battery_feasibility_window(
        net_without_battery_kw,
        max_import_kw,
        max_export_kw,
        battery_max_charge_kw,
        battery_max_discharge_kw,
    );
    let desired = constrained_target - net_without_battery_kw;
    if low <= high {
        clamp_i64(desired, low, high)
    } else {
        clamp_i64(desired, -battery_max_discharge_kw, battery_max_charge_kw)
    }
}

// ---------------------------------------------------------------------------
// Controller trait
// ---------------------------------------------------------------------------

/// What every dispatch must satisfy: demand response within its bounds,
/// the EV cap within the post-shedding request, and the battery setpoint
/// within the battery rate limits.
pub open spec fn dispatch_wf(input: StepInput, state: StepState, d: StepDispatch) -> bool {
    &&& 0 <= d.base_demand_kw <= vstd::math::max(0, input.base_demand_raw_kw as int)
    &&& 0 <= d.ev_after_dr_kw <= vstd::math::max(0, input.ev_requested_kw as int)
    &&& 0 <= d.ev_cap_kw <= d.ev_after_dr_kw
    &&& -state.battery_max_discharge_kw <= d.battery_setpoint_kw <= state.battery_max_charge_kw
    &&& 0 <= d.dr_achieved_kw <= vstd::math::max(0, input.dr_requested_kw as int)
    &&& d.dr_achieved_kw <= vstd::math::max(0, input.base_demand_raw_kw as int) + vstd::math::max(
        0,
        input.ev_requested_kw as int,
    )
}

/// A simulation controller: a pure function from device readings and
/// constraints to dispatch setpoints. `dispatch_spec` pins the exact
/// decision; `dispatch` computes it.
pub trait Controller: Sized {
    /// Internal consistency of the controller's own data.
    spec fn wf(&self) -> bool;

    /// The dispatch this controller decides for the given input and state.
    spec fn dispatch_spec(&self, input: StepInput, state: StepState) -> StepDispatch;

    /// Compute dispatch decisions for a single timestep.
    fn dispatch(&self, input: &StepInput, state: &StepState) -> (d: StepDispatch)
        requires
            self.wf(),
            input.wf(),
            state.wf(),
        ensures
            d == self.dispatch_spec(*input, *state),
            dispatch_wf(*input, *state, d),
    ;
}

// ---------------------------------------------------------------------------
// NaiveRtController
// ---------------------------------------------------------------------------

/// Naive real-time controller: demand response shedding flexible load
/// first, an EV cap keeping the feeder import feasible, then a battery
/// setpoint that projects the target-tracking value into the feasibility
/// window.
///
/// All power values use feeder convention: positive = import / load,
/// negative = export / generation.
#[derive(Clone, Copy)]
pub struct NaiveRtController;

/// The naive dispatch: demand response, then the EV cap, then the
/// feasibility-projected battery setpoint.
pub open spec fn naive_dispatch_spec(input: StepInput, state: StepState) -> StepDispatch {
    let dr = apply_demand_response_spec(
        input.base_demand_raw_kw as int,
        input.ev_requested_kw as int,
        input.dr_requested_kw as int,
    );
    let net_fixed = dr.0 + input.solar_kw as int;
    let ev_cap = capped_flexible_load_spec(
        net_fixed,
        dr.1,
        state.max_import_kw as int,
        state.battery_max_discharge_kw as int,
    );
    let net_without_battery = net_fixed + ev_cap;
    let setpoint = constrained_battery_setpoint_spec(
        net_without_battery,
        input.target_kw as int,
        state.max_import_kw as int,
        state.max_export_kw as int,
        state.battery_max_charge_kw as int,
        state.battery_max_discharge_kw as int,
    );
    StepDispatch {
        base_demand_kw: dr.0 as i64,
        ev_after_dr_kw: dr.1 as i64,
        ev_cap_kw: ev_cap as i64,
        battery_setpoint_kw: setpoint as i64,
        dr_achieved_kw: dr.2 as i64,
    }
}

impl Controller for NaiveRtController {
    open spec fn wf(&self) -> bool {
        true
    }

    open spec fn dispatch_spec(&self, input: StepInput, state: StepState) -> StepDispatch {
        naive_dispatch_spec(input, state)
    }

    fn dispatch(&self, input: &StepInput, state: &StepState) -> (d: StepDispatch) {
        let (base_demand_kw, ev_after_dr_kw, dr_achieved_kw) = apply_demand_response_kw(
            input.base_demand_raw_kw,
            input.ev_requested_kw,
            input.dr_requested_kw,
        );

        let net_fixed_kw = base_demand_kw + input.solar_kw;

        let ev_cap_kw = capped_flexible_load_kw(
            net_fixed_kw,
            ev_after_dr_kw,
            state.max_import_kw,
            state.battery_max_discharge_kw,
        );

        let net_without_battery_kw = net_fixed_kw + ev_cap_kw;

        let battery_setpoint_kw = constrained_battery_setpoint_kw(
            net_without_battery_kw,
            input.target_kw,
            state.max_import_kw,
            state.max_export_kw,
            state.battery_max_charge_kw,
            state.battery_max_discharge_kw,
        );

        StepDispatch {
            base_demand_kw,
            ev_after_dr_kw,
            ev_cap_kw,
            battery_setpoint_kw,
            dr_achieved_kw,
        }
    }
}

// ---------------------------------------------------------------------------
// GreedyController
// ---------------------------------------------------------------------------

/// Greedy heuristic controller with forecast-aware battery dispatch.
///
/// From the one-day forecast and target it precomputes, for every step,
/// the cumulative battery energy the rest of the day would ask for. When
/// the total expected charge (or discharge) demand exceeds the battery's
/// remaining room (or stored energy), the current setpoint is scaled down
/// proportionally, spreading the shortfall over all the steps that need
/// the battery instead of exhausting it early.
pub struct GreedyController {
    /// Number of timesteps per day.
    pub steps_per_day: usize,
    /// Battery capacity in micro-kWh.
    pub capacity_kwh: i64,
    /// Timestep duration in milli-hours.
    pub dt_mh: i64,
    /// Charge efficiency in parts per million.
    pub eta_c: i64,
    /// Discharge efficiency in parts per million.
    pub eta_d: i64,
    /// Cumulative future charge energy needed from step `t` onward
    /// (stored micro-kWh, one day, length `steps_per_day + 1`).
    pub remaining_charge_kwh: Vec<i128>,
    /// Cumulative future discharge energy needed from step `t` onward
    /// (stored micro-kWh drawn, one day, length `steps_per_day + 1`).
    pub remaining_discharge_kwh: Vec<i128>,
}

/// The deterministic solar estimate at `t` in feeder convention: minus
/// the peak scaled by the daylight dome.
pub open spec fn solar_estimate_spec(
    t: int,
    steps_per_day: int,
    sunrise: int,
    sunset: int,
    kw_peak: int,
) -> int {
    -(kw_peak * daylight_frac_ppm_spec(t, steps_per_day, sunrise, sunset) / PPM as int)
}

/// The target-minus-expected-net residual at step `t` of the planning
/// day: what the battery would have to absorb (positive) or supply
/// (negative) there.
pub open spec fn greedy_residual_spec(
    forecast: Seq<i64>,
    target: Seq<i64>,
    kw_peak: int,
    sunrise: int,
    sunset: int,
    t: int,
) -> int {
    target[t] - (forecast[t] + solar_estimate_spec(
        t,
        forecast.len() as int,
        sunrise,
        sunset,
        kw_peak,
    ))
}

/// The stored energy a positive residual at `t` would ask the battery to
/// absorb: the rate-limited residual over one step, after charge losses.
pub open spec fn charge_contribution_spec(
    forecast: Seq<i64>,
    target: Seq<i64>,
    kw_peak: int,
    sunrise: int,
    sunset: int,
    max_charge_kw: int,
    eta_c: int,
    dt_mh: int,
    t: int,
) -> int {
    let residual = greedy_residual_spec(forecast, target, kw_peak, sunrise, sunset, t);
    if residual > 0 {
        vstd::math::min(residual, max_charge_kw) * dt_mh * eta_c / PPM as int
    } else {
        0
    }
}

/// The stored energy a negative residual at `t` would draw from the
/// battery: the rate-limited magnitude over one step, before discharge
/// losses.
pub open spec fn discharge_contribution_spec(
    forecast: Seq<i64>,
    target: Seq<i64>,
    kw_peak: int,
    sunrise: int,
    sunset: int,
    max_discharge_kw: int,
    eta_d: int,
    dt_mh: int,
    t: int,
) -> int {
    let residual = greedy_residual_spec(forecast, target, kw_peak, sunrise, sunset, t);
    if residual < 0 {
        vstd::math::min(-residual, max_discharge_kw) * dt_mh * PPM as int / eta_d
    } else {
        0
    }
}

/// Total future charge energy from step `t` (inclusive) to the end of the
/// planning day.
pub open spec fn remaining_charge_spec(
    forecast: Seq<i64>,
    target: Seq<i64>,
    kw_peak: int,
    sunrise: int,
    sunset: int,
    max_charge_kw: int,
    eta_c: int,
    dt_mh: int,
    t: int,
) -> int
    decreases forecast.len() - t,
{
    if t < 0 || t >= forecast.len() {
        0
    } else {
        charge_contribution_spec(
            forecast,
            target,
            kw_peak,
            sunrise,
            sunset,
            max_charge_kw,
            eta_c,
            dt_mh,
            t,
        ) + remaining_charge_spec(
            forecast,
            target,
            kw_peak,
            sunrise,
            sunset,
            max_charge_kw,
            eta_c,
            dt_mh,
            t + 1,
        )
    }
}

/// Total future discharge energy from step `t` (inclusive) to the end of
/// the planning day.
pub open spec fn remaining_discharge_spec(
    forecast: Seq<i64>,
    target: Seq<i64>,
    kw_peak: int,
    sunrise: int,
    sunset: int,
    max_discharge_kw: int,
    eta_d: int,
    dt_mh: int,
    t: int,
) -> int
    decreases forecast.len() - t,
{
    if t < 0 || t >= forecast.len() {
        0
    } else {
        discharge_contribution_spec(
            forecast,
            target,
            kw_peak,
            sunrise,
            sunset,
            max_discharge_kw,
            eta_d,
            dt_mh,
            t,
        ) + remaining_discharge_spec(
            forecast,
            target,
            kw_peak,
            sunrise,
            sunset,
            max_discharge_kw,
            eta_d,
            dt_mh,
            t + 1,
        )
    }
}

/// The largest stored-energy amount one planning step can contribute.
pub open spec fn contribution_limit() -> int {
    POWER_LIMIT as int * DAY_MILLI_HOURS as int * PPM as int
}

/// The greedy throttling of the tracking value: when the energy the rest
/// of the day plans to move through the battery, together with this
/// step's own, exceeds what the battery can take (or give), the tracking
/// value is scaled by the ratio of what is available to what is asked.
pub open spec fn greedy_desired_spec(
    tracking_kw: int,
    future_charge: int,
    future_discharge: int,
    capacity_kwh: int,
    soc_ppm: int,
    eta_c: int,
    eta_d: int,
    dt_mh: int,
) -> int {
    if tracking_kw > 0 {
        let current = tracking_kw * dt_mh * eta_c / PPM as int;
        let total = current + future_charge;
        let room = (PPM as int - soc_ppm) * capacity_kwh / PPM as int;
        if total > room && total > 0 {
            tracking_kw * room / total
        } else {
            tracking_kw
        }
    } else if tracking_kw < 0 {
        let current = (-tracking_kw) * dt_mh * PPM as int / eta_d;
        let total = current + future_discharge;
        let available = soc_ppm * capacity_kwh / PPM as int;
        if total > available && total > 0 {
            -((-tracking_kw) * available / total)
        } else {
            tracking_kw
        }
    } else {
        0
    }
}

/// The greedy dispatch: demand response and EV cap as the naive
/// controller, then the capacity-aware throttling of the tracking value,
/// then the same feasibility window.
pub open spec fn greedy_dispatch_spec(
    c: GreedyController,
    input: StepInput,
    state: StepState,
) -> StepDispatch {
    let dr = apply_demand_response_spec(
        input.base_demand_raw_kw as int,
        input.ev_requested_kw as int,
        input.dr_requested_kw as int,
    );
    let net_fixed = dr.0 + input.solar_kw as int;
    let ev_cap = capped_flexible_load_spec(
        net_fixed,
        dr.1,
        state.max_import_kw as int,
        state.battery_max_discharge_kw as int,
    );
    let net_without_battery = net_fixed + ev_cap;
    let constrained_target = clamp_spec(
        input.target_kw as int,
        -state.max_export_kw as int,
        state.max_import_kw as int,
    );
    let tracking = constrained_target - net_without_battery;
    let t_day = input.timestep as int % c.steps_per_day as int;
    let next = vstd::math::min(t_day + 1, c.steps_per_day as int);
    let desired = greedy_desired_spec(
        tracking,
        c.remaining_charge_kwh@[next] as int,
        c.remaining_discharge_kwh@[next] as int,
        c.capacity_kwh as int,
        state.battery_soc as int,
        c.eta_c as int,
        c.eta_d as int,
        c.dt_mh as int,
    );
    let window = battery_feasibility_window_spec(
        net_without_battery,
        state.max_import_kw as int,
        state.max_export_kw as int,
        state.battery_max_charge_kw as int,
        state.battery_max_discharge_kw as int,
    );
    let setpoint = if window.0 <= window.1 {
        clamp_spec(desired, window.0, window.1)
    } else {
        clamp_spec(
            desired,
            -state.battery_max_discharge_kw as int,
            state.battery_max_charge_kw as int,
        )
    };
    StepDispatch {
        base_demand_kw: dr.0 as i64,
        ev_after_dr_kw: dr.1 as i64,
        ev_cap_kw: ev_cap as i64,
        battery_setpoint_kw: setpoint as i64,
        dr_achieved_kw: dr.2 as i64,
    }
}

impl GreedyController {
    /// Creates a new greedy controller with its energy-demand lookahead
    /// precomputed from the one-day forecast and target (reverse prefix
    /// sums of the hypothetical future battery work).
    pub fn new(
        forecast: &Vec<i64>,
        target: &Vec<i64>,
        capacity_kwh: i64,
        max_charge_kw: i64,
        max_discharge_kw: i64,
        initial_soc: i64,
        eta_c: i64,
        eta_d: i64,
        dt_mh: i64,
        solar_kw_peak: i64,
        sunrise_idx: usize,
        sunset_idx: usize,
    ) -> (r: GreedyController)
        requires
            0 < forecast@.len() <= DAY_MILLI_HOURS,
            forecast@.len() == target@.len(),
            forall|i: int|
                0 <= i < forecast@.len() ==> -FLOW_LIMIT <= #[trigger] forecast@[i] <= FLOW_LIMIT,
            forall|i: int|
                0 <= i < target@.len() ==> -FLOW_LIMIT <= #[trigger] target@[i] <= FLOW_LIMIT,
            0 < capacity_kwh <= ENERGY_LIMIT,
            0 <= max_charge_kw <= POWER_LIMIT,
            0 <= max_discharge_kw <= POWER_LIMIT,
            0 <= initial_soc <= PPM,
            0 < eta_c <= PPM,
            0 < eta_d <= PPM,
            1 <= dt_mh <= DAY_MILLI_HOURS,
            0 <= solar_kw_peak <= POWER_LIMIT,
            sunrise_idx < sunset_idx <= forecast@.len(),
        ensures
            r.wf(),
            r.steps_per_day == forecast@.len(),
            r.capacity_kwh == capacity_kwh,
            r.dt_mh == dt_mh,
            r.eta_c == eta_c,
            r.eta_d == eta_d,
            forall|j: int|
                0 <= j <= forecast@.len() ==> #[trigger] r.remaining_charge_kwh@[j] as int
                    == remaining_charge_spec(
                    forecast@,
                    target@,
                    solar_kw_peak as int,
                    sunrise_idx as int,
                    sunset_idx as int,
                    max_charge_kw as int,
                    eta_c as int,
                    dt_mh as int,
                    j,
                ),
            forall|j: int|
                0 <= j <= forecast@.len() ==> #[trigger] r.remaining_discharge_kwh@[j] as int
                    == remaining_discharge_spec(
                    forecast@,
                    target@,
                    solar_kw_peak as int,
                    sunrise_idx as int,
                    sunset_idx as int,
                    max_discharge_kw as int,
                    eta_d as int,
                    dt_mh as int,
                    j,
                ),
    {
        let steps_per_day = forecast.len();
        let mut remaining_charge_kwh: Vec<i128> = vec![0i128; steps_per_day + 1];
        let mut remaining_discharge_kwh: Vec<i128> = vec![0i128; steps_per_day + 1];

        let ghost fseq = forecast@;
        let ghost tseq = target@;

        let mut t = steps_per_day;
        while t > 0
            invariant
                0 <= t <= steps_per_day,
                steps_per_day == fseq.len(),
                fseq.len() == tseq.len(),
                0 < fseq.len() <= DAY_MILLI_HOURS,
                forecast@ == fseq,
                target@ == tseq,
                forall|i: int| 0 <= i < fseq.len() ==> -FLOW_LIMIT <= #[trigger] fseq[i]
                    <= FLOW_LIMIT,
                forall|i: int| 0 <= i < tseq.len() ==> -FLOW_LIMIT <= #[trigger] tseq[i]
                    <= FLOW_LIMIT,
                0 <= max_charge_kw <= POWER_LIMIT,
                0 <= max_discharge_kw <= POWER_LIMIT,
                0 < eta_c <= PPM,
                0 < eta_d <= PPM,
                1 <= dt_mh <= DAY_MILLI_HOURS,
                0 <= solar_kw_peak <= POWER_LIMIT,
                sunrise_idx < sunset_idx <= fseq.len(),
                remaining_charge_kwh@.len() == steps_per_day + 1,
                remaining_discharge_kwh@.len() == steps_per_day + 1,
                forall|j: int|
                    t <= j <= steps_per_day ==> #[trigger] remaining_charge_kwh@[j] as int
                        == remaining_charge_spec(
                        fseq,
                        tseq,
                        solar_kw_peak as int,
                        sunrise_idx as int,
                        sunset_idx as int,
                        max_charge_kw as int,
                        eta_c as int,
                        dt_mh as int,
                        j,
                    ),
                forall|j: int|
                    t <= j <= steps_per_day ==> #[trigger] remaining_discharge_kwh@[j] as int
                        == remaining_discharge_spec(
                        fseq,
                        tseq,
                        solar_kw_peak as int,
                        sunrise_idx as int,
                        sunset_idx as int,
                        max_discharge_kw as int,
                        eta_d as int,
                        dt_mh as int,
                        j,
                    ),
                forall|j: int|
                    0 <= j <= steps_per_day ==> 0 <= #[trigger] remaining_charge_kwh@[j] as int
                        <= (steps_per_day - j) * contribution_limit(),
                forall|j: int|
                    0 <= j <= steps_per_day ==> 0 <= #[trigger] remaining_discharge_kwh@[j] as int
                        <= (steps_per_day - j) * contribution_limit(),
            decreases t,
        {
            t = t - 1;
            let solar_est = Self::estimate_solar_kw(t, steps_per_day, sunrise_idx, sunset_idx,
                solar_kw_peak);
            let net_est = forecast[t] + solar_est;
            let residual = target[t] - net_est;

            let charge_add: i128 = if residual > 0 {
                let charge_kw = min_i64(residual, max_charge_kw);
                proof {
                    lemma_contribution_bounds(charge_kw as int, dt_mh as int, eta_c as int,
                        eta_d as int);
                }
                (charge_kw as i128) * (dt_mh as i128) * (eta_c as i128) / (PPM as i128)
            } else {
                0
            };
            let discharge_add: i128 = if residual < 0 {
                let discharge_kw = min_i64(-residual, max_discharge_kw);
                proof {
                    lemma_contribution_bounds(discharge_kw as int, dt_mh as int, eta_c as int,
                        eta_d as int);
                }
                (discharge_kw as i128) * (dt_mh as i128) * (PPM as i128) / (eta_d as i128)
            } else {
                0
            };

            proof {
                lemma_table_sum_bounds(
                    remaining_charge_kwh@[t as int + 1] as int,
                    remaining_discharge_kwh@[t as int + 1] as int,
                    charge_add as int,
                    discharge_add as int,
                    steps_per_day as int,
                    t as int,
                );
            }
            let next_charge = remaining_charge_kwh[t + 1];
            let next_discharge = remaining_discharge_kwh[t + 1];
            remaining_charge_kwh[t] = charge_add + next_charge;
            remaining_discharge_kwh[t] = discharge_add + next_discharge;
        }

        // The state of charge is read fresh from the step state at each
        // dispatch; the starting value sizes nothing here.
        let _ = initial_soc;
        GreedyController {
            steps_per_day,
            capacity_kwh,
            dt_mh,
            eta_c,
            eta_d,
            remaining_charge_kwh,
            remaining_discharge_kwh,
        }
    }

    /// Estimates the deterministic solar power at `t` (feeder
    /// convention): minus the peak scaled by the daylight dome.
    pub fn estimate_solar_kw(
        t: usize,
        steps_per_day: usize,
        sunrise: usize,
        sunset: usize,
        kw_peak: i64,
    ) -> (r: i64)
        requires
            0 < steps_per_day <= DAY_MILLI_HOURS,
            sunrise < sunset <= steps_per_day,
            0 <= kw_peak <= POWER_LIMIT,
        ensures
            r == solar_estimate_spec(
                t as int,
                steps_per_day as int,
                sunrise as int,
                sunset as int,
                kw_peak as int,
            ),
            -kw_peak <= r <= 0,
    {
        let frac = daylight_frac_ppm(t, steps_per_day, sunrise, sunset);
        proof {
            assert(0 <= kw_peak as int * frac as int <= POWER_LIMIT as int * PPM as int)
                by (nonlinear_arith)
                requires
                    0 <= kw_peak as int,
                    (kw_peak as int) <= POWER_LIMIT as int,
                    0 <= frac as int,
                    (frac as int) <= PPM as int,
            ;
            crate::numeric::lemma_scaled_le(kw_peak as int, frac as int, PPM as int);
        }
        -(kw_peak * frac / PPM)
    }
}

/// One planning step's contribution stays within the contribution limit.
proof fn lemma_contribution_bounds(kw: int, dt_mh: int, eta_c: int, eta_d: int)
    requires
        0 <= kw <= POWER_LIMIT,
        1 <= dt_mh <= DAY_MILLI_HOURS,
        0 < eta_c <= PPM,
        0 < eta_d <= PPM,
    ensures
        0 <= kw * dt_mh * eta_c / PPM as int <= contribution_limit(),
        0 <= kw * dt_mh * PPM as int / eta_d <= contribution_limit(),
        kw * dt_mh * eta_c <= POWER_LIMIT as int * DAY_MILLI_HOURS as int * PPM as int,
        0 <= kw * dt_mh * eta_c,
        kw * dt_mh * PPM as int <= POWER_LIMIT as int * DAY_MILLI_HOURS as int * PPM as int,
        0 <= kw * dt_mh * PPM as int,
{
    assert(0 <= kw * dt_mh * eta_c && kw * dt_mh * eta_c <= POWER_LIMIT as int * DAY_MILLI_HOURS
        as int * PPM as int && 0 <= kw * dt_mh * eta_c / PPM as int && kw * dt_mh * eta_c
        / PPM as int <= contribution_limit() && 0 <= kw * dt_mh * PPM as int && kw * dt_mh
        * PPM as int <= POWER_LIMIT as int * DAY_MILLI_HOURS as int * PPM as int && 0 <= kw
        * dt_mh * PPM as int / eta_d && kw * dt_mh * PPM as int / eta_d <= contribution_limit())
        by (nonlinear_arith)
        requires
            0 <= kw <= POWER_LIMIT,
            1 <= dt_mh <= DAY_MILLI_HOURS,
            0 < eta_c <= PPM,
            0 < eta_d <= PPM,
    ;
}

/// Adding one bounded contribution to a bounded suffix sum stays bounded.
proof fn lemma_table_sum_bounds(
    next_charge: int,
    next_discharge: int,
    charge_add: int,
    discharge_add: int,
    steps_per_day: int,
    t: int,
)
    requires
        0 <= t < steps_per_day <= DAY_MILLI_HOURS,
        0 <= next_charge <= (steps_per_day - t - 1) * contribution_limit(),
        0 <= next_discharge <= (steps_per_day - t - 1) * contribution_limit(),
        0 <= charge_add <= contribution_limit(),
        0 <= discharge_add <= contribution_limit(),
    ensures
        0 <= charge_add + next_charge <= (steps_per_day - t) * contribution_limit(),
        0 <= discharge_add + next_discharge <= (steps_per_day - t) * contribution_limit(),
        (steps_per_day - t) * contribution_limit() <= DAY_MILLI_HOURS as int
            * contribution_limit(),
{
    assert((steps_per_day - t - 1) * contribution_limit() + contribution_limit() == (steps_per_day
        - t) * contribution_limit() && (steps_per_day - t) * contribution_limit()
        <= DAY_MILLI_HOURS as int * contribution_limit()) by (nonlinear_arith)
        requires
            0 <= t < steps_per_day <= DAY_MILLI_HOURS,
    ;
}

impl Controller for GreedyController {
    /// Table lengths match the planning day and every entry is a bounded
    /// non-negative suffix sum.
    open spec fn wf(&self) -> bool {
        &&& 0 < self.steps_per_day <= DAY_MILLI_HOURS
        &&& 0 < self.capacity_kwh <= ENERGY_LIMIT
        &&& 1 <= self.dt_mh <= DAY_MILLI_HOURS
        &&& 0 < self.eta_c <= PPM
        &&& 0 < self.eta_d <= PPM
        &&& self.remaining_charge_kwh@.len() == self.steps_per_day + 1
        &&& self.remaining_discharge_kwh@.len() == self.steps_per_day + 1
        &&& forall|j: int|
            0 <= j <= self.steps_per_day ==> 0 <= #[trigger] self.remaining_charge_kwh@[j] as int
                <= DAY_MILLI_HOURS as int * contribution_limit()
        &&& forall|j: int|
            0 <= j <= self.steps_per_day ==> 0 <= #[trigger] self.remaining_discharge_kwh@[j]
                as int <= DAY_MILLI_HOURS as int * contribution_limit()
    }

    open spec fn dispatch_spec(&self, input: StepInput, state: StepState) -> StepDispatch {
        greedy_dispatch_spec(*self, input, state)
    }

    fn dispatch(&self, input: &StepInput, state: &StepState) -> (d: StepDispatch) {
        let (base_demand_kw, ev_after_dr_kw, dr_achieved_kw) = apply_demand_response_kw(
            input.base_demand_raw_kw,
            input.ev_requested_kw,
            input.dr_requested_kw,
        );

        let net_fixed_kw = base_demand_kw + input.solar_kw;
        let ev_cap_kw = capped_flexible_load_kw(
            net_fixed_kw,
            ev_after_dr_kw,
            state.max_import_kw,
            state.battery_max_discharge_kw,
        );

        let net_without_battery_kw = net_fixed_kw + ev_cap_kw;

        let constrained_target = clamp_i64(input.target_kw, -state.max_export_kw,
            state.max_import_kw);
        let tracking_kw = constrained_target - net_without_battery_kw;

        let t_mod = input.timestep % self.steps_per_day;
        let next = if t_mod + 1 < self.steps_per_day {
            t_mod + 1
        } else {
            self.steps_per_day
        };

        proof {
            lemma_greedy_energy_bounds(
                tracking_kw as int,
                self.dt_mh as int,
                self.eta_c as int,
                self.eta_d as int,
                state.battery_soc as int,
                self.capacity_kwh as int,
            );
        }
        let desired_kw: i64 = if tracking_kw > 0 {
            let current_energy = (tracking_kw as i128) * (self.dt_mh as i128) * (self.eta_c
                as i128) / (PPM as i128);
            let future_energy = self.remaining_charge_kwh[next];
            let total_demand = current_energy + future_energy;
            let available_room = ((PPM - state.battery_soc) as i128) * (self.capacity_kwh as i128)
                / (PPM as i128);
            proof {
                lemma_greedy_scale(
                    tracking_kw as int,
                    current_energy as int,
                    future_energy as int,
                    available_room as int,
                );
            }
            if total_demand > available_room && total_demand > 0 {
                ((tracking_kw as i128) * available_room / total_demand) as i64
            } else {
                tracking_kw
            }
        } else if tracking_kw < 0 {
            let current_energy = ((-tracking_kw) as i128) * (self.dt_mh as i128) * (PPM as i128)
                / (self.eta_d as i128);
            let future_energy = self.remaining_discharge_kwh[next];
            let total_demand = current_energy + future_energy;
            let available_energy = (state.battery_soc as i128) * (self.capacity_kwh as i128) / (
            PPM as i128);
            proof {
                lemma_greedy_scale(
                    (-tracking_kw) as int,
                    current_energy as int,
                    future_energy as int,
                    available_energy as int,
                );
            }
            if total_demand > available_energy && total_demand > 0 {
                -(((-tracking_kw) as i128) * available_energy / total_demand) as i64
            } else {
                tracking_kw
            }
        } else {
            0
        };

        let (low_kw, high_kw) = battery_feasibility_window(
            net_without_battery_kw,
            state.max_import_kw,
            state.max_export_kw,
            state.battery_max_charge_kw,
            state.battery_max_discharge_kw,
        );

        let battery_setpoint_kw = if low_kw <= high_kw {
            clamp_i64(desired_kw, low_kw, high_kw)
        } else {
            clamp_i64(desired_kw, -state.battery_max_discharge_kw, state.battery_max_charge_kw)
        };

        StepDispatch {
            base_demand_kw,
            ev_after_dr_kw,
            ev_cap_kw,
            battery_setpoint_kw,
            dr_achieved_kw,
        }
    }
}

/// The capacity, unchanged: a hook for naming the scale computation.
pub open spec fn state_capacity(capacity_kwh: i64) -> int {
    capacity_kwh as int
}


/// Every product the greedy throttling forms stays far inside the wide
/// integer range.
proof fn lemma_greedy_energy_bounds(
    tracking: int,
    dt_mh: int,
    eta_c: int,
    eta_d: int,
    soc: int,
    cap: int,
)
    requires
        -4 * FLOW_LIMIT <= tracking <= 4 * FLOW_LIMIT,
        1 <= dt_mh <= DAY_MILLI_HOURS,
        0 < eta_c <= PPM,
        0 < eta_d <= PPM,
        0 <= soc <= PPM,
        0 < cap <= ENERGY_LIMIT,
    ensures
        tracking > 0 ==> 0 <= tracking * dt_mh <= 4 * FLOW_LIMIT as int * DAY_MILLI_HOURS as int,
        tracking < 0 ==> 0 <= (-tracking) * dt_mh <= 4 * FLOW_LIMIT as int
            * DAY_MILLI_HOURS as int,
        tracking > 0 ==> 0 <= tracking * dt_mh * eta_c <= 4 * FLOW_LIMIT as int
            * DAY_MILLI_HOURS as int * PPM as int,
        tracking > 0 ==> 0 <= tracking * dt_mh * eta_c / PPM as int <= 4 * FLOW_LIMIT as int
            * DAY_MILLI_HOURS as int,
        tracking < 0 ==> 0 <= (-tracking) * dt_mh * PPM as int <= 4 * FLOW_LIMIT as int
            * DAY_MILLI_HOURS as int * PPM as int,
        tracking < 0 ==> 0 <= (-tracking) * dt_mh * PPM as int / eta_d <= 4 * FLOW_LIMIT as int
            * DAY_MILLI_HOURS as int * PPM as int,
        0 <= (PPM as int - soc) * cap <= PPM as int * ENERGY_LIMIT as int,
        0 <= (PPM as int - soc) * cap / PPM as int <= ENERGY_LIMIT as int,
        0 <= soc * cap <= PPM as int * ENERGY_LIMIT as int,
        0 <= soc * cap / PPM as int <= ENERGY_LIMIT as int,
{
    assert((tracking > 0 ==> 0 <= tracking * dt_mh <= 4 * FLOW_LIMIT as int
        * DAY_MILLI_HOURS as int) && (tracking < 0 ==> 0 <= (-tracking) * dt_mh <= 4
        * FLOW_LIMIT as int * DAY_MILLI_HOURS as int) && (tracking > 0 ==> 0 <= tracking * dt_mh
        * eta_c <= 4 * FLOW_LIMIT as int
        * DAY_MILLI_HOURS as int * PPM as int && 0 <= tracking * dt_mh * eta_c / PPM as int <= 4
        * FLOW_LIMIT as int * DAY_MILLI_HOURS as int) && (tracking < 0 ==> 0 <= (-tracking)
        * dt_mh * PPM as int <= 4 * FLOW_LIMIT as int * DAY_MILLI_HOURS as int * PPM as int && 0
        <= (-tracking) * dt_mh * PPM as int / eta_d <= 4 * FLOW_LIMIT as int
        * DAY_MILLI_HOURS as int * PPM as int) && 0 <= (PPM as int - soc) * cap && (PPM as int
        - soc) * cap <= PPM as int * ENERGY_LIMIT as int && 0 <= (PPM as int - soc) * cap
        / PPM as int <= ENERGY_LIMIT as int && 0 <= soc * cap <= PPM as int * ENERGY_LIMIT as int
        && 0 <= soc * cap / PPM as int <= ENERGY_LIMIT as int) by (nonlinear_arith)
        requires
            -4 * FLOW_LIMIT as int <= tracking,
            tracking <= 4 * FLOW_LIMIT as int,
            1 <= dt_mh <= DAY_MILLI_HOURS as int,
            0 < eta_c <= PPM as int,
            0 < eta_d <= PPM as int,
            0 <= soc <= PPM as int,
            0 < cap <= ENERGY_LIMIT as int,
    ;
}

/// Proportional throttling never enlarges the tracking magnitude and
/// keeps it non-negative.
proof fn lemma_greedy_scale(tracking: int, current: int, future: int, room: int)
    requires
        0 <= tracking <= 4 * FLOW_LIMIT,
        0 <= current,
        0 <= future,
        0 <= room <= ENERGY_LIMIT,
    ensures
        0 <= tracking * room <= 4 * FLOW_LIMIT as int * ENERGY_LIMIT as int,
        current + future > room && current + future > 0 ==> 0 <= tracking * room / (current
            + future) <= tracking,
{
    let total = current + future;
    assert(0 <= tracking * room <= 4 * FLOW_LIMIT as int * ENERGY_LIMIT as int)
        by (nonlinear_arith)
        requires
            0 <= tracking <= 4 * FLOW_LIMIT as int,
            0 <= room <= ENERGY_LIMIT as int,
    ;
    if total > room && total > 0 {
        assert(0 <= tracking * room / total <= tracking) by (nonlinear_arith)
            requires
                0 <= tracking,
                0 <= room < total,
        ;
    }
}

} // verus!
