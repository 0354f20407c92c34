//! A battery energy storage system that can charge and discharge.
//!
//! All quantities are scaled integers: capacity and stored energy in
//! micro-kWh, rates in milli-kW, efficiencies in parts per million.
//!
//! # Power flow convention (feeder)
//! - Positive power: charging (consuming power from the grid).
//! - Negative power: discharging (supplying power to the grid).

use vstd::prelude::*;

verus! {

use crate::devices::types::DeviceContext;
use crate::numeric::{
    clamp_spec,
    clamp_i64,
    div_ceil,
    div_ceil_spec,
    min_i64,
    DAY_MILLI_HOURS,
    ENERGY_LIMIT,
    POWER_LIMIT,
    PPM,
};

/// A battery with configurable capacity, charge/discharge rate limits and
/// efficiencies. It holds its stored energy exactly (micro-kWh) and
/// enforces rate and state-of-charge constraints when given setpoints.
pub struct Battery {
    /// Battery capacity in micro-kWh (positive).
    pub capacity_kwh: i64,
    /// Stored energy in micro-kWh; the state of charge is this over the
    /// capacity.
    pub stored_kwh: i64,
    /// Maximum charge power in milli-kW (non-negative).
    pub max_charge_kw: i64,
    /// Maximum discharge power in milli-kW (non-negative).
    pub max_discharge_kw: i64,
    /// Charging efficiency in parts per million, in `(0, 1]` of the whole.
    pub eta_c: i64,
    /// Discharging efficiency in parts per million, in `(0, 1]` of the whole.
    pub eta_d: i64,
    /// Number of time steps per day.
    pub steps_per_day: usize,
}

/// What one battery dispatch does: the grid-side power actually exchanged
/// (milli-kW, feeder convention) and the stored energy afterwards.
pub struct BatteryStep {
    /// Actual grid-side power (milli-kW; positive charges, negative
    /// discharges).
    pub actual_kw: int,
    /// Stored energy after the step (micro-kWh).
    pub stored_kwh: int,
}

impl Battery {
    /// Parameter validity: positive capacity, stored energy within the
    /// capacity, non-negative rate limits, efficiencies in `(0, 1]`, and
    /// the machine bounds that keep every product within `i64`.
    pub open spec fn wf(&self) -> bool {
        &&& 0 < self.capacity_kwh <= ENERGY_LIMIT
        &&& 0 <= self.stored_kwh <= self.capacity_kwh
        &&& 0 <= self.max_charge_kw <= POWER_LIMIT
        &&& 0 <= self.max_discharge_kw <= POWER_LIMIT
        &&& 0 < self.eta_c <= PPM
        &&& 0 < self.eta_d <= PPM
        &&& 0 < self.steps_per_day <= DAY_MILLI_HOURS
    }

    /// Duration of one step in milli-hours.
    pub open spec fn dt_mh(&self) -> int {
        DAY_MILLI_HOURS as int / self.steps_per_day as int
    }

    /// State of charge in parts per million of the capacity.
    pub open spec fn soc_ppm_spec(&self) -> int {
        self.stored_kwh as int * PPM as int / self.capacity_kwh as int
    }

    /// What `power_kw` does for a given setpoint: saturate the setpoint to
    /// the rate limits, then limit the exchanged energy so the stored
    /// energy stays within `[0, capacity]`, with grid-side efficiency
    /// accounting on both directions.
    pub open spec fn step_spec(&self, setpoint_kw: int) -> BatteryStep {
        let dt = self.dt_mh();
        let cmd = clamp_spec(setpoint_kw, -self.max_discharge_kw as int, self.max_charge_kw as int);
        if cmd > 0 {
            let headroom = self.capacity_kwh - self.stored_kwh;
            let max_grid_energy = headroom * PPM / self.eta_c as int;
            let actual = vstd::math::min(cmd, max_grid_energy / dt);
            let gain = actual * dt * self.eta_c / PPM as int;
            BatteryStep {
                actual_kw: actual,
                stored_kwh: vstd::math::min(self.capacity_kwh as int, self.stored_kwh + gain),
            }
        } else if cmd < 0 {
            let deliverable = self.stored_kwh * self.eta_d / PPM as int;
            let mag = vstd::math::min(-cmd, deliverable / dt);
            let drawn = div_ceil_spec(mag * dt * PPM, self.eta_d as int);
            BatteryStep {
                actual_kw: -mag,
                stored_kwh: vstd::math::max(0, self.stored_kwh - drawn),
            }
        } else {
            BatteryStep { actual_kw: 0, stored_kwh: self.stored_kwh as int }
        }
    }

    /// Creates a new battery; the validity of the parameters is the
    /// caller's burden (`wf` of the result).
    pub fn new(
        capacity_kwh: i64,
        stored_kwh: i64,
        max_charge_kw: i64,
        max_discharge_kw: i64,
        eta_c: i64,
        eta_d: i64,
        steps_per_day: usize,
    ) -> (r: Battery)
        requires
            0 < capacity_kwh <= ENERGY_LIMIT,
            0 <= stored_kwh <= capacity_kwh,
            0 <= max_charge_kw <= POWER_LIMIT,
            0 <= max_discharge_kw <= POWER_LIMIT,
            0 < eta_c <= PPM,
            0 < eta_d <= PPM,
            0 < steps_per_day <= DAY_MILLI_HOURS,
        ensures
            r == (Battery {
                capacity_kwh,
                stored_kwh,
                max_charge_kw,
                max_discharge_kw,
                eta_c,
                eta_d,
                steps_per_day,
            }),
            r.wf(),
    {
        Battery {
            capacity_kwh,
            stored_kwh,
            max_charge_kw,
            max_discharge_kw,
            eta_c,
            eta_d,
            steps_per_day,
        }
    }

    /// State of charge in parts per million (0 = empty, 1 000 000 = full).
    pub fn soc_ppm(&self) -> (r: i64)
        requires
            self.wf(),
        ensures
            r == self.soc_ppm_spec(),
            0 <= r <= PPM,
    {
        proof {
            crate::numeric::lemma_scaled_le(PPM as int, self.stored_kwh as int,
                self.capacity_kwh as int);
            assert(self.stored_kwh as int * PPM as int == PPM as int * self.stored_kwh as int)
                by (nonlinear_arith);
        }
        self.stored_kwh * PPM / self.capacity_kwh
    }

    /// Returns the actual grid-side power for a setpoint, after enforcing
    /// rate limits and state-of-charge limits, and updates the stored
    /// energy. The actual power is negative exactly when the battery
    /// discharges (its stored energy falls), and a non-negative power
    /// never drains it. The converse of the charge direction holds only
    /// above the model's quantum: a charge whose stored gain over one
    /// step is under one micro-kWh truncates to no gain at all, so a
    /// positive power can leave the stored energy unchanged.
    pub fn power_kw(&mut self, context: &DeviceContext) -> (r: i64)
        requires
            old(self).wf(),
        ensures
            final(self).wf(),
            r == old(self).step_spec(spec_setpoint(context.setpoint_kw)).actual_kw,
            final(self).stored_kwh == old(self).step_spec(
                spec_setpoint(context.setpoint_kw),
            ).stored_kwh,
            final(self).capacity_kwh == old(self).capacity_kwh,
            final(self).max_charge_kw == old(self).max_charge_kw,
            final(self).max_discharge_kw == old(self).max_discharge_kw,
            final(self).eta_c == old(self).eta_c,
            final(self).eta_d == old(self).eta_d,
            final(self).steps_per_day == old(self).steps_per_day,
            -old(self).max_discharge_kw <= r <= old(self).max_charge_kw,
            r < 0 <==> final(self).stored_kwh < old(self).stored_kwh,
            r >= 0 ==> final(self).stored_kwh >= old(self).stored_kwh,
    {
        let setpoint_kw: i64 = match context.setpoint_kw {
            Some(s) => s,
            None => 0,
        };
        let dt = DAY_MILLI_HOURS / (self.steps_per_day as i64);
        proof {
            assert(1 <= dt as int <= DAY_MILLI_HOURS as int) by (nonlinear_arith)
                requires
                    dt as int == DAY_MILLI_HOURS as int / self.steps_per_day as int,
                    0 < self.steps_per_day as int <= DAY_MILLI_HOURS as int,
            ;
        }
        let cmd = clamp_i64(setpoint_kw, -self.max_discharge_kw, self.max_charge_kw);
        if cmd > 0 {
            let headroom = self.capacity_kwh - self.stored_kwh;
            let max_grid_energy = headroom * PPM / self.eta_c;
            let actual = min_i64(cmd, max_grid_energy / dt);
            proof {
                lemma_charge_energy_fits(
                    headroom as int,
                    self.eta_c as int,
                    dt as int,
                    actual as int,
                );
            }
            let gain = actual * dt * self.eta_c / PPM;
            self.stored_kwh = min_i64(self.capacity_kwh, self.stored_kwh + gain);
            actual
        } else if cmd < 0 {
            proof {
                assert(0 <= self.stored_kwh as int * self.eta_d as int <= ENERGY_LIMIT as int
                    * PPM as int) by (nonlinear_arith)
                    requires
                        0 <= self.stored_kwh as int <= ENERGY_LIMIT as int,
                        0 < self.eta_d as int <= PPM as int,
                ;
                crate::numeric::lemma_scaled_le(self.stored_kwh as int, self.eta_d as int,
                    PPM as int);
            }
            let deliverable = self.stored_kwh * self.eta_d / PPM;
            let mag = min_i64(-cmd, deliverable / dt);
            proof {
                lemma_discharge_energy_fits(
                    self.stored_kwh as int,
                    self.eta_d as int,
                    dt as int,
                    mag as int,
                );
            }
            let drawn = div_ceil(mag * dt * PPM, self.eta_d);
            proof {
                lemma_discharge_drawn_le_stored(
                    self.stored_kwh as int,
                    self.eta_d as int,
                    dt as int,
                    mag as int,
                    drawn as int,
                );
            }
            self.stored_kwh = self.stored_kwh - drawn;
            -mag
        } else {
            0
        }
    }

    /// A human-readable type name for the device.
    pub fn device_type(&self) -> (r: &'static str)
        ensures
            r@ == "Battery"@,
    {
        "Battery"
    }
}

/// The setpoint a context carries, zero when it carries none.
pub open spec fn spec_setpoint(setpoint: Option<i64>) -> int {
    match setpoint {
        Some(s) => s as int,
        None => 0,
    }
}

/// Grid-side charge energy limited by the headroom never overfills the
/// battery: `actual * dt * eta / PPM <= headroom` when
/// `actual <= (headroom * PPM / eta) / dt`.
proof fn lemma_charge_energy_fits(headroom: int, eta: int, dt: int, actual: int)
    requires
        0 <= headroom <= ENERGY_LIMIT,
        0 < eta <= PPM,
        0 < dt <= DAY_MILLI_HOURS,
        0 <= actual <= headroom * PPM / eta / dt,
        actual <= POWER_LIMIT,
    ensures
        0 <= actual * dt <= POWER_LIMIT * DAY_MILLI_HOURS,
        0 <= actual * dt * eta <= POWER_LIMIT * DAY_MILLI_HOURS * PPM,
        0 <= actual * dt * eta / PPM as int <= headroom,
{
    let max_grid = headroom * PPM / eta;
    assert(0 <= actual * dt <= POWER_LIMIT * DAY_MILLI_HOURS && actual * dt <= max_grid)
        by (nonlinear_arith)
        requires
            0 <= headroom,
            0 < eta <= PPM,
            0 < dt <= DAY_MILLI_HOURS,
            0 <= actual <= max_grid / dt,
            actual <= POWER_LIMIT,
            max_grid == headroom * PPM / eta,
    ;
    assert(0 <= actual * dt * eta <= POWER_LIMIT * DAY_MILLI_HOURS * PPM && actual * dt * eta
        <= headroom * PPM) by (nonlinear_arith)
        requires
            0 <= actual * dt <= max_grid,
            actual * dt <= POWER_LIMIT * DAY_MILLI_HOURS,
            0 < eta <= PPM,
            0 <= headroom,
            max_grid == headroom * PPM / eta,
    ;
    assert(0 <= actual * dt * eta / PPM as int <= headroom) by (nonlinear_arith)
        requires
            0 <= actual * dt * eta <= headroom * PPM,
            0 <= headroom,
    ;
}

/// A discharge magnitude limited by the deliverable energy keeps every
/// product within `i64`.
proof fn lemma_discharge_energy_fits(stored: int, eta: int, dt: int, mag: int)
    requires
        0 <= stored <= ENERGY_LIMIT,
        0 < eta <= PPM,
        0 < dt <= DAY_MILLI_HOURS,
        0 <= mag <= POWER_LIMIT,
    ensures
        0 <= mag * dt * PPM <= POWER_LIMIT * DAY_MILLI_HOURS * PPM,
{
    assert(0 <= mag * dt * PPM <= POWER_LIMIT * DAY_MILLI_HOURS * PPM) by (nonlinear_arith)
        requires
            0 < dt <= DAY_MILLI_HOURS,
            0 <= mag <= POWER_LIMIT,
    ;
}

/// The stored energy drawn for a delivered discharge never exceeds what is
/// stored: `ceil(mag * dt * PPM / eta) <= stored` when
/// `mag <= (stored * eta / PPM) / dt`; and it is positive as soon as any
/// power is delivered.
proof fn lemma_discharge_drawn_le_stored(stored: int, eta: int, dt: int, mag: int, drawn: int)
    requires
        0 <= stored <= ENERGY_LIMIT,
        0 < eta <= PPM,
        0 < dt <= DAY_MILLI_HOURS,
        0 <= mag <= stored * eta / PPM as int / dt,
        mag <= POWER_LIMIT,
        drawn == div_ceil_spec(mag * dt * PPM, eta),
    ensures
        0 <= drawn <= stored,
        mag > 0 ==> drawn > 0,
        mag == 0 ==> drawn == 0,
{
    let deliverable = stored * eta / PPM as int;
    assert(mag * dt * PPM <= stored * eta && 0 <= mag * dt * PPM && (mag > 0 ==> mag * dt * PPM
        >= PPM)) by (nonlinear_arith)
        requires
            0 <= stored,
            0 < eta <= PPM,
            0 < dt,
            0 <= mag <= deliverable / dt,
            deliverable == stored * eta / PPM as int,
    ;
    assert(drawn <= stored && 0 <= drawn && (mag > 0 ==> drawn > 0) && (mag == 0 ==> drawn == 0))
        by (nonlinear_arith)
        requires
            drawn == (mag * dt * PPM + eta - 1) / eta,
            0 <= mag * dt * PPM <= stored * eta,
            (mag > 0 ==> mag * dt * PPM >= PPM),
            0 < eta <= PPM,
            0 <= stored,
            mag >= 0,
    ;
}

/// Every dispatch lands the stored energy back inside `[0, capacity]` and
/// the actual power inside the rate limits.
pub proof fn lemma_battery_step_in_range(b: Battery, sp: int)
    requires
        b.wf(),
    ensures
        0 <= b.step_spec(sp).stored_kwh <= b.capacity_kwh,
        -b.max_discharge_kw <= b.step_spec(sp).actual_kw <= b.max_charge_kw,
{
    let dt = b.dt_mh();
    assert(1 <= dt <= DAY_MILLI_HOURS as int) by (nonlinear_arith)
        requires
            dt == DAY_MILLI_HOURS as int / b.steps_per_day as int,
            0 < b.steps_per_day as int <= DAY_MILLI_HOURS as int,
    ;
    let cmd = clamp_spec(sp, -b.max_discharge_kw as int, b.max_charge_kw as int);
    if cmd > 0 {
        let headroom = b.capacity_kwh - b.stored_kwh;
        let max_grid = headroom * PPM / b.eta_c as int;
        let actual = vstd::math::min(cmd, max_grid / dt);
        assert(0 <= max_grid / dt) by (nonlinear_arith)
            requires
                0 <= headroom,
                0 < b.eta_c as int,
                0 < dt,
                max_grid == headroom * PPM / b.eta_c as int,
        ;
        lemma_charge_energy_fits(headroom as int, b.eta_c as int, dt, actual);
    } else if cmd < 0 {
        let deliverable = b.stored_kwh * b.eta_d / PPM as int;
        crate::numeric::lemma_scaled_le(b.stored_kwh as int, b.eta_d as int, PPM as int);
        let mag = vstd::math::min(-cmd, deliverable / dt);
        assert(0 <= deliverable / dt) by (nonlinear_arith)
            requires
                0 <= deliverable,
                0 < dt,
        ;
        let drawn = div_ceil_spec(mag * dt * PPM, b.eta_d as int);
        lemma_discharge_drawn_le_stored(b.stored_kwh as int, b.eta_d as int, dt, mag, drawn);
    }
}

/// With unit efficiencies the stored energy moves by exactly the
/// exchanged grid-side energy: no losses, no rounding.
pub proof fn lemma_battery_step_exact(b: Battery, sp: int)
    requires
        b.wf(),
        b.eta_c == PPM,
        b.eta_d == PPM,
    ensures
        b.step_spec(sp).stored_kwh == b.stored_kwh + b.step_spec(sp).actual_kw * b.dt_mh(),
{
    let dt = b.dt_mh();
    assert(1 <= dt <= DAY_MILLI_HOURS as int) by (nonlinear_arith)
        requires
            dt == DAY_MILLI_HOURS as int / b.steps_per_day as int,
            0 < b.steps_per_day as int <= DAY_MILLI_HOURS as int,
    ;
    let cmd = clamp_spec(sp, -b.max_discharge_kw as int, b.max_charge_kw as int);
    if cmd > 0 {
        let headroom = b.capacity_kwh - b.stored_kwh;
        let max_grid = headroom * PPM / b.eta_c as int;
        let actual = vstd::math::min(cmd, max_grid / dt);
        let gain = actual * dt * b.eta_c / PPM as int;
        assert(max_grid == headroom) by (nonlinear_arith)
            requires
                max_grid == headroom * (PPM as int) / (PPM as int),
        ;
        assert(0 <= actual && actual * dt <= headroom) by (nonlinear_arith)
            requires
                0 <= headroom,
                0 < dt,
                actual == vstd::math::min(cmd, headroom / dt),
                0 < cmd,
        ;
        assert(gain == actual * dt) by (nonlinear_arith)
            requires
                gain == actual * dt * (PPM as int) / (PPM as int),
        ;
        assert(b.step_spec(sp).stored_kwh == b.stored_kwh + gain);
        assert(b.step_spec(sp).actual_kw == actual);
        assert(b.step_spec(sp).actual_kw * b.dt_mh() == actual * dt);
        assert(b.step_spec(sp).stored_kwh == b.stored_kwh + b.step_spec(sp).actual_kw
            * b.dt_mh());
    } else if cmd < 0 {
        let deliverable = b.stored_kwh * b.eta_d / PPM as int;
        let mag = vstd::math::min(-cmd, deliverable / dt);
        let drawn = div_ceil_spec(mag * dt * PPM, b.eta_d as int);
        assert(deliverable == b.stored_kwh) by (nonlinear_arith)
            requires
                deliverable == b.stored_kwh as int * (PPM as int) / (PPM as int),
        ;
        assert(0 <= mag && mag * dt <= b.stored_kwh) by (nonlinear_arith)
            requires
                0 <= b.stored_kwh,
                0 < dt,
                mag == vstd::math::min(-cmd, b.stored_kwh as int / dt),
                cmd < 0,
        ;
        assert(drawn == mag * dt) by (nonlinear_arith)
            requires
                0 <= mag * dt,
                drawn == (mag * dt * (PPM as int) + (PPM as int) - 1) / (PPM as int),
        ;
        assert(b.step_spec(sp).stored_kwh == b.stored_kwh - mag * dt);
        assert(b.step_spec(sp).actual_kw == -mag);
        assert((-mag) * dt == -(mag * dt)) by (nonlinear_arith);
        assert(b.step_spec(sp).stored_kwh == b.stored_kwh + b.step_spec(sp).actual_kw
            * b.dt_mh());
    } else {
        assert(b.step_spec(sp).actual_kw == 0);
        assert(b.step_spec(sp).stored_kwh == b.stored_kwh);
        assert(0 * b.dt_mh() == 0) by (nonlinear_arith);
        assert(b.step_spec(sp).stored_kwh == b.stored_kwh + b.step_spec(sp).actual_kw
            * b.dt_mh());
    }
}

} // verus!
