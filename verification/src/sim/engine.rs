//! Simulation engine that orchestrates devices, controller, and power
//! balance.
//!
//! The engine owns every device and the feeder exclusively and executes
//! steps in order. Setpoints are applied in a fixed order — EV first,
//! battery last — because the EV cap is a feasibility input to the
//! battery decision while the battery commits the final grid-side
//! balance.
//!
//! Every step is pinned by a mathematical model of the engine state
//! ([`EngineModel`]); a whole run is the fold of the step function over
//! it, which is what makes reruns provably byte-identical.

use vstd::prelude::*;

verus! {

use crate::devices::baseload::{baseload_power_spec, BaseLoad};
use crate::devices::battery::Battery;
use crate::devices::ev_charger::{
    ev_actual_spec,
    requested_rate_spec,
    session_spec,
    EvCharger,
    EvSession,
};
use crate::devices::solar::solar_gen_spec;
use crate::devices::solar_ar1::{ar1_next_multiplier_spec, ar1_power_spec};
use crate::devices::types::{daylight_frac_ppm_spec, DeviceContext, Solar};
use crate::numeric::{DAY_MILLI_HOURS, FLOW_LIMIT, POWER_LIMIT, PPM};
use crate::rng::{noise_spec, std_rng_word};
use crate::sim::controller::Controller;
use crate::sim::event::DemandResponseEvent;
use crate::sim::feeder::Feeder;
use crate::sim::power_balance::feeder_net_kw;
use crate::sim::types::{SimConfig, StepInput, StepResult, StepState};

/// The mathematical state of a baseload: its parameters and the position
/// of its word stream.
pub struct BaseLoadModel {
    /// Baseline power (milli-kW).
    pub base_kw: int,
    /// Wave amplitude (milli-kW).
    pub amp_kw: int,
    /// Phase (milli-cycles).
    pub phase_milli: int,
    /// Noise standard deviation (milli-kW).
    pub noise_std: int,
    /// Steps per day.
    pub steps_per_day: int,
    /// Stream seed.
    pub seed: u64,
    /// Stream position.
    pub position: int,
}

/// The mathematical state of a solar array: the variant's parameters, the
/// cloud multiplier where there is one, and the stream position.
pub enum SolarModel {
    /// Independent noise per daylight step.
    Simple {
        /// Peak power (milli-kW).
        kw_peak: int,
        /// Steps per day.
        steps_per_day: int,
        /// Sunrise step (inclusive).
        sunrise_idx: int,
        /// Sunset step (exclusive).
        sunset_idx: int,
        /// Noise standard deviation (milli-fraction).
        noise_std: int,
        /// Stream seed.
        seed: u64,
        /// Stream position.
        position: int,
    },
    /// AR(1) cloud multiplier.
    Ar1 {
        /// Peak power (milli-kW).
        kw_peak: int,
        /// Steps per day.
        steps_per_day: int,
        /// Sunrise step (inclusive).
        sunrise_idx: int,
        /// Sunset step (exclusive).
        sunset_idx: int,
        /// AR coefficient (milli).
        alpha: int,
        /// Innovation noise standard deviation (milli).
        cloud_noise_std: int,
        /// Current multiplier (milli).
        multiplier: int,
        /// Stream seed.
        seed: u64,
        /// Stream position.
        position: int,
    },
}

/// The mathematical state of the EV charger: its parameters, the sampling
/// state and the stream position.
pub struct EvModel {
    /// Rate limit (milli-kW).
    pub max_charge_kw: int,
    /// Steps per day.
    pub steps_per_day: int,
    /// Step duration (milli-hours).
    pub dt_mh: int,
    /// Demand range (micro-kWh).
    pub demand_kwh_min: int,
    /// Demand range (micro-kWh).
    pub demand_kwh_max: int,
    /// Dwell range (steps).
    pub dwell_steps_min: int,
    /// Dwell range (steps).
    pub dwell_steps_max: int,
    /// The day whose session is sampled.
    pub sampled_day: Option<usize>,
    /// That day's session.
    pub session: Option<EvSession>,
    /// Stream seed.
    pub seed: u64,
    /// Stream position.
    pub position: int,
}

/// The mathematical state of a whole engine: device models, limits,
/// schedules and the controller value.
pub struct EngineModel<C> {
    /// Simulation configuration.
    pub config: SimConfig,
    /// Baseload model.
    pub load: BaseLoadModel,
    /// Solar model.
    pub pv: SolarModel,
    /// The battery (already pure data).
    pub battery: Battery,
    /// EV charger model.
    pub ev: EvModel,
    /// Feeder import limit (milli-kW).
    pub feeder_import: int,
    /// Feeder export limit (milli-kW).
    pub feeder_export: int,
    /// The controller.
    pub controller: C,
    /// Per-step load forecast (one day, wraps).
    pub forecast: Seq<i64>,
    /// Per-step target feeder load (one day, wraps).
    pub target: Seq<i64>,
    /// The demand response event.
    pub dr: DemandResponseEvent,
}

/// One baseload step at the model level: its output and the advanced
/// stream.
pub open spec fn baseload_model_step(m: BaseLoadModel, t: int) -> (BaseLoadModel, int) {
    let power = baseload_power_spec(
        m.base_kw,
        m.amp_kw,
        m.phase_milli,
        m.noise_std,
        m.steps_per_day,
        t,
        std_rng_word(m.seed, m.position as u64),
    );
    (BaseLoadModel { position: m.position + 1, ..m }, power)
}

/// One solar step at the model level: its feeder-convention output, the
/// advanced multiplier for the AR(1) variant, and the stream position
/// (the simple variant draws no word at night).
pub open spec fn solar_model_step(m: SolarModel, t: int) -> (SolarModel, int) {
    match m {
        SolarModel::Simple {
            kw_peak,
            steps_per_day,
            sunrise_idx,
            sunset_idx,
            noise_std,
            seed,
            position,
        } => {
            let frac = daylight_frac_ppm_spec(t, steps_per_day, sunrise_idx, sunset_idx);
            let power = -solar_gen_spec(
                kw_peak,
                steps_per_day,
                sunrise_idx,
                sunset_idx,
                noise_std,
                t,
                std_rng_word(seed, position as u64),
            );
            let new_pos = if frac <= 0 {
                position
            } else {
                position + 1
            };
            (
                SolarModel::Simple {
                    kw_peak,
                    steps_per_day,
                    sunrise_idx,
                    sunset_idx,
                    noise_std,
                    seed,
                    position: new_pos,
                },
                power,
            )
        },
        SolarModel::Ar1 {
            kw_peak,
            steps_per_day,
            sunrise_idx,
            sunset_idx,
            alpha,
            cloud_noise_std,
            multiplier,
            seed,
            position,
        } => {
            let mult = ar1_next_multiplier_spec(
                alpha,
                multiplier,
                noise_spec(std_rng_word(seed, position as u64), cloud_noise_std),
            );
            let power = ar1_power_spec(kw_peak, steps_per_day, sunrise_idx, sunset_idx, mult, t);
            (
                SolarModel::Ar1 {
                    kw_peak,
                    steps_per_day,
                    sunrise_idx,
                    sunset_idx,
                    alpha,
                    cloud_noise_std,
                    multiplier: mult,
                    seed,
                    position: position + 1,
                },
                power,
            )
        },
    }
}

/// The session the EV model works with at `t`: the one it holds if the
/// day was already sampled, else a fresh draw from its stream.
pub open spec fn ev_model_session_for(m: EvModel, t: int) -> EvSession {
    if m.sampled_day == Some((t / m.steps_per_day) as usize) {
        m.session->Some_0
    } else {
        session_spec(
            m.max_charge_kw,
            m.steps_per_day,
            m.dt_mh,
            m.demand_kwh_min,
            m.demand_kwh_max,
            m.dwell_steps_min,
            m.dwell_steps_max,
            std_rng_word(m.seed, m.position as u64),
            std_rng_word(m.seed, (m.position + 1) as u64),
            std_rng_word(m.seed, (m.position + 2) as u64),
        )
    }
}

/// Whether the EV model samples a fresh session at `t`.
pub open spec fn ev_model_samples_at(m: EvModel, t: int) -> bool {
    m.sampled_day != Some((t / m.steps_per_day) as usize)
}

/// The EV model's unconstrained request at `t`.
pub open spec fn ev_model_requested(m: EvModel, t: int) -> int {
    requested_rate_spec(ev_model_session_for(m, t), m.dt_mh, t % m.steps_per_day)
}

/// One EV step at the model level under a cap: the delivered power and
/// the state with the session's remaining energy reduced.
pub open spec fn ev_model_step(m: EvModel, t: int, cap: int) -> (EvModel, int) {
    let session = ev_model_session_for(m, t);
    let rate = requested_rate_spec(session, m.dt_mh, t % m.steps_per_day);
    let actual = ev_actual_spec(rate, cap, m.max_charge_kw);
    let new_session = EvSession {
        arrival_step: session.arrival_step,
        deadline_step: session.deadline_step,
        remaining_kwh: vstd::math::max(0, session.remaining_kwh - actual * m.dt_mh) as i64,
    };
    (
        EvModel {
            sampled_day: Some((t / m.steps_per_day) as usize),
            session: Some(new_session),
            position: if ev_model_samples_at(m, t) {
                m.position + 3
            } else {
                m.position
            },
            ..m
        },
        actual,
    )
}

/// One engine step at the model level, in the engine's fixed order: read
/// the devices, dispatch, apply EV then battery, balance the feeder, and
/// record everything.
pub open spec fn engine_model_step<C: Controller>(m: EngineModel<C>, t: int) -> (
    EngineModel<C>,
    StepResult,
) {
    let spd = m.config.steps_per_day as int;
    let (load2, base_raw) = baseload_model_step(m.load, t);
    let (pv2, solar_kw) = solar_model_step(m.pv, t);
    let ev_requested = ev_model_requested(m.ev, t);
    let forecast_kw = m.forecast[t % spd] as int;
    let target_kw = m.target[t % spd] as int;
    let dr_requested = m.dr.requested_reduction_at_spec(t);
    let input = StepInput {
        timestep: t as usize,
        forecast_kw: forecast_kw as i64,
        target_kw: target_kw as i64,
        dr_requested_kw: dr_requested as i64,
        base_demand_raw_kw: base_raw as i64,
        solar_kw: solar_kw as i64,
        ev_requested_kw: ev_requested as i64,
    };
    let state = StepState {
        battery_soc: m.battery.soc_ppm_spec() as i64,
        battery_max_charge_kw: m.battery.max_charge_kw,
        battery_max_discharge_kw: m.battery.max_discharge_kw,
        max_import_kw: m.feeder_import as i64,
        max_export_kw: m.feeder_export as i64,
    };
    let dispatch = m.controller.dispatch_spec(input, state);
    let (ev2, ev_actual) = ev_model_step(m.ev, t, dispatch.ev_cap_kw as int);
    let bstep = m.battery.step_spec(dispatch.battery_setpoint_kw as int);
    let battery2 = Battery { stored_kwh: bstep.stored_kwh as i64, ..m.battery };
    let feeder_kw = dispatch.base_demand_kw as int + ev_actual + solar_kw + bstep.actual_kw;
    let within = -m.feeder_export <= feeder_kw <= m.feeder_import;
    let tracking_error = feeder_kw - target_kw;
    let abs_err = vstd::math::abs(tracking_error) as int;
    let imbalance_cost = abs_err * m.config.dt_mh * m.config.imbalance_price_per_kwh / 1000;
    let result = StepResult {
        timestep: t as usize,
        time_hr: (t * m.config.dt_mh) as i64,
        base_kw_raw: base_raw as i64,
        base_kw_after_dr: dispatch.base_demand_kw,
        solar_kw: solar_kw as i64,
        ev_requested_kw: ev_requested as i64,
        ev_after_dr_kw: dispatch.ev_after_dr_kw,
        ev_cap_kw: dispatch.ev_cap_kw,
        ev_actual_kw: ev_actual as i64,
        battery_setpoint_kw: dispatch.battery_setpoint_kw,
        battery_actual_kw: bstep.actual_kw as i64,
        battery_soc: battery2.soc_ppm_spec() as i64,
        feeder_kw: feeder_kw as i64,
        target_kw: target_kw as i64,
        tracking_error_kw: tracking_error as i64,
        dr_requested_kw: dr_requested as i64,
        dr_achieved_kw: dispatch.dr_achieved_kw,
        within_feeder_limits: within,
        imbalance_cost: imbalance_cost as i64,
    };
    (EngineModel { load: load2, pv: pv2, battery: battery2, ev: ev2, ..m }, result)
}

/// The model after running steps `0, 1, ..., t - 1`.
pub open spec fn engine_model_after<C: Controller>(m: EngineModel<C>, t: int) -> EngineModel<C>
    decreases t,
{
    if t <= 0 {
        m
    } else {
        engine_model_step(engine_model_after(m, t - 1), t - 1).0
    }
}

/// The step records of a whole run of `total` steps from the model `m`.
pub open spec fn engine_model_results<C: Controller>(m: EngineModel<C>, total: int) -> Seq<
    StepResult,
>
    decreases total,
{
    if total <= 0 {
        Seq::empty()
    } else {
        engine_model_results(m, total - 1).push(
            engine_model_step(engine_model_after(m, total - 1), total - 1).1,
        )
    }
}

/// Simulation engine owning all devices, controller, and configuration.
/// Generic over the controller for static dispatch.
pub struct Engine<C: Controller> {
    /// Simulation configuration.
    pub config: SimConfig,
    /// Baseload device.
    pub load: BaseLoad,
    /// Solar device (either variant).
    pub pv: Solar,
    /// Battery storage device.
    pub battery: Battery,
    /// EV charger device.
    pub ev: EvCharger,
    /// Feeder with import/export limits.
    pub feeder: Feeder,
    /// Dispatch controller.
    pub controller: C,
    /// Per-step load forecast (one day, wraps).
    pub load_forecast: Vec<i64>,
    /// Per-step target feeder load (one day, wraps).
    pub target_schedule: Vec<i64>,
    /// Demand response event.
    pub dr_event: DemandResponseEvent,
}

impl<C: Controller> Engine<C> {
    /// The model of the engine state: every field that the run depends
    /// on, as mathematical values.
    pub open spec fn model(&self) -> EngineModel<C> {
        EngineModel {
            config: self.config,
            load: BaseLoadModel {
                base_kw: self.load.base_kw as int,
                amp_kw: self.load.amp_kw as int,
                phase_milli: self.load.phase_milli as int,
                noise_std: self.load.noise_std as int,
                steps_per_day: self.load.steps_per_day as int,
                seed: self.load.rng.seed(),
                position: self.load.rng.position() as int,
            },
            pv: match self.pv {
                Solar::Simple(s) => SolarModel::Simple {
                    kw_peak: s.kw_peak as int,
                    steps_per_day: s.steps_per_day as int,
                    sunrise_idx: s.sunrise_idx as int,
                    sunset_idx: s.sunset_idx as int,
                    noise_std: s.noise_std as int,
                    seed: s.rng.seed(),
                    position: s.rng.position() as int,
                },
                Solar::Ar1(s) => SolarModel::Ar1 {
                    kw_peak: s.kw_peak as int,
                    steps_per_day: s.steps_per_day as int,
                    sunrise_idx: s.sunrise_idx as int,
                    sunset_idx: s.sunset_idx as int,
                    alpha: s.alpha as int,
                    cloud_noise_std: s.cloud_noise_std as int,
                    multiplier: s.multiplier as int,
                    seed: s.rng.seed(),
                    position: s.rng.position() as int,
                },
            },
            battery: self.battery,
            ev: EvModel {
                max_charge_kw: self.ev.max_charge_kw as int,
                steps_per_day: self.ev.steps_per_day as int,
                dt_mh: self.ev.dt_mh as int,
                demand_kwh_min: self.ev.demand_kwh_min as int,
                demand_kwh_max: self.ev.demand_kwh_max as int,
                dwell_steps_min: self.ev.dwell_steps_min as int,
                dwell_steps_max: self.ev.dwell_steps_max as int,
                sampled_day: self.ev.sampled_day,
                session: self.ev.session,
                seed: self.ev.rng.seed(),
                position: self.ev.rng.position() as int,
            },
            feeder_import: self.feeder.max_import_kw as int,
            feeder_export: self.feeder.max_export_kw as int,
            controller: self.controller,
            forecast: self.load_forecast@,
            target: self.target_schedule@,
            dr: self.dr_event,
        }
    }

    /// Everything a run needs: well-formed devices and configuration,
    /// schedules of one day with bounded entries, matching step counts,
    /// and stream positions far from their end.
    pub open spec fn wf(&self) -> bool {
        &&& self.config.wf()
        &&& self.load.wf()
        &&& self.pv.wf()
        &&& self.battery.wf()
        &&& self.ev.wf()
        &&& self.controller.wf()
        &&& self.dr_event.wf()
        &&& self.load.steps_per_day == self.config.steps_per_day
        &&& self.battery.steps_per_day == self.config.steps_per_day
        &&& self.ev.steps_per_day == self.config.steps_per_day
        &&& self.ev.dt_mh == self.config.dt_mh
        &&& 0 <= self.feeder.max_import_kw <= FLOW_LIMIT
        &&& 0 <= self.feeder.max_export_kw <= FLOW_LIMIT
        &&& self.load_forecast@.len() == self.config.steps_per_day
        &&& self.target_schedule@.len() == self.config.steps_per_day
        &&& forall|i: int|
            0 <= i < self.load_forecast@.len() ==> -FLOW_LIMIT <= #[trigger] self.load_forecast@[i]
                <= FLOW_LIMIT
        &&& forall|i: int|
            0 <= i < self.target_schedule@.len() ==> -FLOW_LIMIT
                <= #[trigger] self.target_schedule@[i] <= FLOW_LIMIT
    }

    /// The word streams are far enough from their end for one more step.
    pub open spec fn can_step(&self) -> bool {
        &&& self.load.rng.position() < u64::MAX
        &&& self.pv.position() < u64::MAX
        &&& self.ev.rng.position() + 3 <= u64::MAX
    }

    /// Creates a new simulation engine from its parts.
    pub fn new(
        config: SimConfig,
        load: BaseLoad,
        pv: Solar,
        battery: Battery,
        ev: EvCharger,
        feeder: Feeder,
        controller: C,
        load_forecast: Vec<i64>,
        target_schedule: Vec<i64>,
        dr_event: DemandResponseEvent,
    ) -> (r: Engine<C>)
        ensures
            r == (Engine {
                config,
                load,
                pv,
                battery,
                ev,
                feeder,
                controller,
                load_forecast,
                target_schedule,
                dr_event,
            }),
    {
        Engine {
            config,
            load,
            pv,
            battery,
            ev,
            feeder,
            controller,
            load_forecast,
            target_schedule,
            dr_event,
        }
    }

    /// Executes one simulation timestep: reads the devices, builds the
    /// controller's input and state, applies the dispatch to the EV and
    /// then to the battery, balances the feeder and records everything.
    /// The result and the new engine state follow the step model exactly.
    pub fn step(&mut self, t: usize) -> (r: StepResult)
        requires
            old(self).wf(),
            old(self).can_step(),
            t <= DAY_MILLI_HOURS * 100_000,
        ensures
            final(self).wf(),
            r == engine_model_step(old(self).model(), t as int).1,
            final(self).model() == engine_model_step(old(self).model(), t as int).0,
            r.feeder_kw == r.base_kw_after_dr + r.ev_actual_kw + r.solar_kw + r.battery_actual_kw,
            r.tracking_error_kw == r.feeder_kw - r.target_kw,
            0 <= r.base_kw_raw,
            r.solar_kw <= 0,
            0 <= r.ev_actual_kw,
            -old(self).battery.max_discharge_kw <= r.battery_actual_kw
                <= old(self).battery.max_charge_kw,
            0 <= r.battery_soc <= PPM,
            0 <= r.dr_achieved_kw <= r.dr_requested_kw,
            r.dr_achieved_kw <= r.base_kw_raw + r.ev_requested_kw,
            0 <= r.ev_actual_kw <= vstd::math::min(
                vstd::math::max(0, r.ev_cap_kw as int),
                old(self).ev.max_charge_kw as int,
            ),
            final(self).config == old(self).config,
            final(self).battery.stored_kwh == old(self).battery.step_spec(
                r.battery_setpoint_kw as int,
            ).stored_kwh,
            crate::sim::types::step_record_bounded(r),
    {
        let ghost m0 = self.model();
        let context = DeviceContext::new(t);
        let spd = self.config.steps_per_day;

        // 1. Read device states.
        let base_demand_raw_kw = self.load.power_kw(&context);
        let solar_kw = self.pv.power_kw(&context);
        let ev_requested_kw = self.ev.requested_power_kw(&context);

        let forecast_kw = self.load_forecast[t % spd];
        let target_kw = self.target_schedule[t % spd];
        let dr_requested_kw = self.dr_event.requested_reduction_at_kw(t);

        // 2. Build controller inputs.
        let input = StepInput {
            timestep: t,
            forecast_kw,
            target_kw,
            dr_requested_kw,
            base_demand_raw_kw,
            solar_kw,
            ev_requested_kw,
        };

        let state = StepState {
            battery_soc: self.battery.soc_ppm(),
            battery_max_charge_kw: self.battery.max_charge_kw,
            battery_max_discharge_kw: self.battery.max_discharge_kw,
            max_import_kw: self.feeder.max_import_kw(),
            max_export_kw: self.feeder.max_export_kw(),
        };

        // 3. Controller dispatch.
        let dispatch = self.controller.dispatch(&input, &state);

        // 4. Apply dispatch to devices: EV first, then the battery.
        let ev_context = DeviceContext::with_setpoint(t, dispatch.ev_cap_kw);
        let ev_actual_kw = self.ev.power_kw(&ev_context);

        let battery_context = DeviceContext::with_setpoint(t, dispatch.battery_setpoint_kw);
        let battery_actual_kw = self.battery.power_kw(&battery_context);

        // 5. Feeder balance (all inputs in feeder convention).
        let feeder_kw = feeder_net_kw(
            dispatch.base_demand_kw,
            ev_actual_kw,
            solar_kw,
            battery_actual_kw,
        );

        // 6. Check feeder limits.
        self.feeder.reset();
        self.feeder.add_net_kw(feeder_kw);
        let within_feeder_limits = self.feeder.within_limits();

        // 7. Tracking error and imbalance cost.
        let tracking_error_kw = feeder_kw - target_kw;
        let abs_err = if tracking_error_kw < 0 {
            -tracking_error_kw
        } else {
            tracking_error_kw
        };
        proof {
            assert(0 <= abs_err as int * self.config.dt_mh as int
                && abs_err as int * self.config.dt_mh as int <= 3 * FLOW_LIMIT as int
                * DAY_MILLI_HOURS as int && 0 <= abs_err as int * self.config.dt_mh as int
                * self.config.imbalance_price_per_kwh as int <= 3 * FLOW_LIMIT as int
                * DAY_MILLI_HOURS as int * PPM as int && abs_err as int
                * self.config.dt_mh as int * self.config.imbalance_price_per_kwh as int / 1000
                <= 100_000_000_000_000_000int) by (nonlinear_arith)
                requires
                    0 <= abs_err as int <= 3 * FLOW_LIMIT as int,
                    1 <= self.config.dt_mh as int <= DAY_MILLI_HOURS as int,
                    0 <= self.config.imbalance_price_per_kwh as int <= PPM as int,
            ;
        }
        let cost_wide: i128 = (abs_err as i128) * (self.config.dt_mh as i128) * (
        self.config.imbalance_price_per_kwh as i128) / 1000;
        let imbalance_cost = cost_wide as i64;

        proof {
            assert(0 <= t as int * self.config.dt_mh as int <= DAY_MILLI_HOURS as int * 100_000
                * DAY_MILLI_HOURS as int) by (nonlinear_arith)
                requires
                    0 <= t as int,
                    (t as int) <= DAY_MILLI_HOURS as int * 100_000,
                    1 <= self.config.dt_mh as int <= DAY_MILLI_HOURS as int,
            ;
        }
        let time_hr = (t as i64) * self.config.dt_mh;

        // 8. Build the result record.
        let result = StepResult {
            timestep: t,
            time_hr,
            base_kw_raw: base_demand_raw_kw,
            base_kw_after_dr: dispatch.base_demand_kw,
            solar_kw,
            ev_requested_kw,
            ev_after_dr_kw: dispatch.ev_after_dr_kw,
            ev_cap_kw: dispatch.ev_cap_kw,
            ev_actual_kw,
            battery_setpoint_kw: dispatch.battery_setpoint_kw,
            battery_actual_kw,
            battery_soc: self.battery.soc_ppm(),
            feeder_kw,
            target_kw,
            tracking_error_kw,
            dr_requested_kw,
            dr_achieved_kw: dispatch.dr_achieved_kw,
            within_feeder_limits,
            imbalance_cost,
        };
        result
    }

    /// Executes all timesteps in order and returns the complete step
    /// record vector: exactly the fold of the step model over the
    /// engine's initial model.
    pub fn run(&mut self) -> (results: Vec<StepResult>)
        requires
            old(self).wf(),
            old(self).load.rng.position() <= 0x4000_0000_0000_0000u64,
            old(self).pv.position() <= 0x4000_0000_0000_0000u64,
            old(self).ev.rng.position() <= 0x4000_0000_0000_0000u64,
        ensures
            final(self).wf(),
            results@.len() == old(self).config.steps_per_day * old(self).config.days,
            results@ == engine_model_results(
                old(self).model(),
                old(self).config.steps_per_day as int * old(self).config.days as int,
            ),
            forall|i: int|
                0 <= i < results@.len() ==> crate::sim::types::step_record_bounded(
                    #[trigger] results@[i],
                ),
            final(self).model() == engine_model_after(
                old(self).model(),
                old(self).config.steps_per_day as int * old(self).config.days as int,
            ),
    {
        let total = self.config.total_steps();
        let mut results: Vec<StepResult> = Vec::new();
        let mut t: usize = 0;
        while t < total
            invariant
                self.wf(),
                0 <= t <= total,
                total == old(self).config.steps_per_day * old(self).config.days,
                total <= DAY_MILLI_HOURS * 100_000,
                self.config == old(self).config,
                results@.len() == t,
                results@ == engine_model_results(old(self).model(), t as int),
                forall|i: int|
                    0 <= i < results@.len() ==> crate::sim::types::step_record_bounded(
                        #[trigger] results@[i],
                    ),
                self.model() == engine_model_after(old(self).model(), t as int),
                self.load.rng.position() <= 0x4000_0000_0000_0000u64 + t,
                self.pv.position() <= 0x4000_0000_0000_0000u64 + t,
                self.ev.rng.position() <= 0x4000_0000_0000_0000u64 + 3 * (t as int),
            decreases total - t,
        {
            let r = self.step(t);
            results.push(r);
            t = t + 1;
        }
        results
    }

    /// A reference to the battery (for KPI capacity queries).
    pub fn battery(&self) -> (r: &Battery)
        ensures
            r == &self.battery,
    {
        &self.battery
    }

    /// A reference to the simulation configuration.
    pub fn config(&self) -> (r: &SimConfig)
        ensures
            r == &self.config,
    {
        &self.config
    }
}

/// Determinism: two engines whose models agree — identical configuration,
/// device parameters, seeds, stream positions and schedules — produce
/// byte-identical step record vectors on a run of any length, because a
/// run is exactly the fold of the step model over the initial model.
pub proof fn lemma_run_deterministic<C: Controller>(
    e1: &Engine<C>,
    e2: &Engine<C>,
    total: int,
)
    requires
        e1.model() == e2.model(),
    ensures
        engine_model_results(e1.model(), total) == engine_model_results(e2.model(), total),
{
}

/// The grid-side battery energy moved over a record sequence: the sum of
/// the actual battery power times the step duration.
pub open spec fn battery_grid_energy_sum(results: Seq<StepResult>, dt_mh: int) -> int
    decreases results.len(),
{
    if results.len() == 0 {
        0
    } else {
        battery_grid_energy_sum(results.drop_last(), dt_mh) + results.last().battery_actual_kw
            * dt_mh
    }
}

/// Energy conservation at unit efficiency: over any run of a battery with
/// both efficiencies at one, the stored energy moves by exactly the sum
/// of the recorded grid-side battery energies — the change of state of
/// charge equals the integrated battery power over the capacity.
pub proof fn lemma_battery_energy_conservation<C: Controller>(m: EngineModel<C>, total: int)
    requires
        m.battery.wf(),
        m.battery.eta_c == PPM,
        m.battery.eta_d == PPM,
    ensures
        engine_model_after(m, total).battery.wf(),
        engine_model_after(m, total).battery.eta_c == m.battery.eta_c,
        engine_model_after(m, total).battery.eta_d == m.battery.eta_d,
        engine_model_after(m, total).battery.capacity_kwh == m.battery.capacity_kwh,
        engine_model_after(m, total).battery.max_charge_kw == m.battery.max_charge_kw,
        engine_model_after(m, total).battery.max_discharge_kw == m.battery.max_discharge_kw,
        engine_model_after(m, total).battery.steps_per_day == m.battery.steps_per_day,
        engine_model_after(m, total).battery.stored_kwh == m.battery.stored_kwh
            + battery_grid_energy_sum(engine_model_results(m, total), m.battery.dt_mh()),
    decreases total,
{
    if total <= 0 {
        assert(engine_model_results(m, total) =~= Seq::<StepResult>::empty());
    } else {
        lemma_battery_energy_conservation(m, total - 1);
        let mk = engine_model_after(m, total - 1);
        let stepped = engine_model_step(mk, total - 1);
        let r = stepped.1;
        let sp = r.battery_setpoint_kw as int;
        crate::devices::battery::lemma_battery_step_in_range(mk.battery, sp);
        crate::devices::battery::lemma_battery_step_exact(mk.battery, sp);
        let prev = engine_model_results(m, total - 1);
        assert(engine_model_results(m, total) == prev.push(r));
        assert(prev.push(r).drop_last() =~= prev);
        assert(prev.push(r).last() == r);
    }
}

} // verus!
