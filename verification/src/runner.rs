//! Scenario runners: build an engine from a configuration, run it, and
//! aggregate the results for the callers that display or export them.

use vstd::prelude::*;

verus! {

use crate::config::ScenarioConfig as RichScenario;
use crate::devices::baseload::{baseload_power_spec, BaseLoad};
use crate::devices::battery::Battery;
use crate::devices::ev_charger::EvCharger;
use crate::devices::solar::SolarPv;
use crate::devices::solar_ar1::SolarPvAr1;
use crate::devices::types::{DeviceContext, Solar};
use crate::forecast::NaiveForecast;
use crate::numeric::{min_i64, DAY_MILLI_HOURS, ENERGY_LIMIT, FLOW_LIMIT, POWER_LIMIT};
use crate::scenario::ScenarioConfig;
use crate::sim::controller::{
    remaining_charge_spec,
    remaining_discharge_spec,
    GreedyController,
    NaiveRtController,
};
use crate::sim::engine::{
    engine_model_results,
    BaseLoadModel,
    Engine,
    EngineModel,
    EvModel,
    SolarModel,
};
use crate::sim::event::DemandResponseEvent;
use crate::sim::feeder::Feeder;
use crate::sim::kpi::{kpi_spec, KpiReport};
use crate::sim::schedule::DayAheadSchedule;
use crate::sim::types::{SimConfig, StepResult};
use crate::io::export::result_row;
use crate::telemetry::{row_from_result, TelemetryRow};

/// The headline figures of one scenario run.
pub struct SimulationKpis {
    /// Root-mean-square tracking error (milli-kW).
    pub rmse_tracking_kw: i64,
    /// Share of requested curtailment achieved (milli-percent).
    pub curtailment_pct: i64,
    /// Peak feeder load over the run (milli-kW).
    pub feeder_peak_load_kw: i64,
}

/// A finished scenario run: its telemetry rows and headline figures.
pub struct SimulationResult {
    /// One telemetry row per step.
    pub telemetry: Vec<TelemetryRow>,
    /// Headline figures.
    pub kpis: SimulationKpis,
}



/// The one-day baseline forecast of a full configuration: what a fresh
/// baseload with its parameters and seed yields at each step.
pub open spec fn rich_forecast_spec(c: RichScenario) -> Seq<i64> {
    Seq::new(
        c.simulation.steps_per_day as nat,
        |i: int|
            baseload_power_spec(
                c.baseload.base_kw as int,
                c.baseload.amp_kw as int,
                c.baseload.phase_milli as int,
                c.baseload.noise_std as int,
                c.simulation.steps_per_day as int,
                i,
                crate::rng::std_rng_word(c.simulation.seed, i as u64),
            ) as i64,
    )
}

/// The flat target of a full configuration: every step carries the
/// forecast mean.
pub open spec fn rich_target_spec(c: RichScenario) -> Seq<i64> {
    let forecast = rich_forecast_spec(c);
    Seq::new(
        c.simulation.steps_per_day as nat,
        |i: int|
            crate::numeric::div_trunc_spec(
                crate::numeric::sum_seq(forecast),
                c.simulation.steps_per_day as int,
            ) as i64,
    )
}

/// The EV dwell window a full configuration yields: the configured range
/// clamped into the day.
pub open spec fn rich_dwell_spec(c: RichScenario) -> (int, int) {
    let dwell_max = vstd::math::min(c.ev.dwell_steps_max as int, c.simulation.steps_per_day as int);
    let dwell_min = vstd::math::min(c.ev.dwell_steps_min as int, dwell_max);
    (dwell_min, dwell_max)
}

/// The engine a full configuration describes, as a mathematical model:
/// devices with the configured parameters, the solar stream seeded one
/// past the master seed, the EV stream 57 past it, the baseline forecast
/// and its flat target. The controller is chosen separately.
pub open spec fn rich_engine_model(c: RichScenario) -> EngineModel<NaiveRtController> {
    let steps = c.simulation.steps_per_day as int;
    let dwell = rich_dwell_spec(c);
    EngineModel {
        config: SimConfig {
            steps_per_day: c.simulation.steps_per_day,
            days: c.simulation.days,
            dt_mh: (DAY_MILLI_HOURS as int / steps) as i64,
            seed: c.simulation.seed,
            imbalance_price_per_kwh: c.simulation.imbalance_price_per_kwh,
        },
        load: BaseLoadModel {
            base_kw: c.baseload.base_kw as int,
            amp_kw: c.baseload.amp_kw as int,
            phase_milli: c.baseload.phase_milli as int,
            noise_std: c.baseload.noise_std as int,
            steps_per_day: steps,
            seed: c.simulation.seed,
            position: 0,
        },
        pv: if c.solar.model@ == "ar1"@ {
            SolarModel::Ar1 {
                kw_peak: c.solar.kw_peak as int,
                steps_per_day: steps,
                sunrise_idx: c.solar.sunrise_idx as int,
                sunset_idx: c.solar.sunset_idx as int,
                alpha: crate::numeric::clamp_spec(c.solar.alpha as int, 0, 1000),
                cloud_noise_std: c.solar.cloud_noise_std as int,
                multiplier: 1000,
                seed: seed_offset_spec(c.simulation.seed, 1),
                position: 0,
            }
        } else {
            SolarModel::Simple {
                kw_peak: c.solar.kw_peak as int,
                steps_per_day: steps,
                sunrise_idx: c.solar.sunrise_idx as int,
                sunset_idx: c.solar.sunset_idx as int,
                noise_std: c.solar.noise_std as int,
                seed: seed_offset_spec(c.simulation.seed, 1),
                position: 0,
            }
        },
        battery: Battery {
            capacity_kwh: c.battery.capacity_kwh,
            stored_kwh: (c.battery.initial_soc as int * c.battery.capacity_kwh as int
                / crate::numeric::PPM as int) as i64,
            max_charge_kw: c.battery.max_charge_kw,
            max_discharge_kw: c.battery.max_discharge_kw,
            eta_c: c.battery.eta_charge,
            eta_d: c.battery.eta_discharge,
            steps_per_day: c.simulation.steps_per_day,
        },
        ev: EvModel {
            max_charge_kw: c.ev.max_charge_kw as int,
            steps_per_day: steps,
            dt_mh: DAY_MILLI_HOURS as int / steps,
            demand_kwh_min: c.ev.demand_kwh_min as int,
            demand_kwh_max: c.ev.demand_kwh_max as int,
            dwell_steps_min: dwell.0,
            dwell_steps_max: dwell.1,
            sampled_day: None,
            session: None,
            seed: seed_offset_spec(c.simulation.seed, 57),
            position: 0,
        },
        feeder_import: c.feeder.max_import_kw as int,
        feeder_export: c.feeder.max_export_kw as int,
        controller: NaiveRtController,
        forecast: rich_forecast_spec(c),
        target: rich_target_spec(c),
        dr: DemandResponseEvent {
            start_step: c.dr_event.start_step,
            end_step: c.dr_event.end_step,
            requested_reduction_kw: c.dr_event.requested_reduction_kw,
        },
    }
}

/// A per-house value scaled by the house count and clamped to the power
/// range.
pub open spec fn scaled_power_spec(per_house: int, houses: int) -> int {
    vstd::math::min(per_house * houses, POWER_LIMIT as int)
}

/// The seed a companion device derives from the master seed: the offset
/// added, wrapping at the end of the range.
pub open spec fn seed_offset_spec(seed: u64, offset: u64) -> u64 {
    if seed + offset <= u64::MAX {
        (seed + offset) as u64
    } else {
        (seed - (u64::MAX - offset) - 1) as u64
    }
}

/// The daylight window the scenario runner uses: steps 6 to 18 of the
/// day, shrunk to the last step for very short days.
pub open spec fn scenario_daylight_spec(steps_per_day: int) -> (int, int) {
    let sunrise = if 6 < steps_per_day {
        6int
    } else {
        steps_per_day - 1
    };
    let sunset = if 18 < steps_per_day {
        18int
    } else {
        steps_per_day
    };
    if sunrise < sunset {
        (sunrise, sunset)
    } else {
        (steps_per_day - 1, steps_per_day)
    }
}

/// The one-day baseline forecast of the scenario: what a fresh baseload
/// with the scenario's scale and seed yields at each step.
pub open spec fn scenario_forecast_spec(c: ScenarioConfig) -> Seq<i64> {
    Seq::new(
        c.steps_per_day as nat,
        |i: int|
            baseload_power_spec(
                scaled_power_spec(800, c.houses as int),
                scaled_power_spec(700, c.houses as int),
                191,
                50,
                c.steps_per_day as int,
                i,
                crate::rng::std_rng_word(c.seed, i as u64),
            ) as i64,
    )
}

/// The flat target of the scenario: every step carries the forecast mean.
pub open spec fn scenario_target_spec(c: ScenarioConfig) -> Seq<i64> {
    let forecast = scenario_forecast_spec(c);
    Seq::new(
        c.steps_per_day as nat,
        |i: int|
            crate::numeric::div_trunc_spec(
                crate::numeric::sum_seq(forecast),
                c.steps_per_day as int,
            ) as i64,
    )
}

/// The EV dwell window of the scenario: three to ten steps, shrunk to the
/// day where the day is shorter.
pub open spec fn scenario_dwell_spec(steps_per_day: int) -> (int, int) {
    let dwell_max = if 10 < steps_per_day {
        10int
    } else {
        steps_per_day
    };
    let dwell_min = if 3 < dwell_max {
        3int
    } else {
        dwell_max
    };
    (dwell_min, dwell_max)
}

/// The engine the scenario runner builds, as a mathematical model: the
/// demo-style devices scaled by the house count, the solar stream seeded
/// one past the master seed, the EV stream two past it, the baseline
/// forecast and its flat target, and the naive controller.
pub open spec fn scenario_engine_model(c: ScenarioConfig) -> EngineModel<NaiveRtController> {
    let steps = c.steps_per_day as int;
    let daylight = scenario_daylight_spec(steps);
    let dwell = scenario_dwell_spec(steps);
    let capacity = vstd::math::min(10_000_000 * c.houses as int, ENERGY_LIMIT as int);
    EngineModel {
        config: SimConfig {
            steps_per_day: c.steps_per_day,
            days: 1usize,
            dt_mh: (DAY_MILLI_HOURS as int / steps) as i64,
            seed: c.seed,
            imbalance_price_per_kwh: 100i64,
        },
        load: BaseLoadModel {
            base_kw: scaled_power_spec(800, c.houses as int),
            amp_kw: scaled_power_spec(700, c.houses as int),
            phase_milli: 191,
            noise_std: 50,
            steps_per_day: steps,
            seed: c.seed,
            position: 0,
        },
        pv: SolarModel::Simple {
            kw_peak: scaled_power_spec(c.solar_kw_peak_per_house as int, c.houses as int),
            steps_per_day: steps,
            sunrise_idx: daylight.0,
            sunset_idx: daylight.1,
            noise_std: 50,
            seed: seed_offset_spec(c.seed, 1),
            position: 0,
        },
        battery: Battery {
            capacity_kwh: capacity as i64,
            stored_kwh: (capacity / 2) as i64,
            max_charge_kw: scaled_power_spec(5000, c.houses as int) as i64,
            max_discharge_kw: scaled_power_spec(5000, c.houses as int) as i64,
            eta_c: 950_000i64,
            eta_d: 950_000i64,
            steps_per_day: c.steps_per_day,
        },
        ev: EvModel {
            max_charge_kw: scaled_power_spec(7200, c.houses as int),
            steps_per_day: steps,
            dt_mh: DAY_MILLI_HOURS as int / steps,
            demand_kwh_min: vstd::math::min(4_000_000 * c.houses as int, POWER_LIMIT as int),
            demand_kwh_max: vstd::math::min(14_000_000 * c.houses as int, POWER_LIMIT as int),
            dwell_steps_min: dwell.0,
            dwell_steps_max: dwell.1,
            sampled_day: None,
            session: None,
            seed: seed_offset_spec(c.seed, 2),
            position: 0,
        },
        feeder_import: c.feeder_kw as int,
        feeder_export: c.feeder_kw as int / 5 * 4,
        controller: NaiveRtController,
        forecast: scenario_forecast_spec(c),
        target: scenario_target_spec(c),
        dr: DemandResponseEvent {
            start_step: c.dr_start_step,
            end_step: c.dr_end_step,
            requested_reduction_kw: scaled_power_spec(
                c.dr_reduction_kw_per_house as int,
                c.houses as int,
            ) as i64,
        },
    }
}

/// The records a scenario run produces: the engine model folded over one
/// day.
pub open spec fn scenario_results_spec(c: ScenarioConfig) -> Seq<crate::sim::types::StepResult> {
    engine_model_results(scenario_engine_model(c), c.steps_per_day as int)
}

/// Builds the one-day baseline load profile a fresh baseload with these
/// parameters and this seed would produce: entry `i` is exactly the
/// baseload output at step `i` with the `i`-th word of the seeded stream.
fn baseline_profile(
    base_kw: i64,
    amp_kw: i64,
    phase_milli: i64,
    noise_std: i64,
    steps_per_day: usize,
    seed: u64,
) -> (r: Vec<i64>)
    requires
        -POWER_LIMIT <= base_kw <= POWER_LIMIT,
        -POWER_LIMIT <= amp_kw <= POWER_LIMIT,
        0 <= phase_milli < 1000,
        0 <= noise_std <= POWER_LIMIT,
        0 < steps_per_day <= DAY_MILLI_HOURS,
    ensures
        r@.len() == steps_per_day,
        forall|i: int| 0 <= i < r@.len() ==> 0 <= #[trigger] r@[i] <= FLOW_LIMIT,
        forall|i: int|
            0 <= i < r@.len() ==> #[trigger] r@[i] == baseload_power_spec(
                base_kw as int,
                amp_kw as int,
                phase_milli as int,
                noise_std as int,
                steps_per_day as int,
                i,
                crate::rng::std_rng_word(seed, i as u64),
            ),
{
    let mut profile = BaseLoad::new(base_kw, amp_kw, phase_milli, noise_std, steps_per_day, seed);
    let mut baseline: Vec<i64> = Vec::new();
    let mut t: usize = 0;
    while t < steps_per_day
        invariant
            0 <= t <= steps_per_day,
            baseline@.len() == t,
            profile.wf(),
            profile.rng.position() == t,
            0 < steps_per_day <= DAY_MILLI_HOURS,
            t <= DAY_MILLI_HOURS,
            profile.base_kw == base_kw,
            profile.amp_kw == amp_kw,
            profile.phase_milli == phase_milli,
            profile.noise_std == noise_std,
            profile.steps_per_day == steps_per_day,
            profile.rng.seed() == seed,
            forall|i: int| 0 <= i < baseline@.len() ==> 0 <= #[trigger] baseline@[i] <= FLOW_LIMIT,
            forall|i: int|
                0 <= i < baseline@.len() ==> #[trigger] baseline@[i] == baseload_power_spec(
                    base_kw as int,
                    amp_kw as int,
                    phase_milli as int,
                    noise_std as int,
                    steps_per_day as int,
                    i,
                    crate::rng::std_rng_word(seed, i as u64),
                ),
        decreases steps_per_day - t,
    {
        let context = DeviceContext::new(t);
        let kw = profile.power_kw(&context);
        baseline.push(kw);
        t = t + 1;
    }
    baseline
}

/// Builds the demo-style engine of a scenario: devices scaled by the
/// house count, the baseline forecast and flat target, companion seeds at
/// fixed offsets, and the naive controller. The result is exactly
/// [`scenario_engine_model`].
#[verifier::rlimit(100)]
fn scenario_engine(config: &ScenarioConfig) -> (engine: Engine<NaiveRtController>)
    requires
        config.valid(),
    ensures
        engine.wf(),
        engine.model() == scenario_engine_model(*config),
        engine.load.rng.position() == 0,
        engine.pv.position() == 0,
        engine.ev.rng.position() == 0,
        engine.config.steps_per_day == config.steps_per_day,
        engine.config.days == 1,
        engine.config.dt_mh == DAY_MILLI_HOURS as int / config.steps_per_day as int,
        engine.battery.capacity_kwh == scenario_engine_model(*config).battery.capacity_kwh,
{
    let houses = config.houses as i64;
    let steps_per_day = config.steps_per_day;
    let sim_config = SimConfig::new(steps_per_day, 1, config.seed);

    let load = BaseLoad::new(clamp_power(800 * houses), clamp_power(700 * houses), 191, 50,
        steps_per_day, config.seed);

    let baseline = baseline_profile(clamp_power(800 * houses), clamp_power(700 * houses), 191, 50,
        steps_per_day, config.seed);
    let forecaster = NaiveForecast;
    let load_forecast = forecaster.forecast(&baseline, steps_per_day);
    let target_schedule = DayAheadSchedule::flat_target(&load_forecast);
    proof {
        assert forall|i: int| 0 <= i < load_forecast@.len() implies #[trigger] load_forecast@[i]
            == baseline@[i] by {
            vstd::arithmetic::div_mod::lemma_small_mod(i as nat, baseline@.len() as nat);
        }
        assert(load_forecast@ =~= scenario_forecast_spec(*config));
        lemma_schedule_bounded(load_forecast@, target_schedule@);
        assert(target_schedule@ =~= scenario_target_spec(*config));
    }

    let sunrise = if 6 < steps_per_day {
        6
    } else {
        steps_per_day - 1
    };
    let sunset = if 18 < steps_per_day {
        18
    } else {
        steps_per_day
    };
    let (sunrise, sunset) = if sunrise < sunset {
        (sunrise, sunset)
    } else {
        (steps_per_day - 1, steps_per_day)
    };
    proof {
        assert(0 <= config.solar_kw_peak_per_house as int * houses as int
            && config.solar_kw_peak_per_house as int * houses as int <= POWER_LIMIT as int
            && 0 <= config.dr_reduction_kw_per_house as int * houses as int
            && config.dr_reduction_kw_per_house as int * houses as int <= POWER_LIMIT as int)
            by (nonlinear_arith)
            requires
                0 <= config.solar_kw_peak_per_house as int,
                (config.solar_kw_peak_per_house as int) <= POWER_LIMIT as int / 10_000,
                0 <= config.dr_reduction_kw_per_house as int,
                (config.dr_reduction_kw_per_house as int) <= POWER_LIMIT as int / 10_000,
                0 < houses as int <= 10_000,
        ;
    }
    let pv = Solar::Simple(
        SolarPv::new(clamp_power(config.solar_kw_peak_per_house * houses), steps_per_day, sunrise,
            sunset, 50, wrap_add(config.seed, 1)),
    );

    let capacity = clamp_energy(10_000_000 * houses);
    let battery = Battery::new(capacity, capacity / 2, clamp_power(5000 * houses), clamp_power(
        5000 * houses), 950_000, 950_000, steps_per_day);

    let dwell_max = if 10 < steps_per_day {
        10
    } else {
        steps_per_day
    };
    let dwell_min = if 3 < dwell_max {
        3
    } else {
        dwell_max
    };
    let ev = EvCharger::new(clamp_power(7200 * houses), min_i64(4_000_000 * houses, POWER_LIMIT),
        min_i64(14_000_000 * houses, POWER_LIMIT), dwell_min, dwell_max, steps_per_day,
        wrap_add(config.seed, 2));

    let feeder = Feeder::with_limits("MainFeeder", config.feeder_kw, config.feeder_kw / 5 * 4);

    let dr_event = DemandResponseEvent::new(config.dr_start_step, config.dr_end_step, clamp_power(
        config.dr_reduction_kw_per_house * houses));

    let controller = NaiveRtController;

    let engine = Engine::new(sim_config, load, pv, battery, ev, feeder, controller,
        load_forecast, target_schedule, dr_event);

    proof {
        let m = scenario_engine_model(*config);
        assert(engine.model().config == m.config);
        assert(engine.model().load == m.load);
        assert(engine.model().pv == m.pv);
        assert(engine.model().battery == m.battery);
        assert(engine.model().ev == m.ev);
        assert(engine.model().feeder_import == m.feeder_import);
        assert(engine.model().feeder_export == m.feeder_export);
        assert(engine.model().forecast == m.forecast);
        assert(engine.model().target == m.target);
        assert(engine.model().dr == m.dr);
        assert(engine.model() == m);
    }
    engine
}

/// Runs the demo-style scenario with the naive controller for one day:
/// the telemetry rows are exactly the public views of the records the
/// scenario's engine model folds out, and the headline figures are the
/// corresponding aggregate fields over those records.
pub fn run_scenario(config: &ScenarioConfig) -> (r: SimulationResult)
    requires
        config.valid(),
    ensures
        r.telemetry@.len() == config.steps_per_day,
        forall|i: int|
            0 <= i < r.telemetry@.len() ==> #[trigger] r.telemetry@[i] == result_row(
                scenario_results_spec(*config)[i],
            ),
        r.kpis.rmse_tracking_kw == kpi_spec(
            scenario_results_spec(*config),
            DAY_MILLI_HOURS as int / config.steps_per_day as int,
            scenario_engine_model(*config).battery.capacity_kwh as int,
        ).rmse_tracking_kw,
        r.kpis.curtailment_pct == kpi_spec(
            scenario_results_spec(*config),
            DAY_MILLI_HOURS as int / config.steps_per_day as int,
            scenario_engine_model(*config).battery.capacity_kwh as int,
        ).curtailment_pct,
        r.kpis.feeder_peak_load_kw == kpi_spec(
            scenario_results_spec(*config),
            DAY_MILLI_HOURS as int / config.steps_per_day as int,
            scenario_engine_model(*config).battery.capacity_kwh as int,
        ).peak_import_kw,
{
    let mut engine = scenario_engine(config);
    let dt_mh = engine.config.dt_mh;
    let capacity = engine.battery.capacity_kwh;

    let results = engine.run();
    let kpi = KpiReport::from_results(&results, dt_mh, capacity);

    let mut telemetry: Vec<TelemetryRow> = Vec::new();
    let mut i: usize = 0;
    while i < results.len()
        invariant
            0 <= i <= results@.len(),
            telemetry@.len() == i,
            forall|j: int| 0 <= j < i ==> #[trigger] telemetry@[j] == result_row(results@[j]),
        decreases results@.len() - i,
    {
        telemetry.push(row_from_result(&results[i]));
        i = i + 1;
    }

    SimulationResult {
        telemetry,
        kpis: SimulationKpis {
            rmse_tracking_kw: kpi.rmse_tracking_kw,
            curtailment_pct: kpi.curtailment_pct,
            feeder_peak_load_kw: kpi.peak_import_kw,
        },
    }
}


/// An engine wrapper that erases the controller type via enum dispatch:
/// one variant per controller, chosen by the configuration.
pub enum SimRunner {
    /// Engine using the naive real-time controller.
    Naive(Engine<NaiveRtController>),
    /// Engine using the greedy forecast-aware controller.
    Greedy(Engine<GreedyController>),
}

impl SimRunner {
    /// The wrapped engine is ready to run.
    pub open spec fn wf(&self) -> bool {
        match self {
            SimRunner::Naive(e) => e.wf(),
            SimRunner::Greedy(e) => e.wf(),
        }
    }

    /// The wrapped engine's word streams are far enough from their end
    /// for one more step.
    pub open spec fn can_step(&self) -> bool {
        match self {
            SimRunner::Naive(e) => e.can_step(),
            SimRunner::Greedy(e) => e.can_step(),
        }
    }

    /// Builds a runner from a validated scenario configuration: the
    /// engine is exactly [`rich_engine_model`] of the configuration, and
    /// the variant follows the configured controller; for the greedy
    /// controller, its lookahead tables are the reverse prefix sums of
    /// the planned battery work over the same forecast and target.
    pub fn from_scenario(config: &RichScenario) -> (r: SimRunner)
        requires
            config.valid(),
        ensures
            r.wf(),
            r.can_step(),
            match r {
                SimRunner::Naive(e) => config.simulation.controller@ != "greedy"@ && e.model()
                    == rich_engine_model(*config),
                SimRunner::Greedy(e) => {
                    let m = rich_engine_model(*config);
                    let steps = config.simulation.steps_per_day as int;
                    &&& config.simulation.controller@ == "greedy"@
                    &&& e.model().config == m.config
                    &&& e.model().load == m.load
                    &&& e.model().pv == m.pv
                    &&& e.model().battery == m.battery
                    &&& e.model().ev == m.ev
                    &&& e.model().feeder_import == m.feeder_import
                    &&& e.model().feeder_export == m.feeder_export
                    &&& e.model().forecast == m.forecast
                    &&& e.model().target == m.target
                    &&& e.model().dr == m.dr
                    &&& e.controller.steps_per_day == config.simulation.steps_per_day
                    &&& e.controller.capacity_kwh == config.battery.capacity_kwh
                    &&& e.controller.dt_mh as int == DAY_MILLI_HOURS as int / steps
                    &&& e.controller.eta_c == config.battery.eta_charge
                    &&& e.controller.eta_d == config.battery.eta_discharge
                    &&& forall|j: int|
                        0 <= j <= steps ==> #[trigger] e.controller.remaining_charge_kwh@[j] as int
                            == remaining_charge_spec(
                            m.forecast,
                            m.target,
                            config.solar.kw_peak as int,
                            config.solar.sunrise_idx as int,
                            config.solar.sunset_idx as int,
                            config.battery.max_charge_kw as int,
                            config.battery.eta_charge as int,
                            DAY_MILLI_HOURS as int / steps,
                            j,
                        )
                    &&& forall|j: int|
                        0 <= j <= steps
                            ==> #[trigger] e.controller.remaining_discharge_kwh@[j] as int
                            == remaining_discharge_spec(
                            m.forecast,
                            m.target,
                            config.solar.kw_peak as int,
                            config.solar.sunrise_idx as int,
                            config.solar.sunset_idx as int,
                            config.battery.max_discharge_kw as int,
                            config.battery.eta_discharge as int,
                            DAY_MILLI_HOURS as int / steps,
                            j,
                        )
                },
            },
    {
        let steps = config.simulation.steps_per_day;
        let seed = config.simulation.seed;
        let sim_config = SimConfig::new(steps, config.simulation.days, seed).with_price(
            config.simulation.imbalance_price_per_kwh,
        );

        let load = BaseLoad::new(config.baseload.base_kw, config.baseload.amp_kw,
            config.baseload.phase_milli, config.baseload.noise_std, steps, seed);

        let baseline = baseline_profile(config.baseload.base_kw, config.baseload.amp_kw,
            config.baseload.phase_milli, config.baseload.noise_std, steps, seed);
        let forecaster = NaiveForecast;
        let load_forecast = forecaster.forecast(&baseline, steps);
        let target_schedule = DayAheadSchedule::flat_target(&load_forecast);
        proof {
            assert forall|i: int| 0 <= i < load_forecast@.len() implies #[trigger] load_forecast@[i]
                == baseline@[i] by {
                vstd::arithmetic::div_mod::lemma_small_mod(i as nat, baseline@.len() as nat);
            }
            assert(load_forecast@ =~= rich_forecast_spec(*config));
            lemma_schedule_bounded(load_forecast@, target_schedule@);
            assert(target_schedule@ =~= rich_target_spec(*config));
        }

        let pv = if crate::api::str_eq(config.solar.model.as_str(), "ar1") {
            Solar::Ar1(
                SolarPvAr1::new(config.solar.kw_peak, config.solar.sunrise_idx,
                    config.solar.sunset_idx, config.solar.alpha, config.solar.cloud_noise_std,
                    steps, wrap_add(seed, 1)),
            )
        } else {
            Solar::Simple(
                SolarPv::new(config.solar.kw_peak, steps, config.solar.sunrise_idx,
                    config.solar.sunset_idx, config.solar.noise_std, wrap_add(seed, 1)),
            )
        };

        proof {
            crate::numeric::lemma_scaled_le(config.battery.capacity_kwh as int,
                config.battery.initial_soc as int, crate::numeric::PPM as int);
            assert(config.battery.initial_soc as int * config.battery.capacity_kwh as int
                == config.battery.capacity_kwh as int * config.battery.initial_soc as int)
                by (nonlinear_arith);
            assert(0 <= config.battery.initial_soc as int * config.battery.capacity_kwh as int
                <= crate::numeric::PPM as int * ENERGY_LIMIT as int) by (nonlinear_arith)
                requires
                    0 <= config.battery.initial_soc as int,
                    (config.battery.initial_soc as int) <= crate::numeric::PPM as int,
                    0 < config.battery.capacity_kwh as int,
                    (config.battery.capacity_kwh as int) <= ENERGY_LIMIT as int,
            ;
        }
        let initial_stored = ((config.battery.initial_soc as i128
            * config.battery.capacity_kwh as i128) / (crate::numeric::PPM as i128)) as i64;
        let battery = Battery::new(config.battery.capacity_kwh, initial_stored,
            config.battery.max_charge_kw, config.battery.max_discharge_kw,
            config.battery.eta_charge, config.battery.eta_discharge, steps);

        let dwell_max = if config.ev.dwell_steps_max < steps {
            config.ev.dwell_steps_max
        } else {
            steps
        };
        let dwell_min = if config.ev.dwell_steps_min < dwell_max {
            config.ev.dwell_steps_min
        } else {
            dwell_max
        };
        let ev = EvCharger::new(config.ev.max_charge_kw, config.ev.demand_kwh_min,
            config.ev.demand_kwh_max, dwell_min, dwell_max, steps, wrap_add(seed, 57));

        let feeder = Feeder::with_limits("MainFeeder", config.feeder.max_import_kw,
            config.feeder.max_export_kw);

        let dr_event = DemandResponseEvent::new(config.dr_event.start_step,
            config.dr_event.end_step, config.dr_event.requested_reduction_kw);

        if crate::api::str_eq(config.simulation.controller.as_str(), "greedy") {
            let controller = GreedyController::new(&load_forecast, &target_schedule,
                config.battery.capacity_kwh, config.battery.max_charge_kw,
                config.battery.max_discharge_kw, config.battery.initial_soc,
                config.battery.eta_charge, config.battery.eta_discharge, sim_config.dt_mh,
                config.solar.kw_peak, config.solar.sunrise_idx, config.solar.sunset_idx);
            let engine = Engine::new(sim_config, load, pv, battery, ev, feeder, controller,
                load_forecast, target_schedule, dr_event);
            proof {
                let m = rich_engine_model(*config);
                assert(engine.model().config == m.config);
                assert(engine.model().load == m.load);
                assert(engine.model().pv == m.pv);
                assert(engine.model().battery == m.battery);
                assert(engine.model().ev == m.ev);
            }
            SimRunner::Greedy(engine)
        } else {
            let engine = Engine::new(sim_config, load, pv, battery, ev, feeder,
                NaiveRtController, load_forecast, target_schedule, dr_event);
            proof {
                let m = rich_engine_model(*config);
                assert(engine.model().config == m.config);
                assert(engine.model().load == m.load);
                assert(engine.model().pv == m.pv);
                assert(engine.model().battery == m.battery);
                assert(engine.model().ev == m.ev);
                assert(engine.model() == m);
            }
            SimRunner::Naive(engine)
        }
    }

    /// Advances the simulation by one timestep: exactly the wrapped
    /// engine's step model.
    pub fn step(&mut self, t: usize) -> (r: StepResult)
        requires
            old(self).wf(),
            old(self).can_step(),
            t <= DAY_MILLI_HOURS * 100_000,
        ensures
            final(self).wf(),
            crate::sim::types::step_record_bounded(r),
            match *old(self) {
                SimRunner::Naive(e) => *final(self) matches SimRunner::Naive(e2) && e2.model()
                    == crate::sim::engine::engine_model_step(e.model(), t as int).0 && r
                    == crate::sim::engine::engine_model_step(e.model(), t as int).1,
                SimRunner::Greedy(e) => *final(self) matches SimRunner::Greedy(e2) && e2.model()
                    == crate::sim::engine::engine_model_step(e.model(), t as int).0 && r
                    == crate::sim::engine::engine_model_step(e.model(), t as int).1,
            },
    {
        match self {
            SimRunner::Naive(e) => e.step(t),
            SimRunner::Greedy(e) => e.step(t),
        }
    }

    /// The simulation configuration.
    pub fn config(&self) -> (r: &SimConfig)
        ensures
            *r == match self {
                SimRunner::Naive(e) => e.config,
                SimRunner::Greedy(e) => e.config,
            },
    {
        match self {
            SimRunner::Naive(e) => e.config(),
            SimRunner::Greedy(e) => e.config(),
        }
    }

    /// The battery device (for KPI capacity queries).
    pub fn battery(&self) -> (r: &Battery)
        ensures
            *r == match self {
                SimRunner::Naive(e) => e.battery,
                SimRunner::Greedy(e) => e.battery,
            },
    {
        match self {
            SimRunner::Naive(e) => e.battery(),
            SimRunner::Greedy(e) => e.battery(),
        }
    }
}

/// A flat schedule built from a bounded forecast stays bounded.
proof fn lemma_schedule_bounded(forecast: Seq<i64>, target: Seq<i64>)
    requires
        forall|i: int| 0 <= i < forecast.len() ==> 0 <= #[trigger] forecast[i] <= FLOW_LIMIT,
        forecast.len() <= 100_000,
        target.len() == forecast.len(),
        forecast.len() > 0 ==> forall|i: int|
            0 <= i < target.len() ==> #[trigger] target[i] == crate::numeric::div_trunc_spec(
                crate::numeric::sum_seq(forecast),
                forecast.len() as int,
            ),
    ensures
        forall|i: int| 0 <= i < target.len() ==> -FLOW_LIMIT <= #[trigger] target[i] <= FLOW_LIMIT,
{
    if forecast.len() > 0 {
        lemma_sum_seq_bounds(forecast);
        let sum = crate::numeric::sum_seq(forecast);
        let n = forecast.len() as int;
        assert(0 <= crate::numeric::div_trunc_spec(sum, n) <= FLOW_LIMIT as int)
            by (nonlinear_arith)
            requires
                0 <= sum <= n * FLOW_LIMIT as int,
                0 < n,
        ;
    }
}

/// The sum of a bounded non-negative sequence is bounded by length times
/// bound.
proof fn lemma_sum_seq_bounds(s: Seq<i64>)
    requires
        forall|i: int| 0 <= i < s.len() ==> 0 <= #[trigger] s[i] <= FLOW_LIMIT,
    ensures
        0 <= crate::numeric::sum_seq(s) <= s.len() * FLOW_LIMIT as int,
    decreases s.len(),
{
    if s.len() == 0 {
    } else {
        lemma_sum_seq_bounds(s.drop_last());
        assert((s.len() - 1) * FLOW_LIMIT as int + FLOW_LIMIT as int == s.len() as int
            * FLOW_LIMIT as int) by (nonlinear_arith);
    }
}

/// Clamp a scaled power value to the accepted power range.
fn clamp_power(v: i64) -> (r: i64)
    requires
        0 <= v,
    ensures
        0 <= r <= POWER_LIMIT,
        r == vstd::math::min(v as int, POWER_LIMIT as int),
{
    min_i64(v, POWER_LIMIT)
}

/// Clamp a scaled energy value to the accepted energy range, never below
/// one micro-kWh.
fn clamp_energy(v: i64) -> (r: i64)
    requires
        1 <= v,
    ensures
        1 <= r <= ENERGY_LIMIT,
        r == vstd::math::min(v as int, ENERGY_LIMIT as int),
{
    min_i64(v, ENERGY_LIMIT)
}

/// The seed of a companion device: the master seed plus a fixed offset,
/// wrapping at the end of the range so that each device gets its own
/// stream.
fn wrap_add(seed: u64, offset: u64) -> (r: u64)
    ensures
        r == seed_offset_spec(seed, offset),
{
    if seed <= u64::MAX - offset {
        seed + offset
    } else {
        seed - (u64::MAX - offset) - 1
    }
}

} // verus!
