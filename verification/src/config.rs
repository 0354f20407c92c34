//! Scenario configuration: sections mirroring the device constructors,
//! the built-in presets, and validation.
//!
//! Loading these records from a TOML file is a collaborator's concern;
//! the library owns the shape, the defaults and the validity rules.

use vstd::prelude::*;

verus! {

use crate::api::str_eq;
use crate::numeric::{DAY_MILLI_HOURS, ENERGY_LIMIT, POWER_LIMIT, PPM};

/// Simulation timing and global parameters. The price is in milli-units
/// of currency per kWh.
#[derive(Debug, Clone)]
pub struct SimulationConfig {
    /// Number of timesteps per simulated day.
    pub steps_per_day: usize,
    /// Number of days to simulate.
    pub days: usize,
    /// Master random seed.
    pub seed: u64,
    /// Imbalance settlement price per kWh (milli-units of currency).
    pub imbalance_price_per_kwh: i64,
    /// Controller type: `"naive"` or `"greedy"`.
    pub controller: String,
}

impl SimulationConfig {
    /// The baseline timing: hourly steps for one day, the seed at 42, a
    /// tenth of a unit per kWh, the naive controller.
    pub fn baseline() -> (r: SimulationConfig)
        ensures
            r.steps_per_day == 24,
            r.days == 1,
            r.seed == 42,
            r.imbalance_price_per_kwh == 100,
            r.controller@ == "naive"@,
    {
        SimulationConfig {
            steps_per_day: 24,
            days: 1,
            seed: 42,
            imbalance_price_per_kwh: 100,
            controller: "naive".to_owned(),
        }
    }
}

/// Baseload device parameters (milli-kW; the phase in milli-cycles).
#[derive(Debug, Clone)]
pub struct BaseloadConfig {
    /// Baseline consumption (milli-kW).
    pub base_kw: i64,
    /// Daily wave amplitude (milli-kW).
    pub amp_kw: i64,
    /// Phase offset (milli-cycles of the day).
    pub phase_milli: i64,
    /// Noise standard deviation (milli-kW).
    pub noise_std: i64,
}

impl BaseloadConfig {
    /// The baseline household: 0.8 kW around a 0.7 kW wave.
    pub fn baseline() -> (r: BaseloadConfig)
        ensures
            r == (BaseloadConfig { base_kw: 800, amp_kw: 700, phase_milli: 191, noise_std: 50 }),
    {
        BaseloadConfig { base_kw: 800, amp_kw: 700, phase_milli: 191, noise_std: 50 }
    }
}

/// Solar PV device parameters.
#[derive(Debug, Clone)]
pub struct SolarConfig {
    /// Solar model: `"simple"` (independent noise) or `"ar1"`.
    pub model: String,
    /// Peak generation (milli-kW).
    pub kw_peak: i64,
    /// Sunrise timestep index (inclusive).
    pub sunrise_idx: usize,
    /// Sunset timestep index (exclusive).
    pub sunset_idx: usize,
    /// Noise standard deviation for the simple model (milli-fraction).
    pub noise_std: i64,
    /// AR(1) correlation coefficient (milli).
    pub alpha: i64,
    /// AR(1) innovation noise standard deviation (milli).
    pub cloud_noise_std: i64,
}

impl SolarConfig {
    /// The baseline array: 5 kW peak, daylight from step 6 to step 18.
    pub fn baseline() -> (r: SolarConfig)
        ensures
            r.model@ == "simple"@,
            r.kw_peak == 5000,
            r.sunrise_idx == 6,
            r.sunset_idx == 18,
            r.noise_std == 50,
            r.alpha == 900,
            r.cloud_noise_std == 200,
    {
        SolarConfig {
            model: "simple".to_owned(),
            kw_peak: 5000,
            sunrise_idx: 6,
            sunset_idx: 18,
            noise_std: 50,
            alpha: 900,
            cloud_noise_std: 200,
        }
    }
}

/// Battery storage parameters (micro-kWh; rates in milli-kW; the state of
/// charge and the efficiencies in parts per million).
#[derive(Debug, Clone)]
pub struct BatteryConfig {
    /// Total energy capacity (micro-kWh).
    pub capacity_kwh: i64,
    /// Initial state of charge (parts per million).
    pub initial_soc: i64,
    /// Maximum charging power (milli-kW).
    pub max_charge_kw: i64,
    /// Maximum discharging power (milli-kW).
    pub max_discharge_kw: i64,
    /// Charge efficiency (parts per million).
    pub eta_charge: i64,
    /// Discharge efficiency (parts per million).
    pub eta_discharge: i64,
}

impl BatteryConfig {
    /// The baseline battery: 10 kWh at half charge, 5 kW each way, 95 %
    /// efficient.
    pub fn baseline() -> (r: BatteryConfig)
        ensures
            r == (BatteryConfig {
                capacity_kwh: 10_000_000,
                initial_soc: 500_000,
                max_charge_kw: 5000,
                max_discharge_kw: 5000,
                eta_charge: 950_000,
                eta_discharge: 950_000,
            }),
    {
        BatteryConfig {
            capacity_kwh: 10_000_000,
            initial_soc: 500_000,
            max_charge_kw: 5000,
            max_discharge_kw: 5000,
            eta_charge: 950_000,
            eta_discharge: 950_000,
        }
    }
}

/// EV charger parameters (demands in micro-kWh).
#[derive(Debug, Clone)]
pub struct EvConfig {
    /// Maximum charging power (milli-kW).
    pub max_charge_kw: i64,
    /// Minimum daily energy demand (micro-kWh).
    pub demand_kwh_min: i64,
    /// Maximum daily energy demand (micro-kWh).
    pub demand_kwh_max: i64,
    /// Minimum dwell duration (timesteps).
    pub dwell_steps_min: usize,
    /// Maximum dwell duration (timesteps).
    pub dwell_steps_max: usize,
}

impl EvConfig {
    /// The baseline charger: 7.2 kW, 4 to 14 kWh a day, 3 to 10 steps.
    pub fn baseline() -> (r: EvConfig)
        ensures
            r == (EvConfig {
                max_charge_kw: 7200,
                demand_kwh_min: 4_000_000,
                demand_kwh_max: 14_000_000,
                dwell_steps_min: 3,
                dwell_steps_max: 10,
            }),
    {
        EvConfig {
            max_charge_kw: 7200,
            demand_kwh_min: 4_000_000,
            demand_kwh_max: 14_000_000,
            dwell_steps_min: 3,
            dwell_steps_max: 10,
        }
    }
}

/// Feeder import/export limits (milli-kW).
#[derive(Debug, Clone)]
pub struct FeederConfig {
    /// Maximum import power (milli-kW).
    pub max_import_kw: i64,
    /// Maximum export power (milli-kW, positive magnitude).
    pub max_export_kw: i64,
}

impl FeederConfig {
    /// The baseline feeder: 5 kW import, 4 kW export.
    pub fn baseline() -> (r: FeederConfig)
        ensures
            r == (FeederConfig { max_import_kw: 5000, max_export_kw: 4000 }),
    {
        FeederConfig { max_import_kw: 5000, max_export_kw: 4000 }
    }
}

/// Demand response event parameters.
#[derive(Debug, Clone)]
pub struct DrEventConfig {
    /// Start timestep (inclusive).
    pub start_step: usize,
    /// End timestep (exclusive).
    pub end_step: usize,
    /// Requested reduction (milli-kW).
    pub requested_reduction_kw: i64,
}

impl DrEventConfig {
    /// The baseline event: 1.5 kW off from step 17 to step 21.
    pub fn baseline() -> (r: DrEventConfig)
        ensures
            r == (DrEventConfig { start_step: 17, end_step: 21, requested_reduction_kw: 1500 }),
    {
        DrEventConfig { start_step: 17, end_step: 21, requested_reduction_kw: 1500 }
    }
}

/// Configuration error with field path and constraint description.
#[derive(Debug, Clone)]
pub struct ConfigError {
    /// Dotted field path (for example `"simulation.steps_per_day"`).
    pub field: String,
    /// Human-readable constraint description.
    pub message: String,
}

/// Top-level scenario configuration.
#[derive(Debug, Clone)]
pub struct ScenarioConfig {
    /// Simulation timing and global parameters.
    pub simulation: SimulationConfig,
    /// Baseload device parameters.
    pub baseload: BaseloadConfig,
    /// Solar PV device parameters.
    pub solar: SolarConfig,
    /// Battery storage parameters.
    pub battery: BatteryConfig,
    /// EV charger parameters.
    pub ev: EvConfig,
    /// Feeder import/export limits.
    pub feeder: FeederConfig,
    /// Demand response event parameters.
    pub dr_event: DrEventConfig,
}

impl ScenarioConfig {
    /// Every constraint validation enforces, as one predicate: the
    /// constructors' demands plus the machine bounds of the integer
    /// model.
    pub open spec fn valid(&self) -> bool {
        &&& self.simulation_ok()
        &&& self.solar_ok()
        &&& self.battery_ok()
        &&& self.baseload_ok()
        &&& self.ev_ok()
        &&& self.feeder_ok()
        &&& self.dr_ok()
    }

    /// The timing and pricing constraints.
    pub open spec fn simulation_ok(&self) -> bool {
        &&& 0 < self.simulation.steps_per_day <= DAY_MILLI_HOURS
        &&& 0 < self.simulation.days <= 100_000
        &&& 0 <= self.simulation.imbalance_price_per_kwh <= PPM
        &&& (self.simulation.controller@ == "naive"@ || self.simulation.controller@ == "greedy"@)
    }

    /// The solar constraints: a known model, a daylight window inside the
    /// day, and bounded peak and noise.
    pub open spec fn solar_ok(&self) -> bool {
        &&& (self.solar.model@ == "simple"@ || self.solar.model@ == "ar1"@)
        &&& self.solar.sunrise_idx < self.solar.sunset_idx
        &&& self.solar.sunset_idx <= self.simulation.steps_per_day
        &&& 0 <= self.solar.kw_peak <= POWER_LIMIT
        &&& 0 <= self.solar.noise_std <= 1000
        &&& 0 <= self.solar.cloud_noise_std <= 1000
    }

    /// The battery constraints: positive capacity, a state of charge and
    /// efficiencies within the unit range, bounded rates.
    pub open spec fn battery_ok(&self) -> bool {
        &&& 0 < self.battery.capacity_kwh <= ENERGY_LIMIT
        &&& 0 <= self.battery.initial_soc <= PPM
        &&& 0 <= self.battery.max_charge_kw <= POWER_LIMIT
        &&& 0 <= self.battery.max_discharge_kw <= POWER_LIMIT
        &&& 0 < self.battery.eta_charge <= PPM
        &&& 0 < self.battery.eta_discharge <= PPM
    }

    /// The baseload constraints: bounded magnitudes, a phase within the
    /// cycle.
    pub open spec fn baseload_ok(&self) -> bool {
        &&& -POWER_LIMIT <= self.baseload.base_kw <= POWER_LIMIT
        &&& -POWER_LIMIT <= self.baseload.amp_kw <= POWER_LIMIT
        &&& 0 <= self.baseload.phase_milli < 1000
        &&& 0 <= self.baseload.noise_std <= POWER_LIMIT
    }

    /// The EV constraints: a positive rate limit, ordered bounded demand
    /// and dwell ranges.
    pub open spec fn ev_ok(&self) -> bool {
        &&& 0 < self.ev.max_charge_kw <= POWER_LIMIT
        &&& 0 <= self.ev.demand_kwh_min <= self.ev.demand_kwh_max <= POWER_LIMIT
        &&& 0 < self.ev.dwell_steps_min <= self.ev.dwell_steps_max
    }

    /// The feeder constraints: bounded non-negative limits.
    pub open spec fn feeder_ok(&self) -> bool {
        &&& 0 <= self.feeder.max_import_kw <= crate::numeric::FLOW_LIMIT
        &&& 0 <= self.feeder.max_export_kw <= crate::numeric::FLOW_LIMIT
    }

    /// The demand-response constraints: a non-empty window and a bounded
    /// non-negative request.
    pub open spec fn dr_ok(&self) -> bool {
        &&& self.dr_event.start_step < self.dr_event.end_step
        &&& 0 <= self.dr_event.requested_reduction_kw <= crate::numeric::FLOW_LIMIT
    }

    /// Whether the constraint behind the named field is violated: the
    /// condition each validation error stands for.
    #[verifier::opaque]
    pub open spec fn violates(&self, f: Seq<char>) -> bool {
        ||| (f == "simulation.steps_per_day"@ && !(0 < self.simulation.steps_per_day
            <= DAY_MILLI_HOURS))
        ||| (f == "simulation.days"@ && !(0 < self.simulation.days <= 100_000))
        ||| (f == "simulation.imbalance_price_per_kwh"@ && !(0
            <= self.simulation.imbalance_price_per_kwh <= PPM))
        ||| (f == "simulation.controller"@ && !(self.simulation.controller@ == "naive"@
            || self.simulation.controller@ == "greedy"@))
        ||| (f == "solar.model"@ && !(self.solar.model@ == "simple"@ || self.solar.model@
            == "ar1"@))
        ||| (f == "solar.sunrise_idx"@ && !(self.solar.sunrise_idx < self.solar.sunset_idx))
        ||| (f == "solar.sunset_idx"@ && !(self.solar.sunset_idx
            <= self.simulation.steps_per_day))
        ||| (f == "solar.kw_peak"@ && !(0 <= self.solar.kw_peak <= POWER_LIMIT))
        ||| (f == "solar.noise_std"@ && !(0 <= self.solar.noise_std <= 1000))
        ||| (f == "solar.cloud_noise_std"@ && !(0 <= self.solar.cloud_noise_std <= 1000))
        ||| (f == "battery.capacity_kwh"@ && !(0 < self.battery.capacity_kwh <= ENERGY_LIMIT))
        ||| (f == "battery.initial_soc"@ && !(0 <= self.battery.initial_soc <= PPM))
        ||| (f == "battery.max_charge_kw"@ && !(0 <= self.battery.max_charge_kw <= POWER_LIMIT))
        ||| (f == "battery.max_discharge_kw"@ && !(0 <= self.battery.max_discharge_kw
            <= POWER_LIMIT))
        ||| (f == "battery.eta_charge"@ && !(0 < self.battery.eta_charge <= PPM))
        ||| (f == "battery.eta_discharge"@ && !(0 < self.battery.eta_discharge <= PPM))
        ||| (f == "baseload.base_kw"@ && !(-POWER_LIMIT <= self.baseload.base_kw <= POWER_LIMIT))
        ||| (f == "baseload.amp_kw"@ && !(-POWER_LIMIT <= self.baseload.amp_kw <= POWER_LIMIT))
        ||| (f == "baseload.phase_milli"@ && !(0 <= self.baseload.phase_milli < 1000))
        ||| (f == "baseload.noise_std"@ && !(0 <= self.baseload.noise_std <= POWER_LIMIT))
        ||| (f == "ev.max_charge_kw"@ && !(0 < self.ev.max_charge_kw <= POWER_LIMIT))
        ||| (f == "ev.demand_kwh_min"@ && !(0 <= self.ev.demand_kwh_min <= self.ev.demand_kwh_max
            <= POWER_LIMIT))
        ||| (f == "ev.dwell_steps_min"@ && !(0 < self.ev.dwell_steps_min
            <= self.ev.dwell_steps_max))
        ||| (f == "feeder.max_import_kw"@ && !(0 <= self.feeder.max_import_kw
            <= crate::numeric::FLOW_LIMIT))
        ||| (f == "feeder.max_export_kw"@ && !(0 <= self.feeder.max_export_kw
            <= crate::numeric::FLOW_LIMIT))
        ||| (f == "dr_event.start_step"@ && !(self.dr_event.start_step < self.dr_event.end_step))
        ||| (f == "dr_event.requested_reduction_kw"@ && !(0
            <= self.dr_event.requested_reduction_kw <= crate::numeric::FLOW_LIMIT))
    }

    /// The baseline scenario preset.
    pub fn baseline() -> (r: ScenarioConfig)
        ensures
            r.valid(),
            r.simulation.controller@ == "naive"@,
            r.solar.model@ == "simple"@,
            r.simulation.steps_per_day == 24,
            r.simulation.seed == 42,
            r.battery == (BatteryConfig {
                capacity_kwh: 10_000_000,
                initial_soc: 500_000,
                max_charge_kw: 5000,
                max_discharge_kw: 5000,
                eta_charge: 950_000,
                eta_discharge: 950_000,
            }),
            r.ev == (EvConfig {
                max_charge_kw: 7200,
                demand_kwh_min: 4_000_000,
                demand_kwh_max: 14_000_000,
                dwell_steps_min: 3,
                dwell_steps_max: 10,
            }),
            r.feeder == (FeederConfig { max_import_kw: 5000, max_export_kw: 4000 }),
            r.dr_event == (DrEventConfig {
                start_step: 17,
                end_step: 21,
                requested_reduction_kw: 1500,
            }),
            r.baseload == (BaseloadConfig {
                base_kw: 800,
                amp_kw: 700,
                phase_milli: 191,
                noise_std: 50,
            }),
            r.solar.kw_peak == 5000,
            r.simulation.days == 1,
            r.simulation.imbalance_price_per_kwh == 100,
    {
        ScenarioConfig {
            simulation: SimulationConfig::baseline(),
            baseload: BaseloadConfig::baseline(),
            solar: SolarConfig::baseline(),
            battery: BatteryConfig::baseline(),
            ev: EvConfig::baseline(),
            feeder: FeederConfig::baseline(),
            dr_event: DrEventConfig::baseline(),
        }
    }

    /// The high-solar preset: a large PV array with the AR(1) cloud
    /// model, a larger battery at low charge, and a wide export limit.
    pub fn high_solar() -> (r: ScenarioConfig)
        ensures
            r.valid(),
            r.solar.model@ == "ar1"@,
            r.solar.kw_peak == 12_000,
            r.battery.capacity_kwh == 15_000_000,
    {
        ScenarioConfig {
            simulation: SimulationConfig::baseline(),
            baseload: BaseloadConfig { base_kw: 600, amp_kw: 400, phase_milli: 191, noise_std: 30 },
            solar: SolarConfig {
                model: "ar1".to_owned(),
                kw_peak: 12_000,
                sunrise_idx: 5,
                sunset_idx: 19,
                noise_std: 50,
                alpha: 900,
                cloud_noise_std: 250,
            },
            battery: BatteryConfig {
                capacity_kwh: 15_000_000,
                initial_soc: 300_000,
                max_charge_kw: 7000,
                max_discharge_kw: 7000,
                eta_charge: 950_000,
                eta_discharge: 950_000,
            },
            ev: EvConfig::baseline(),
            feeder: FeederConfig { max_import_kw: 5000, max_export_kw: 10_000 },
            dr_event: DrEventConfig { start_step: 17, end_step: 21, requested_reduction_kw: 1000 },
        }
    }

    /// The DR-stress preset: aggressive demand response, tight feeder
    /// limits, a smaller and less efficient battery.
    pub fn dr_stress() -> (r: ScenarioConfig)
        ensures
            r.valid(),
            r.feeder.max_import_kw == 3000,
            r.dr_event.requested_reduction_kw == 3000,
            r.simulation.imbalance_price_per_kwh == 250,
    {
        ScenarioConfig {
            simulation: SimulationConfig {
                steps_per_day: 24,
                days: 1,
                seed: 42,
                imbalance_price_per_kwh: 250,
                controller: "naive".to_owned(),
            },
            baseload: BaseloadConfig {
                base_kw: 1200,
                amp_kw: 800,
                phase_milli: 191,
                noise_std: 50,
            },
            solar: SolarConfig {
                model: "simple".to_owned(),
                kw_peak: 4000,
                sunrise_idx: 6,
                sunset_idx: 18,
                noise_std: 50,
                alpha: 900,
                cloud_noise_std: 200,
            },
            battery: BatteryConfig {
                capacity_kwh: 8_000_000,
                initial_soc: 500_000,
                max_charge_kw: 4000,
                max_discharge_kw: 4000,
                eta_charge: 900_000,
                eta_discharge: 900_000,
            },
            ev: EvConfig {
                max_charge_kw: 7200,
                demand_kwh_min: 6_000_000,
                demand_kwh_max: 18_000_000,
                dwell_steps_min: 2,
                dwell_steps_max: 8,
            },
            feeder: FeederConfig { max_import_kw: 3000, max_export_kw: 2000 },
            dr_event: DrEventConfig { start_step: 14, end_step: 22, requested_reduction_kw: 3000 },
        }
    }

    /// Loads a scenario from a named preset; unknown names are an error
    /// naming the preset field.
    pub fn from_preset(name: &str) -> (r: Result<ScenarioConfig, ConfigError>)
        ensures
            name@ == "baseline"@ || name@ == "high_solar"@ || name@ == "dr_stress"@ <==> r is Ok,
            r matches Ok(c) ==> c.valid(),
    {
        if str_eq(name, "baseline") {
            Ok(Self::baseline())
        } else if str_eq(name, "high_solar") {
            Ok(Self::high_solar())
        } else if str_eq(name, "dr_stress") {
            Ok(Self::dr_stress())
        } else {
            let mut message = "unknown preset \"".to_owned();
            message.append(name);
            message.append("\", available: baseline, high_solar, dr_stress");
            Err(ConfigError { field: "preset".to_owned(), message })
        }
    }

    /// The preset names this crate publishes.
    pub fn presets() -> (r: Vec<String>)
        ensures
            r@.len() == 3,
            r@[0]@ == "baseline"@,
            r@[1]@ == "high_solar"@,
            r@[2]@ == "dr_stress"@,
    {
        let mut v: Vec<String> = Vec::new();
        v.push("baseline".to_owned());
        v.push("high_solar".to_owned());
        v.push("dr_stress".to_owned());
        v
    }

    /// Validates all fields: the result is empty exactly when the
    /// configuration satisfies every constraint of [`Self::valid`], and
    /// every returned error names a field whose constraint is indeed
    /// violated.
    pub fn validate(&self) -> (r: Vec<ConfigError>)
        ensures
            r@.len() == 0 <==> self.valid(),
            forall|i: int| 0 <= i < r@.len() ==> self.violates(#[trigger] r@[i].field@),
    {
        let mut errors = self.validate_simulation();
        let mut more = self.validate_solar();
        merge_errors(self, &mut errors, more);
        more = self.validate_battery();
        merge_errors(self, &mut errors, more);
        more = self.validate_baseload();
        merge_errors(self, &mut errors, more);
        more = self.validate_ev();
        merge_errors(self, &mut errors, more);
        more = self.validate_feeder();
        merge_errors(self, &mut errors, more);
        more = self.validate_dr_event();
        merge_errors(self, &mut errors, more);
        errors
    }

    /// The `simulation` section's errors: empty exactly when the section's
    /// constraints hold, each error naming a violated field.
    fn validate_simulation(&self) -> (r: Vec<ConfigError>)
        ensures
            r@.len() == 0 <==> self.simulation_ok(),
            forall|i: int| 0 <= i < r@.len() ==> self.violates(#[trigger] r@[i].field@),
    {
        let mut errors: Vec<ConfigError> = Vec::new();
        if !(0 < self.simulation.steps_per_day && self.simulation.steps_per_day
            <= DAY_MILLI_HOURS as usize) {
            push_error(&mut errors, "simulation.steps_per_day", "must be in 1..=24000");
            proof {
                reveal(ScenarioConfig::violates);
                assert(self.violates("simulation.steps_per_day"@));
            }
            proof {
                assert(forall|j: int|
                    0 <= j < errors@.len() ==> self.violates(#[trigger] errors@[j].field@));
            }
        }
        if !(0 < self.simulation.days && self.simulation.days <= 100_000) {
            push_error(&mut errors, "simulation.days", "must be in 1..=100000");
            proof {
                reveal(ScenarioConfig::violates);
                assert(self.violates("simulation.days"@));
            }
            proof {
                assert(forall|j: int|
                    0 <= j < errors@.len() ==> self.violates(#[trigger] errors@[j].field@));
            }
        }
        if !(0 <= self.simulation.imbalance_price_per_kwh
            && self.simulation.imbalance_price_per_kwh <= PPM) {
            push_error(&mut errors, "simulation.imbalance_price_per_kwh", "must be in 0..=1000000");
            proof {
                reveal(ScenarioConfig::violates);
                assert(self.violates("simulation.imbalance_price_per_kwh"@));
            }
            proof {
                assert(forall|j: int|
                    0 <= j < errors@.len() ==> self.violates(#[trigger] errors@[j].field@));
            }
        }
        if !(str_eq(self.simulation.controller.as_str(), "naive") || str_eq(
            self.simulation.controller.as_str(),
            "greedy",
        )) {
            push_error(&mut errors, "simulation.controller", "must be \"naive\" or \"greedy\"");
            proof {
                reveal(ScenarioConfig::violates);
                assert(self.violates("simulation.controller"@));
            }
            proof {
                assert(forall|j: int|
                    0 <= j < errors@.len() ==> self.violates(#[trigger] errors@[j].field@));
            }
        }
        errors
    }

    /// The `solar` section's errors: empty exactly when the section's
    /// constraints hold, each error naming a violated field.
    fn validate_solar(&self) -> (r: Vec<ConfigError>)
        ensures
            r@.len() == 0 <==> self.solar_ok(),
            forall|i: int| 0 <= i < r@.len() ==> self.violates(#[trigger] r@[i].field@),
    {
        let mut errors: Vec<ConfigError> = Vec::new();
        if !(str_eq(self.solar.model.as_str(), "simple") || str_eq(
            self.solar.model.as_str(),
            "ar1",
        )) {
            push_error(&mut errors, "solar.model", "must be \"simple\" or \"ar1\"");
            proof {
                reveal(ScenarioConfig::violates);
                assert(self.violates("solar.model"@));
            }
            proof {
                assert(forall|j: int|
                    0 <= j < errors@.len() ==> self.violates(#[trigger] errors@[j].field@));
            }
        }
        if !(self.solar.sunrise_idx < self.solar.sunset_idx) {
            push_error(&mut errors, "solar.sunrise_idx", "must be < solar.sunset_idx");
            proof {
                reveal(ScenarioConfig::violates);
                assert(self.violates("solar.sunrise_idx"@));
            }
            proof {
                assert(forall|j: int|
                    0 <= j < errors@.len() ==> self.violates(#[trigger] errors@[j].field@));
            }
        }
        if !(self.solar.sunset_idx <= self.simulation.steps_per_day) {
            push_error(&mut errors, "solar.sunset_idx", "must be <= simulation.steps_per_day");
            proof {
                reveal(ScenarioConfig::violates);
                assert(self.violates("solar.sunset_idx"@));
            }
            proof {
                assert(forall|j: int|
                    0 <= j < errors@.len() ==> self.violates(#[trigger] errors@[j].field@));
            }
        }
        if !(0 <= self.solar.kw_peak && self.solar.kw_peak <= POWER_LIMIT) {
            push_error(&mut errors, "solar.kw_peak", "must be in 0..=100000000");
            proof {
                reveal(ScenarioConfig::violates);
                assert(self.violates("solar.kw_peak"@));
            }
            proof {
                assert(forall|j: int|
                    0 <= j < errors@.len() ==> self.violates(#[trigger] errors@[j].field@));
            }
        }
        if !(0 <= self.solar.noise_std && self.solar.noise_std <= 1000) {
            push_error(&mut errors, "solar.noise_std", "must be in 0..=1000");
            proof {
                reveal(ScenarioConfig::violates);
                assert(self.violates("solar.noise_std"@));
            }
            proof {
                assert(forall|j: int|
                    0 <= j < errors@.len() ==> self.violates(#[trigger] errors@[j].field@));
            }
        }
        if !(0 <= self.solar.cloud_noise_std && self.solar.cloud_noise_std <= 1000) {
            push_error(&mut errors, "solar.cloud_noise_std", "must be in 0..=1000");
            proof {
                reveal(ScenarioConfig::violates);
                assert(self.violates("solar.cloud_noise_std"@));
            }
            proof {
                assert(forall|j: int|
                    0 <= j < errors@.len() ==> self.violates(#[trigger] errors@[j].field@));
            }
        }
        errors
    }

    /// The `battery` section's errors: empty exactly when the section's
    /// constraints hold, each error naming a violated field.
    fn validate_battery(&self) -> (r: Vec<ConfigError>)
        ensures
            r@.len() == 0 <==> self.battery_ok(),
            forall|i: int| 0 <= i < r@.len() ==> self.violates(#[trigger] r@[i].field@),
    {
        let mut errors: Vec<ConfigError> = Vec::new();
        if !(0 < self.battery.capacity_kwh && self.battery.capacity_kwh <= ENERGY_LIMIT) {
            push_error(&mut errors, "battery.capacity_kwh", "must be positive");
            proof {
                reveal(ScenarioConfig::violates);
                assert(self.violates("battery.capacity_kwh"@));
            }
            proof {
                assert(forall|j: int|
                    0 <= j < errors@.len() ==> self.violates(#[trigger] errors@[j].field@));
            }
        }
        if !(0 <= self.battery.initial_soc && self.battery.initial_soc <= PPM) {
            push_error(&mut errors, "battery.initial_soc", "must be in 0..=1000000");
            proof {
                reveal(ScenarioConfig::violates);
                assert(self.violates("battery.initial_soc"@));
            }
            proof {
                assert(forall|j: int|
                    0 <= j < errors@.len() ==> self.violates(#[trigger] errors@[j].field@));
            }
        }
        if !(0 <= self.battery.max_charge_kw && self.battery.max_charge_kw <= POWER_LIMIT) {
            push_error(&mut errors, "battery.max_charge_kw", "must be in 0..=100000000");
            proof {
                reveal(ScenarioConfig::violates);
                assert(self.violates("battery.max_charge_kw"@));
            }
            proof {
                assert(forall|j: int|
                    0 <= j < errors@.len() ==> self.violates(#[trigger] errors@[j].field@));
            }
        }
        if !(0 <= self.battery.max_discharge_kw && self.battery.max_discharge_kw <= POWER_LIMIT) {
            push_error(&mut errors, "battery.max_discharge_kw", "must be in 0..=100000000");
            proof {
                reveal(ScenarioConfig::violates);
                assert(self.violates("battery.max_discharge_kw"@));
            }
            proof {
                assert(forall|j: int|
                    0 <= j < errors@.len() ==> self.violates(#[trigger] errors@[j].field@));
            }
        }
        if !(0 < self.battery.eta_charge && self.battery.eta_charge <= PPM) {
            push_error(&mut errors, "battery.eta_charge", "must be in 1..=1000000");
            proof {
                reveal(ScenarioConfig::violates);
                assert(self.violates("battery.eta_charge"@));
            }
            proof {
                assert(forall|j: int|
                    0 <= j < errors@.len() ==> self.violates(#[trigger] errors@[j].field@));
            }
        }
        if !(0 < self.battery.eta_discharge && self.battery.eta_discharge <= PPM) {
            push_error(&mut errors, "battery.eta_discharge", "must be in 1..=1000000");
            proof {
                reveal(ScenarioConfig::violates);
                assert(self.violates("battery.eta_discharge"@));
            }
            proof {
                assert(forall|j: int|
                    0 <= j < errors@.len() ==> self.violates(#[trigger] errors@[j].field@));
            }
        }
        errors
    }

    /// The `baseload` section's errors: empty exactly when the section's
    /// constraints hold, each error naming a violated field.
    fn validate_baseload(&self) -> (r: Vec<ConfigError>)
        ensures
            r@.len() == 0 <==> self.baseload_ok(),
            forall|i: int| 0 <= i < r@.len() ==> self.violates(#[trigger] r@[i].field@),
    {
        let mut errors: Vec<ConfigError> = Vec::new();
        if !(-POWER_LIMIT <= self.baseload.base_kw && self.baseload.base_kw <= POWER_LIMIT) {
            push_error(&mut errors, "baseload.base_kw", "magnitude must be at most 100000000");
            proof {
                reveal(ScenarioConfig::violates);
                assert(self.violates("baseload.base_kw"@));
            }
            proof {
                assert(forall|j: int|
                    0 <= j < errors@.len() ==> self.violates(#[trigger] errors@[j].field@));
            }
        }
        if !(-POWER_LIMIT <= self.baseload.amp_kw && self.baseload.amp_kw <= POWER_LIMIT) {
            push_error(&mut errors, "baseload.amp_kw", "magnitude must be at most 100000000");
            proof {
                reveal(ScenarioConfig::violates);
                assert(self.violates("baseload.amp_kw"@));
            }
            proof {
                assert(forall|j: int|
                    0 <= j < errors@.len() ==> self.violates(#[trigger] errors@[j].field@));
            }
        }
        if !(0 <= self.baseload.phase_milli && self.baseload.phase_milli < 1000) {
            push_error(&mut errors, "baseload.phase_milli", "must be in 0..=999");
            proof {
                reveal(ScenarioConfig::violates);
                assert(self.violates("baseload.phase_milli"@));
            }
            proof {
                assert(forall|j: int|
                    0 <= j < errors@.len() ==> self.violates(#[trigger] errors@[j].field@));
            }
        }
        if !(0 <= self.baseload.noise_std && self.baseload.noise_std <= POWER_LIMIT) {
            push_error(&mut errors, "baseload.noise_std", "must be in 0..=100000000");
            proof {
                reveal(ScenarioConfig::violates);
                assert(self.violates("baseload.noise_std"@));
            }
            proof {
                assert(forall|j: int|
                    0 <= j < errors@.len() ==> self.violates(#[trigger] errors@[j].field@));
            }
        }
        errors
    }

    /// The `ev` section's errors: empty exactly when the section's
    /// constraints hold, each error naming a violated field.
    fn validate_ev(&self) -> (r: Vec<ConfigError>)
        ensures
            r@.len() == 0 <==> self.ev_ok(),
            forall|i: int| 0 <= i < r@.len() ==> self.violates(#[trigger] r@[i].field@),
    {
        let mut errors: Vec<ConfigError> = Vec::new();
        if !(0 < self.ev.max_charge_kw && self.ev.max_charge_kw <= POWER_LIMIT) {
            push_error(&mut errors, "ev.max_charge_kw", "must be in 1..=100000000");
            proof {
                reveal(ScenarioConfig::violates);
                assert(self.violates("ev.max_charge_kw"@));
            }
            proof {
                assert(forall|j: int|
                    0 <= j < errors@.len() ==> self.violates(#[trigger] errors@[j].field@));
            }
        }
        if !(0 <= self.ev.demand_kwh_min && self.ev.demand_kwh_min <= self.ev.demand_kwh_max
            && self.ev.demand_kwh_max <= POWER_LIMIT) {
            push_error(&mut errors, "ev.demand_kwh_min", "must be <= ev.demand_kwh_max");
            proof {
                reveal(ScenarioConfig::violates);
                assert(self.violates("ev.demand_kwh_min"@));
            }
            proof {
                assert(forall|j: int|
                    0 <= j < errors@.len() ==> self.violates(#[trigger] errors@[j].field@));
            }
        }
        if !(0 < self.ev.dwell_steps_min && self.ev.dwell_steps_min <= self.ev.dwell_steps_max) {
            push_error(&mut errors, "ev.dwell_steps_min", "must be <= ev.dwell_steps_max");
            proof {
                reveal(ScenarioConfig::violates);
                assert(self.violates("ev.dwell_steps_min"@));
            }
            proof {
                assert(forall|j: int|
                    0 <= j < errors@.len() ==> self.violates(#[trigger] errors@[j].field@));
            }
        }
        errors
    }

    /// The `feeder` section's errors: empty exactly when the section's
    /// constraints hold, each error naming a violated field.
    fn validate_feeder(&self) -> (r: Vec<ConfigError>)
        ensures
            r@.len() == 0 <==> self.feeder_ok(),
            forall|i: int| 0 <= i < r@.len() ==> self.violates(#[trigger] r@[i].field@),
    {
        let mut errors: Vec<ConfigError> = Vec::new();
        if !(0 <= self.feeder.max_import_kw && self.feeder.max_import_kw
            <= crate::numeric::FLOW_LIMIT) {
            push_error(&mut errors, "feeder.max_import_kw", "must be in 0..=1000000000");
            proof {
                reveal(ScenarioConfig::violates);
                assert(self.violates("feeder.max_import_kw"@));
            }
            proof {
                assert(forall|j: int|
                    0 <= j < errors@.len() ==> self.violates(#[trigger] errors@[j].field@));
            }
        }
        if !(0 <= self.feeder.max_export_kw && self.feeder.max_export_kw
            <= crate::numeric::FLOW_LIMIT) {
            push_error(&mut errors, "feeder.max_export_kw", "must be in 0..=1000000000");
            proof {
                reveal(ScenarioConfig::violates);
                assert(self.violates("feeder.max_export_kw"@));
            }
            proof {
                assert(forall|j: int|
                    0 <= j < errors@.len() ==> self.violates(#[trigger] errors@[j].field@));
            }
        }
        errors
    }

    /// The `dr_event` section's errors: empty exactly when the section's
    /// constraints hold, each error naming a violated field.
    fn validate_dr_event(&self) -> (r: Vec<ConfigError>)
        ensures
            r@.len() == 0 <==> self.dr_ok(),
            forall|i: int| 0 <= i < r@.len() ==> self.violates(#[trigger] r@[i].field@),
    {
        let mut errors: Vec<ConfigError> = Vec::new();
        if !(self.dr_event.start_step < self.dr_event.end_step) {
            push_error(&mut errors, "dr_event.start_step", "must be < dr_event.end_step");
            proof {
                reveal(ScenarioConfig::violates);
                assert(self.violates("dr_event.start_step"@));
            }
            proof {
                assert(forall|j: int|
                    0 <= j < errors@.len() ==> self.violates(#[trigger] errors@[j].field@));
            }
        }
        if !(0 <= self.dr_event.requested_reduction_kw && self.dr_event.requested_reduction_kw
            <= crate::numeric::FLOW_LIMIT) {
            push_error(&mut errors, "dr_event.requested_reduction_kw", "must be in 0..=1000000000");
            proof {
                reveal(ScenarioConfig::violates);
                assert(self.violates("dr_event.requested_reduction_kw"@));
            }
            proof {
                assert(forall|j: int|
                    0 <= j < errors@.len() ==> self.violates(#[trigger] errors@[j].field@));
            }
        }
        errors
    }
}

/// Moves one section's errors onto the running list, keeping the
/// violated-field guarantee for every element.
fn merge_errors(config: &ScenarioConfig, errors: &mut Vec<ConfigError>, more: Vec<ConfigError>)
    requires
        forall|i: int|
            0 <= i < old(errors)@.len() ==> config.violates(#[trigger] old(errors)@[i].field@),
        forall|i: int| 0 <= i < more@.len() ==> config.violates(#[trigger] more@[i].field@),
    ensures
        final(errors)@.len() == old(errors)@.len() + more@.len(),
        forall|i: int|
            0 <= i < final(errors)@.len() ==> config.violates(#[trigger] final(errors)@[i].field@),
{
    let ghost old_errors = errors@;
    let mut more = more;
    let ghost more_seq = more@;
    errors.append(&mut more);
    proof {
        assert forall|i: int| 0 <= i < errors@.len() implies config.violates(
            #[trigger] errors@[i].field@,
        ) by {
            if i < old_errors.len() {
                assert(errors@[i] == old_errors[i]);
            } else {
                assert(errors@[i] == more_seq[i - old_errors.len()]);
            }
        }
    }
}

/// Appends one configuration error naming the given field.
fn push_error(errors: &mut Vec<ConfigError>, field: &str, message: &str)
    ensures
        final(errors)@.len() == old(errors)@.len() + 1,
        final(errors)@.last().field@ == field@,
        forall|j: int| 0 <= j < old(errors)@.len() ==> final(errors)@[j] == old(errors)@[j],
{
    errors.push(ConfigError { field: field.to_owned(), message: message.to_owned() });
}

impl ConfigError {
    /// The error as one line of text.
    pub fn render(&self) -> (r: String)
    {
        let mut s = "config error: ".to_owned();
        s.append(self.field.as_str());
        s.append(" \u{2014} ");
        s.append(self.message.as_str());
        s
    }
}

} // verus!
