//! Neighborhood-scale Virtual Power Plant simulator.
//!
//! A discrete-time simulator for a single feeder aggregating stochastic
//! residential baseload, photovoltaic generation, an EV charger with
//! deadline-constrained demand, and a battery with state-of-charge dynamics.
//! Two controllers (a naive feasibility projection and a greedy
//! forecast-aware allocator) compute dispatch setpoints honouring
//! demand-response requests and feeder limits while tracking a day-ahead
//! target schedule.
//!
//! # Units
//!
//! Every quantity is carried as a scaled integer so that the step dynamics
//! are exact:
//! - power: milli-kilowatts (`1 kW = 1000`), feeder sign convention
//!   (positive = import / load, negative = export / generation);
//! - energy: micro-kilowatt-hours (a milli-kW times a milli-hour);
//! - time: milli-hours per step, `dt = 24000 / steps_per_day`;
//! - ratios (state of charge, efficiencies, daylight fraction):
//!   parts per million.

pub mod api;
pub mod cli;
pub mod config;
pub mod devices;
pub mod forecast;
pub mod io;
pub mod numeric;
pub mod rng;
pub mod runner;
pub mod scenario;
pub mod sim;
pub mod telemetry;
pub mod text;

use vstd::prelude::*;

verus! {

} // verus!
