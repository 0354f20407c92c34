//! Simulation engine, feeder, scheduling, and event modules.

pub mod clock;
pub mod controller;
pub mod engine;
pub mod event;
pub mod feeder;
pub mod kpi;
pub mod power_balance;
pub mod schedule;
pub mod types;
