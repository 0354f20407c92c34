//! Device simulation components for power system modeling.

pub mod baseload;
pub mod battery;
pub mod ev_charger;
pub mod solar;
pub mod solar_ar1;
pub mod types;

pub use baseload::BaseLoad;
pub use battery::Battery;
pub use ev_charger::EvCharger;
pub use solar::SolarPv;
pub use solar_ar1::SolarPvAr1;
pub use types::DeviceContext;
pub use types::Solar;
