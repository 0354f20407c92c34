//! Shared device vocabulary: the per-step context handed to every device
//! and the deterministic daylight envelope.

use vstd::prelude::*;

verus! {

use crate::numeric::{DAY_MILLI_HOURS, PPM};

/// Contextual information passed to devices during power calculations: the
/// current timestep and an optional setpoint (milli-kW) for controllable
/// devices.
pub struct DeviceContext {
    /// Current simulation timestep.
    pub timestep: usize,
    /// Optional power setpoint for controllable devices (milli-kW).
    pub setpoint_kw: Option<i64>,
}

impl DeviceContext {
    /// A context with the given timestep and no setpoint.
    pub fn new(timestep: usize) -> (r: DeviceContext)
        ensures
            r.timestep == timestep,
            r.setpoint_kw is None,
    {
        DeviceContext { timestep, setpoint_kw: None }
    }

    /// A context with the given timestep and setpoint.
    pub fn with_setpoint(timestep: usize, setpoint_kw: i64) -> (r: DeviceContext)
        ensures
            r.timestep == timestep,
            r.setpoint_kw == Some(setpoint_kw),
    {
        DeviceContext { timestep, setpoint_kw: Some(setpoint_kw) }
    }
}

/// The daylight fraction, in parts per million, at timestep `t` of a day
/// with `steps` steps: zero at night and at the sunrise step, a dome that
/// peaks at solar noon, zero again from the sunset step on.
pub open spec fn daylight_frac_ppm_spec(t: int, steps: int, sunrise: int, sunset: int) -> int
    recommends
        0 < steps,
        sunrise < sunset <= steps,
{
    let day_t = t % steps;
    if day_t < sunrise || day_t >= sunset {
        0
    } else {
        let span = sunset - sunrise;
        let a = day_t - sunrise;
        4 * PPM * a * (span - a) / (span * span)
    }
}

/// The daylight fraction in parts per million: a quadratic dome over the
/// window `[sunrise, sunset)`, zero outside it and at the sunrise step
/// itself, strictly positive strictly inside the window.
pub fn daylight_frac_ppm(t: usize, steps: usize, sunrise: usize, sunset: usize) -> (r: i64)
    requires
        0 < steps <= DAY_MILLI_HOURS,
        sunrise < sunset <= steps,
    ensures
        r == daylight_frac_ppm_spec(t as int, steps as int, sunrise as int, sunset as int),
        0 <= r <= PPM,
        sunrise < (t % steps) < sunset ==> r > 0,
{
    let day_t = t % steps;
    if day_t < sunrise || day_t >= sunset {
        0
    } else {
        let span = (sunset - sunrise) as i64;
        let a = (day_t - sunrise) as i64;
        proof {
            let si = span as int;
            let ai = a as int;
            assert(0 <= ai < si <= DAY_MILLI_HOURS as int);
            assert(4 * PPM as int * ai <= 4 * PPM as int * DAY_MILLI_HOURS as int)
                by (nonlinear_arith)
                requires
                    0 <= ai <= DAY_MILLI_HOURS as int,
            ;
            assert(0 <= 4 * PPM * ai * (si - ai) <= 4 * PPM * DAY_MILLI_HOURS * DAY_MILLI_HOURS
                && 0 < si * si <= DAY_MILLI_HOURS * DAY_MILLI_HOURS && 0 <= 4 * PPM * ai * (si
                - ai) / (si * si) <= PPM && (1 <= ai && ai <= si - 1 ==> 1 <= 4 * PPM * ai * (si
                - ai) / (si * si))) by (nonlinear_arith)
                requires
                    0 <= ai < si,
                    0 < si <= DAY_MILLI_HOURS as int,
            ;
        }
        let num = 4 * PPM * a * (span - a);
        num / (span * span)
    }
}

/// The solar model variants: independent per-step noise, or the AR(1)
/// cloud process. One `power_kw` entry point dispatches to the variant.
pub enum Solar {
    /// Independent multiplicative noise per daylight step.
    Simple(crate::devices::solar::SolarPv),
    /// Temporally correlated AR(1) cloud multiplier.
    Ar1(crate::devices::solar_ar1::SolarPvAr1),
}

impl Solar {
    /// The wrapped variant is well-formed.
    pub open spec fn wf(&self) -> bool {
        match self {
            Solar::Simple(s) => s.wf(),
            Solar::Ar1(s) => s.wf(),
        }
    }

    /// The seed of the variant's word stream.
    pub open spec fn seed(&self) -> u64 {
        match self {
            Solar::Simple(s) => s.rng.seed(),
            Solar::Ar1(s) => s.rng.seed(),
        }
    }

    /// The position of the variant's word stream.
    pub open spec fn position(&self) -> u64 {
        match self {
            Solar::Simple(s) => s.rng.position(),
            Solar::Ar1(s) => s.rng.position(),
        }
    }

    /// The power at `t` in feeder convention: non-positive, from whichever
    /// variant this is.
    pub fn power_kw(&mut self, context: &DeviceContext) -> (r: i64)
        requires
            old(self).wf(),
            old(self).position() < u64::MAX,
        ensures
            final(self).wf(),
            -5 * crate::numeric::POWER_LIMIT <= r <= 0,
            final(self).seed() == old(self).seed(),
            old(self).position() <= final(self).position() <= old(self).position() + 1,
            match *old(self) {
                Solar::Simple(s) => *final(self) matches Solar::Simple(s2) && r
                    == -crate::devices::solar::solar_gen_spec(
                    s.kw_peak as int,
                    s.steps_per_day as int,
                    s.sunrise_idx as int,
                    s.sunset_idx as int,
                    s.noise_std as int,
                    context.timestep as int,
                    crate::rng::std_rng_word(s.rng.seed(), s.rng.position()),
                ) && s2.kw_peak == s.kw_peak && s2.steps_per_day == s.steps_per_day
                    && s2.sunrise_idx == s.sunrise_idx && s2.sunset_idx == s.sunset_idx
                    && s2.noise_std == s.noise_std && s2.rng.position() == if
                    daylight_frac_ppm_spec(
                    context.timestep as int,
                    s.steps_per_day as int,
                    s.sunrise_idx as int,
                    s.sunset_idx as int,
                ) <= 0 {
                    s.rng.position() as int
                } else {
                    s.rng.position() + 1
                },
                Solar::Ar1(s) => *final(self) matches Solar::Ar1(s2) && {
                    let mult = crate::devices::solar_ar1::ar1_next_multiplier_spec(
                        s.alpha as int,
                        s.multiplier as int,
                        crate::rng::noise_spec(
                            crate::rng::std_rng_word(s.rng.seed(), s.rng.position()),
                            s.cloud_noise_std as int,
                        ),
                    );
                    r == crate::devices::solar_ar1::ar1_power_spec(
                        s.kw_peak as int,
                        s.steps_per_day as int,
                        s.sunrise_idx as int,
                        s.sunset_idx as int,
                        mult,
                        context.timestep as int,
                    ) && s2.multiplier == mult && s2.kw_peak == s.kw_peak && s2.steps_per_day
                        == s.steps_per_day && s2.sunrise_idx == s.sunrise_idx && s2.sunset_idx
                        == s.sunset_idx && s2.alpha == s.alpha && s2.cloud_noise_std
                        == s.cloud_noise_std && s2.rng.position() == s.rng.position() + 1
                },
            },
    {
        match self {
            Solar::Simple(s) => s.power_kw(context),
            Solar::Ar1(s) => s.power_kw(context),
        }
    }

    /// A human-readable type name for the device.
    pub fn device_type(&self) -> (r: &'static str) {
        match self {
            Solar::Simple(_) => "SolarPV",
            Solar::Ar1(_) => "SolarPV_ar1",
        }
    }
}

} // verus!
