//! A solar PV generator driven by daylight hours.
//!
//! `SolarPv` shapes generation with the daylight dome between sunrise and
//! sunset, a configurable peak power and seeded multiplicative noise.

use vstd::prelude::*;

verus! {

use crate::devices::types::{daylight_frac_ppm, daylight_frac_ppm_spec, DeviceContext};
use crate::numeric::{DAY_MILLI_HOURS, POWER_LIMIT, PPM};
use crate::rng::{noise_spec, noise_from_word, std_rng_word, SeededRng};

/// A solar PV system: peak power (milli-kW), a daylight window in step
/// indices, and a noise standard deviation in milli-fractions of the
/// clear-sky output.
pub struct SolarPv {
    /// Maximum power output in milli-kW under ideal conditions.
    pub kw_peak: i64,
    /// Number of time steps per simulated day.
    pub steps_per_day: usize,
    /// Time step index when sunrise occurs (inclusive).
    pub sunrise_idx: usize,
    /// Time step index when sunset occurs (exclusive).
    pub sunset_idx: usize,
    /// Noise standard deviation in milli-fractions of output (50 = 5%).
    pub noise_std: i64,
    /// Random word stream for noise generation.
    pub rng: SeededRng,
}

/// The generation (non-negative, milli-kW) of a solar array at `t` given
/// the noise word `w`: the clear-sky dome value times a noise multiplier
/// `1 + z`, floored at zero. At night (dome value zero) there is no
/// generation and no noise is drawn.
pub open spec fn solar_gen_spec(
    kw_peak: int,
    steps_per_day: int,
    sunrise: int,
    sunset: int,
    noise_std: int,
    t: int,
    w: u64,
) -> int {
    let frac = daylight_frac_ppm_spec(t, steps_per_day, sunrise, sunset);
    if frac <= 0 {
        0
    } else {
        let clear = kw_peak * frac / PPM as int;
        let mult = 1000 + noise_spec(w, noise_std);
        vstd::math::max(0, crate::numeric::div_trunc_spec(clear * mult, 1000))
    }
}

impl SolarPv {
    /// Parameter validity: a daylight window inside the day and the bounds
    /// that keep every product within `i64`.
    pub open spec fn wf(&self) -> bool {
        &&& 0 <= self.kw_peak <= POWER_LIMIT
        &&& 0 < self.steps_per_day <= DAY_MILLI_HOURS
        &&& self.sunrise_idx < self.sunset_idx <= self.steps_per_day
        &&& 0 <= self.noise_std <= 1000
    }

    /// Creates a new solar PV generator; a negative peak is raised to
    /// zero, and the noise deviation is clamped into the model's range of
    /// zero to one whole of the clear-sky output.
    pub fn new(
        kw_peak: i64,
        steps_per_day: usize,
        sunrise_idx: usize,
        sunset_idx: usize,
        noise_std: i64,
        seed: u64,
    ) -> (r: SolarPv)
        requires
            kw_peak <= POWER_LIMIT,
            0 < steps_per_day <= DAY_MILLI_HOURS,
            sunrise_idx < sunset_idx <= steps_per_day,
        ensures
            r.wf(),
            r.kw_peak == vstd::math::max(0, kw_peak as int),
            r.steps_per_day == steps_per_day,
            r.sunrise_idx == sunrise_idx,
            r.sunset_idx == sunset_idx,
            r.noise_std == crate::numeric::clamp_spec(noise_std as int, 0, 1000),
            r.rng.seed() == seed,
            r.rng.position() == 0,
    {
        SolarPv {
            kw_peak: if kw_peak < 0 {
                0
            } else {
                kw_peak
            },
            steps_per_day,
            sunrise_idx,
            sunset_idx,
            noise_std: crate::numeric::clamp_i64(noise_std, 0, 1000),
            rng: SeededRng::new(seed),
        }
    }

    /// The generation magnitude at `t` (non-negative): daylight dome times
    /// peak times a noise multiplier. Zero at night, and then no noise
    /// word is drawn.
    pub fn gen_kw(&mut self, timestep: usize) -> (r: i64)
        requires
            old(self).wf(),
            old(self).rng.position() < u64::MAX,
        ensures
            final(self).wf(),
            r == solar_gen_spec(
                old(self).kw_peak as int,
                old(self).steps_per_day as int,
                old(self).sunrise_idx as int,
                old(self).sunset_idx as int,
                old(self).noise_std as int,
                timestep as int,
                std_rng_word(old(self).rng.seed(), old(self).rng.position()),
            ),
            0 <= r <= 5 * POWER_LIMIT,
            final(self).rng.seed() == old(self).rng.seed(),
            final(self).rng.position() == if daylight_frac_ppm_spec(
                timestep as int,
                old(self).steps_per_day as int,
                old(self).sunrise_idx as int,
                old(self).sunset_idx as int,
            ) <= 0 {
                old(self).rng.position() as int
            } else {
                old(self).rng.position() + 1
            },
            final(self).kw_peak == old(self).kw_peak,
            final(self).steps_per_day == old(self).steps_per_day,
            final(self).sunrise_idx == old(self).sunrise_idx,
            final(self).sunset_idx == old(self).sunset_idx,
            final(self).noise_std == old(self).noise_std,
    {
        let frac = daylight_frac_ppm(timestep, self.steps_per_day, self.sunrise_idx,
            self.sunset_idx);
        if frac <= 0 {
            return 0;
        }
        let word = self.rng.next_word();
        let noise = noise_from_word(word, self.noise_std);
        proof {
            assert(0 <= self.kw_peak as int * frac as int
                && self.kw_peak as int * frac as int <= POWER_LIMIT as int * PPM as int)
                by (nonlinear_arith)
                requires
                    0 <= self.kw_peak as int,
                    (self.kw_peak as int) <= POWER_LIMIT as int,
                    0 <= frac as int,
                    (frac as int) <= PPM as int,
            ;
            crate::numeric::lemma_scaled_le(self.kw_peak as int, frac as int, PPM as int);
        }
        let clear = self.kw_peak * frac / PPM;
        let mult = 1000 + noise;
        proof {
            assert(-(POWER_LIMIT as int) * 5000 <= clear as int * mult as int
                && clear as int * mult as int <= POWER_LIMIT as int * 5000
                && (clear as int * mult as int >= 0 ==> clear as int * mult as int / 1000
                <= POWER_LIMIT as int * 5)) by (nonlinear_arith)
                requires
                    0 <= clear as int,
                    (clear as int) <= POWER_LIMIT as int,
                    -4000 <= mult as int,
                    (mult as int) <= 5000,
            ;
        }
        let kw = crate::numeric::div_trunc(clear * mult, 1000);
        if kw < 0 {
            0
        } else {
            kw
        }
    }

    /// The generation in feeder convention at `t`: minus `gen_kw`, so zero
    /// or negative, strictly negative whenever any power is generated.
    pub fn power_kw(&mut self, context: &DeviceContext) -> (r: i64)
        requires
            old(self).wf(),
            old(self).rng.position() < u64::MAX,
        ensures
            final(self).wf(),
            r == -solar_gen_spec(
                old(self).kw_peak as int,
                old(self).steps_per_day as int,
                old(self).sunrise_idx as int,
                old(self).sunset_idx as int,
                old(self).noise_std as int,
                context.timestep as int,
                std_rng_word(old(self).rng.seed(), old(self).rng.position()),
            ),
            -5 * POWER_LIMIT <= r <= 0,
            final(self).rng.seed() == old(self).rng.seed(),
            final(self).rng.position() == if daylight_frac_ppm_spec(
                context.timestep as int,
                old(self).steps_per_day as int,
                old(self).sunrise_idx as int,
                old(self).sunset_idx as int,
            ) <= 0 {
                old(self).rng.position() as int
            } else {
                old(self).rng.position() + 1
            },
            final(self).kw_peak == old(self).kw_peak,
            final(self).steps_per_day == old(self).steps_per_day,
            final(self).sunrise_idx == old(self).sunrise_idx,
            final(self).sunset_idx == old(self).sunset_idx,
            final(self).noise_std == old(self).noise_std,
    {
        let g = self.gen_kw(context.timestep);
        -g
    }

    /// A human-readable type name for the device.
    pub fn device_type(&self) -> (r: &'static str)
        ensures
            r@ == "SolarPV"@,
    {
        "SolarPV"
    }
}

} // verus!
