//! Solar PV model with temporally correlated cloud variability: a
//! first-order autoregressive multiplier on the clear-sky output.
//!
//! Unlike [`SolarPv`](super::solar::SolarPv), which applies independent
//! noise per timestep, `SolarPvAr1` evolves a cloud multiplier
//! `m(t) = alpha * m(t-1) + (1 - alpha) * eps(t)`, clamped to
//! `[0.2, 1.2]` of clear sky, every timestep regardless of daylight.
//!
//! # Power flow convention (feeder)
//! Returns non-positive values: generation reduces feeder load.

use vstd::prelude::*;

verus! {

use crate::devices::types::{daylight_frac_ppm, daylight_frac_ppm_spec, DeviceContext};
use crate::numeric::{
    clamp_spec,
    clamp_i64,
    div_trunc,
    div_trunc_spec,
    DAY_MILLI_HOURS,
    POWER_LIMIT,
    PPM,
};
use crate::rng::{noise_spec, noise_from_word, std_rng_word, SeededRng};

/// Minimum cloud multiplier in milli (heavy overcast).
pub const MULTIPLIER_MIN: i64 = 200;

/// Maximum cloud multiplier in milli (enhanced irradiance at cloud edges).
pub const MULTIPLIER_MAX: i64 = 1200;

/// A solar PV generator whose cloud cover follows an AR(1) process. The
/// multiplier and the AR coefficient are in milli (1000 = one).
pub struct SolarPvAr1 {
    /// Maximum power output in milli-kW under ideal conditions.
    pub kw_peak: i64,
    /// Number of time steps per simulated day.
    pub steps_per_day: usize,
    /// Time step index when sunrise occurs (inclusive).
    pub sunrise_idx: usize,
    /// Time step index when sunset occurs (exclusive).
    pub sunset_idx: usize,
    /// AR(1) correlation coefficient in milli (0 = uncorrelated, 1000 =
    /// fully persistent).
    pub alpha: i64,
    /// Standard deviation of the innovation noise in milli.
    pub cloud_noise_std: i64,
    /// Current cloud multiplier in milli, within the clamp bounds.
    pub multiplier: i64,
    /// Random word stream for noise generation.
    pub rng: SeededRng,
}

/// The cloud multiplier after one step: the AR(1) recurrence on the
/// previous multiplier and the innovation `eps`, clamped.
pub open spec fn ar1_next_multiplier_spec(alpha: int, m: int, eps: int) -> int {
    clamp_spec(
        div_trunc_spec(alpha * m + (1000 - alpha) * eps, 1000),
        MULTIPLIER_MIN as int,
        MULTIPLIER_MAX as int,
    )
}

/// The feeder-convention power of the AR(1) array at `t` once the
/// multiplier has advanced to `mult`: zero at night, otherwise minus the
/// clear-sky dome value scaled by the multiplier.
pub open spec fn ar1_power_spec(
    kw_peak: int,
    steps_per_day: int,
    sunrise: int,
    sunset: int,
    mult: int,
    t: int,
) -> int {
    let frac = daylight_frac_ppm_spec(t, steps_per_day, sunrise, sunset);
    if frac <= 0 {
        0
    } else {
        let clear = kw_peak * frac / PPM as int;
        -(clear * mult / 1000)
    }
}

impl SolarPvAr1 {
    /// Parameter validity: a daylight window inside the day, coefficient
    /// and noise in range, multiplier within its clamp bounds.
    pub open spec fn wf(&self) -> bool {
        &&& 0 <= self.kw_peak <= POWER_LIMIT
        &&& 0 < self.steps_per_day <= DAY_MILLI_HOURS
        &&& self.sunrise_idx < self.sunset_idx <= self.steps_per_day
        &&& 0 <= self.alpha <= 1000
        &&& 0 <= self.cloud_noise_std <= 1000
        &&& MULTIPLIER_MIN <= self.multiplier <= MULTIPLIER_MAX
    }

    /// Creates a new AR(1) solar generator with the multiplier at one; a
    /// negative peak is raised to zero, and the coefficient and the
    /// innovation deviation are clamped into the model's `[0, 1]` range.
    pub fn new(
        kw_peak: i64,
        sunrise_idx: usize,
        sunset_idx: usize,
        alpha: i64,
        cloud_noise_std: i64,
        steps_per_day: usize,
        seed: u64,
    ) -> (r: SolarPvAr1)
        requires
            kw_peak <= POWER_LIMIT,
            0 < steps_per_day <= DAY_MILLI_HOURS,
            sunrise_idx < sunset_idx <= steps_per_day,
        ensures
            r.wf(),
            r.kw_peak == vstd::math::max(0, kw_peak as int),
            r.steps_per_day == steps_per_day,
            r.sunrise_idx == sunrise_idx,
            r.sunset_idx == sunset_idx,
            r.alpha == clamp_spec(alpha as int, 0, 1000),
            r.cloud_noise_std == clamp_spec(cloud_noise_std as int, 0, 1000),
            r.multiplier == 1000,
            r.rng.seed() == seed,
            r.rng.position() == 0,
    {
        SolarPvAr1 {
            kw_peak: if kw_peak < 0 {
                0
            } else {
                kw_peak
            },
            steps_per_day,
            sunrise_idx,
            sunset_idx,
            alpha: clamp_i64(alpha, 0, 1000),
            cloud_noise_std: clamp_i64(cloud_noise_std, 0, 1000),
            multiplier: 1000,
            rng: SeededRng::new(seed),
        }
    }

    /// Advances the cloud multiplier by one step and returns it. One word
    /// is drawn from the stream on every call.
    fn advance_multiplier(&mut self) -> (r: i64)
        requires
            old(self).wf(),
            old(self).rng.position() < u64::MAX,
        ensures
            final(self).wf(),
            r == final(self).multiplier,
            final(self).multiplier == ar1_next_multiplier_spec(
                old(self).alpha as int,
                old(self).multiplier as int,
                noise_spec(
                    std_rng_word(old(self).rng.seed(), old(self).rng.position()),
                    old(self).cloud_noise_std as int,
                ),
            ),
            final(self).rng.seed() == old(self).rng.seed(),
            final(self).rng.position() == old(self).rng.position() + 1,
            final(self).kw_peak == old(self).kw_peak,
            final(self).steps_per_day == old(self).steps_per_day,
            final(self).sunrise_idx == old(self).sunrise_idx,
            final(self).sunset_idx == old(self).sunset_idx,
            final(self).alpha == old(self).alpha,
            final(self).cloud_noise_std == old(self).cloud_noise_std,
    {
        let word = self.rng.next_word();
        let epsilon = noise_from_word(word, self.cloud_noise_std);
        proof {
            assert(0 <= self.alpha as int * self.multiplier as int
                && self.alpha as int * self.multiplier as int <= 1200000
                && -4000000 <= (1000 - self.alpha as int) * epsilon as int
                && (1000 - self.alpha as int) * epsilon as int <= 4000000) by (nonlinear_arith)
                requires
                    0 <= self.alpha as int,
                    (self.alpha as int) <= 1000,
                    MULTIPLIER_MIN as int <= self.multiplier as int,
                    (self.multiplier as int) <= MULTIPLIER_MAX as int,
                    -4000 <= epsilon as int,
                    (epsilon as int) <= 4000,
            ;
        }
        let raw = div_trunc(self.alpha * self.multiplier + (1000 - self.alpha) * epsilon, 1000);
        self.multiplier = clamp_i64(raw, MULTIPLIER_MIN, MULTIPLIER_MAX);
        self.multiplier
    }

    /// The power at `t` in feeder convention: non-positive, strictly
    /// negative during daylight (strictly inside the window) whenever the
    /// peak is positive. The cloud multiplier advances every timestep,
    /// daylight or not, so one word is always drawn.
    pub fn power_kw(&mut self, context: &DeviceContext) -> (r: i64)
        requires
            old(self).wf(),
            old(self).rng.position() < u64::MAX,
        ensures
            final(self).wf(),
            r == ar1_power_spec(
                old(self).kw_peak as int,
                old(self).steps_per_day as int,
                old(self).sunrise_idx as int,
                old(self).sunset_idx as int,
                final(self).multiplier as int,
                context.timestep as int,
            ),
            final(self).multiplier == ar1_next_multiplier_spec(
                old(self).alpha as int,
                old(self).multiplier as int,
                noise_spec(
                    std_rng_word(old(self).rng.seed(), old(self).rng.position()),
                    old(self).cloud_noise_std as int,
                ),
            ),
            -2 * POWER_LIMIT <= r <= 0,
            final(self).rng.seed() == old(self).rng.seed(),
            final(self).rng.position() == old(self).rng.position() + 1,
            final(self).kw_peak == old(self).kw_peak,
            final(self).steps_per_day == old(self).steps_per_day,
            final(self).sunrise_idx == old(self).sunrise_idx,
            final(self).sunset_idx == old(self).sunset_idx,
            final(self).alpha == old(self).alpha,
            final(self).cloud_noise_std == old(self).cloud_noise_std,
    {
        let m = self.advance_multiplier();
        let frac = daylight_frac_ppm(context.timestep, self.steps_per_day, self.sunrise_idx,
            self.sunset_idx);
        if frac <= 0 {
            return 0;
        }
        proof {
            assert(0 <= self.kw_peak as int * frac as int
                && self.kw_peak as int * frac as int <= POWER_LIMIT as int * PPM as int)
                by (nonlinear_arith)
                requires
                    0 <= self.kw_peak as int,
                    (self.kw_peak as int) <= POWER_LIMIT as int,
                    0 <= frac as int,
                    (frac as int) <= PPM as int,
            ;
            crate::numeric::lemma_scaled_le(self.kw_peak as int, frac as int, PPM as int);
        }
        let clear = self.kw_peak * frac / PPM;
        proof {
            assert(0 <= clear as int * m as int && clear as int * m as int <= POWER_LIMIT as int
                * 1200 && clear as int * m as int / 1000 <= 2 * POWER_LIMIT as int)
                by (nonlinear_arith)
                requires
                    0 <= clear as int,
                    (clear as int) <= POWER_LIMIT as int,
                    MULTIPLIER_MIN as int <= m as int,
                    (m as int) <= MULTIPLIER_MAX as int,
            ;
        }
        -(clear * m / 1000)
    }

    /// A human-readable type name for the device.
    pub fn device_type(&self) -> (r: &'static str)
        ensures
            r@ == "SolarPV_ar1"@,
    {
        "SolarPV_ar1"
    }
}

/// Sign convention of the AR(1) solar model: its feeder power is never
/// positive, and it is strictly negative at any step strictly inside the
/// daylight window at which the clear-sky output (peak times dome
/// fraction) amounts to at least one milli-kW.
pub proof fn lemma_ar1_solar_sign(
    kw_peak: int,
    steps_per_day: int,
    sunrise: int,
    sunset: int,
    mult: int,
    t: int,
)
    requires
        0 < steps_per_day <= DAY_MILLI_HOURS,
        0 <= sunrise < sunset <= steps_per_day,
        0 <= kw_peak,
        MULTIPLIER_MIN <= mult <= MULTIPLIER_MAX,
    ensures
        ar1_power_spec(kw_peak, steps_per_day, sunrise, sunset, mult, t) <= 0,
        kw_peak * daylight_frac_ppm_spec(t, steps_per_day, sunrise, sunset) >= 5 * PPM
            ==> ar1_power_spec(kw_peak, steps_per_day, sunrise, sunset, mult, t) < 0,
{
    let frac = daylight_frac_ppm_spec(t, steps_per_day, sunrise, sunset);
    lemma_daylight_frac_range(t, steps_per_day, sunrise, sunset);
    if frac <= 0 {
        assert(kw_peak * frac <= 0) by (nonlinear_arith)
            requires
                0 <= kw_peak,
                frac <= 0,
        ;
    }
    let clear = kw_peak * frac / PPM as int;
    assert(0 <= clear && (kw_peak * frac >= 5 * PPM as int ==> clear >= 5)) by (nonlinear_arith)
        requires
            0 <= kw_peak,
            0 <= frac,
            clear == kw_peak * frac / PPM as int,
    ;
    assert(0 <= clear * mult / 1000 && (clear >= 5 ==> clear * mult / 1000 >= 1))
        by (nonlinear_arith)
        requires
            0 <= clear,
            MULTIPLIER_MIN as int <= mult <= MULTIPLIER_MAX as int,
    ;
}

/// The daylight dome fraction lies within `[0, 1]` of the whole.
pub proof fn lemma_daylight_frac_range(t: int, steps_per_day: int, sunrise: int, sunset: int)
    requires
        0 < steps_per_day <= DAY_MILLI_HOURS,
        0 <= sunrise < sunset <= steps_per_day,
    ensures
        0 <= daylight_frac_ppm_spec(t, steps_per_day, sunrise, sunset) <= PPM,
{
    let day_t = t % steps_per_day;
    vstd::arithmetic::div_mod::lemma_mod_bound(t, steps_per_day);
    if day_t < sunrise || day_t >= sunset {
    } else {
        let span = sunset - sunrise;
        let a = day_t - sunrise;
        assert(0 <= 4 * PPM * a * (span - a) / (span * span) <= PPM as int) by (nonlinear_arith)
            requires
                0 <= a < span,
                0 < span <= DAY_MILLI_HOURS as int,
        ;
    }
}

} // verus!
