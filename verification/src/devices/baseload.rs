//! A baseload generator that models daily electricity consumption patterns.
//!
//! `BaseLoad` yields a periodic daily demand wave with configurable
//! baseline, amplitude, phase and seeded noise. Demand is never negative.

use vstd::prelude::*;

verus! {

use crate::devices::types::DeviceContext;
use crate::numeric::{div_trunc, div_trunc_spec, DAY_MILLI_HOURS, POWER_LIMIT};
use crate::rng::{noise_spec, noise_from_word, std_rng_word, SeededRng};

/// The periodic daily wave in milli-units: a piecewise-quadratic
/// approximation of a sine over one cycle of 1000 milli-cycles, zero at 0
/// and 500, peaking at +1000 near a quarter cycle and at -1000 near three
/// quarters.
pub open spec fn wave_milli_spec(pos: int) -> int
    recommends
        0 <= pos < 1000,
{
    if pos < 500 {
        pos * (500 - pos) * 1000 / 62500
    } else {
        -((pos - 500) * (1000 - pos) * 1000 / 62500)
    }
}

/// The daily wave value, in `[-1000, 1000]`, at `pos` milli-cycles.
pub fn wave_milli(pos: i64) -> (r: i64)
    requires
        0 <= pos < 1000,
    ensures
        r == wave_milli_spec(pos as int),
        -1000 <= r <= 1000,
{
    proof {
        let p = pos as int;
        assert((p < 500 ==> 0 <= p * (500 - p) * 1000 / 62500 <= 1000) && (p >= 500 ==> 0 <= (p
            - 500) * (1000 - p) * 1000 / 62500 <= 1000)) by (nonlinear_arith)
            requires
                0 <= p < 1000,
        ;
        assert((p < 500 ==> 0 <= p * (500 - p) * 1000 <= 62500000000int) && (p >= 500 ==> 0 <= (p
            - 500) * (1000 - p) * 1000 <= 62500000000int)) by (nonlinear_arith)
            requires
                0 <= p < 1000,
        ;
    }
    if pos < 500 {
        pos * (500 - pos) * 1000 / 62500
    } else {
        -((pos - 500) * (1000 - pos) * 1000 / 62500)
    }
}

/// A baseload: baseline plus a daily wave plus seeded noise, floored at
/// zero. All powers in milli-kW; the phase in milli-cycles of the day.
pub struct BaseLoad {
    /// Baseline power consumption in milli-kW.
    pub base_kw: i64,
    /// Amplitude of the daily wave in milli-kW.
    pub amp_kw: i64,
    /// Phase offset of the wave in milli-cycles of one day, in `[0, 1000)`.
    pub phase_milli: i64,
    /// Standard deviation of the noise in milli-kW.
    pub noise_std: i64,
    /// Number of time steps per simulated day.
    pub steps_per_day: usize,
    /// Random word stream for noise generation.
    pub rng: SeededRng,
}

/// The demand of a baseload with the given parameters at timestep `t`,
/// with `w` the noise word drawn there.
pub open spec fn baseload_power_spec(
    base_kw: int,
    amp_kw: int,
    phase_milli: int,
    noise_std: int,
    steps_per_day: int,
    t: int,
    w: u64,
) -> int {
    let pos = ((t % steps_per_day) * 1000 / steps_per_day + phase_milli) % 1000;
    let wave = wave_milli_spec(pos);
    let noise = noise_spec(w, noise_std);
    vstd::math::max(0, base_kw + div_trunc_spec(amp_kw * wave, 1000) + noise)
}

impl BaseLoad {
    /// Parameter bounds that keep every product within `i64`.
    pub open spec fn wf(&self) -> bool {
        &&& -POWER_LIMIT <= self.base_kw <= POWER_LIMIT
        &&& -POWER_LIMIT <= self.amp_kw <= POWER_LIMIT
        &&& 0 <= self.phase_milli < 1000
        &&& 0 <= self.noise_std <= POWER_LIMIT
        &&& 0 < self.steps_per_day <= DAY_MILLI_HOURS
    }

    /// Creates a new baseload generator; a zero `steps_per_day` is raised
    /// to one.
    pub fn new(
        base_kw: i64,
        amp_kw: i64,
        phase_milli: i64,
        noise_std: i64,
        steps_per_day: usize,
        seed: u64,
    ) -> (r: BaseLoad)
        requires
            -POWER_LIMIT <= base_kw <= POWER_LIMIT,
            -POWER_LIMIT <= amp_kw <= POWER_LIMIT,
            0 <= phase_milli < 1000,
            0 <= noise_std <= POWER_LIMIT,
            steps_per_day <= DAY_MILLI_HOURS,
        ensures
            r.wf(),
            r.base_kw == base_kw,
            r.amp_kw == amp_kw,
            r.phase_milli == phase_milli,
            r.noise_std == noise_std,
            r.steps_per_day == vstd::math::max(1, steps_per_day as int),
            r.rng.seed() == seed,
            r.rng.position() == 0,
    {
        let steps = if steps_per_day < 1 {
            1
        } else {
            steps_per_day
        };
        BaseLoad {
            base_kw,
            amp_kw,
            phase_milli,
            noise_std,
            steps_per_day: steps,
            rng: SeededRng::new(seed),
        }
    }

    /// The demand at timestep `t`: baseline plus wave plus one noise draw,
    /// floored at zero.
    pub fn power_kw(&mut self, context: &DeviceContext) -> (r: i64)
        requires
            old(self).wf(),
            old(self).rng.position() < u64::MAX,
        ensures
            final(self).wf(),
            r == baseload_power_spec(
                old(self).base_kw as int,
                old(self).amp_kw as int,
                old(self).phase_milli as int,
                old(self).noise_std as int,
                old(self).steps_per_day as int,
                context.timestep as int,
                std_rng_word(old(self).rng.seed(), old(self).rng.position()),
            ),
            0 <= r <= 6 * POWER_LIMIT,
            final(self).rng.seed() == old(self).rng.seed(),
            final(self).rng.position() == old(self).rng.position() + 1,
            final(self).base_kw == old(self).base_kw,
            final(self).amp_kw == old(self).amp_kw,
            final(self).phase_milli == old(self).phase_milli,
            final(self).noise_std == old(self).noise_std,
            final(self).steps_per_day == old(self).steps_per_day,
    {
        let day_t = context.timestep % self.steps_per_day;
        proof {
            assert((day_t as int) * 1000 / (self.steps_per_day as int) < 1000) by (nonlinear_arith)
                requires
                    0 <= day_t as int,
                    (day_t as int) < self.steps_per_day as int,
                    0 < self.steps_per_day as int,
                    (self.steps_per_day as int) <= DAY_MILLI_HOURS as int,
            ;
            assert((day_t as int) * 1000 / (self.steps_per_day as int) >= 0) by (nonlinear_arith)
                requires
                    0 <= day_t as int,
                    0 < self.steps_per_day as int,
            ;
        }
        let pos = ((day_t as i64) * 1000 / (self.steps_per_day as i64) + self.phase_milli) % 1000;
        proof {
            let t = context.timestep as int;
            let sp = old(self).steps_per_day as int;
            assert(day_t as int == t % sp);
            assert(pos as int == ((t % sp) * 1000 / sp + old(self).phase_milli as int) % 1000);
            assert(0 <= pos < 1000);
        }
        let wave = wave_milli(pos);
        let word = self.rng.next_word();
        let noise = noise_from_word(word, self.noise_std);
        proof {
            assert(-(POWER_LIMIT as int) * 1000 <= self.amp_kw as int * wave as int
                && self.amp_kw as int * wave as int <= POWER_LIMIT as int * 1000)
                by (nonlinear_arith)
                requires
                    -(POWER_LIMIT as int) <= self.amp_kw as int,
                    (self.amp_kw as int) <= POWER_LIMIT as int,
                    -1000 <= wave as int,
                    (wave as int) <= 1000,
            ;
        }
        let kw = self.base_kw + div_trunc(self.amp_kw * wave, 1000) + noise;
        if kw < 0 {
            0
        } else {
            kw
        }
    }

    /// A human-readable type name for the device.
    pub fn device_type(&self) -> (r: &'static str)
        ensures
            r@ == "BaseLoad"@,
    {
        "BaseLoad"
    }
}

} // verus!
