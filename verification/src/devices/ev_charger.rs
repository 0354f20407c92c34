//! A flexible EV charging load with seeded daily arrivals.
//!
//! Each simulated day the charger samples one session — dwell, arrival
//! (which set the deadline) and required energy, drawn in that order —
//! from its word stream, lazily on the first call of the day. During an
//! active session the charging power is the smallest rate that meets the
//! remaining energy by the deadline, limited by the charger's maximum and
//! by the controller's cap.
//!
//! # Power flow convention (feeder)
//! Returns non-negative values (consumption, a load on the feeder).

use vstd::prelude::*;

verus! {

use crate::devices::types::DeviceContext;
use crate::numeric::{
    div_ceil,
    div_ceil_spec,
    min_i64,
    max_i64,
    DAY_MILLI_HOURS,
    POWER_LIMIT,
};
use crate::rng::{std_rng_word, uniform_in_spec, uniform_in, SeededRng};

/// One charging session: a half-open window of day steps and the energy
/// still owed (micro-kWh).
#[derive(Clone, Copy)]
pub struct EvSession {
    /// First step of the day (inclusive) at which the car is connected.
    pub arrival_step: usize,
    /// Step of the day (exclusive) by which charging must be done.
    pub deadline_step: usize,
    /// Remaining energy to deliver, in micro-kWh.
    pub remaining_kwh: i64,
}

/// The EV charger: rate limit, demand and dwell ranges, and the lazily
/// sampled session of the current day.
pub struct EvCharger {
    /// Maximum charging power in milli-kW (positive).
    pub max_charge_kw: i64,
    /// Number of simulation steps per day.
    pub steps_per_day: usize,
    /// Duration of one timestep in milli-hours.
    pub dt_mh: i64,
    /// Minimum daily charging demand in micro-kWh.
    pub demand_kwh_min: i64,
    /// Maximum daily charging demand in micro-kWh.
    pub demand_kwh_max: i64,
    /// Minimum connected duration in steps (positive).
    pub dwell_steps_min: usize,
    /// Maximum connected duration in steps.
    pub dwell_steps_max: usize,
    /// The day whose session has been sampled, if any.
    pub sampled_day: Option<usize>,
    /// The session of that day.
    pub session: Option<EvSession>,
    /// Random word stream for session sampling.
    pub rng: SeededRng,
}

/// The session that a charger with these parameters samples for a day,
/// from three consecutive stream words (dwell, then arrival, then raw
/// demand): the dwell is folded into its range clamped to the day, the
/// arrival leaves room for the dwell, and the demand is clamped by what
/// the rate limit can deliver over the dwell.
pub open spec fn session_spec(
    max_charge_kw: int,
    steps_per_day: int,
    dt_mh: int,
    demand_min: int,
    demand_max: int,
    dwell_min: int,
    dwell_max: int,
    w0: u64,
    w1: u64,
    w2: u64,
) -> EvSession {
    let hi = vstd::math::min(dwell_max, steps_per_day);
    let lo = vstd::math::min(dwell_min, hi);
    let dwell = uniform_in_spec(w0, lo as u64, hi as u64) as int;
    let latest_arrival = steps_per_day - dwell;
    let arrival = uniform_in_spec(w1, 0, latest_arrival as u64) as int;
    let deliverable = max_charge_kw * dt_mh * dwell;
    let raw_demand = uniform_in_spec(w2, demand_min as u64, demand_max as u64) as int;
    EvSession {
        arrival_step: arrival as usize,
        deadline_step: (arrival + dwell) as usize,
        remaining_kwh: vstd::math::min(raw_demand, deliverable) as i64,
    }
}

/// The unconstrained charging request of a session at day-step `day_t`:
/// zero outside the window or once nothing remains, otherwise the
/// smallest milli-kW rate that delivers the remainder by the deadline.
pub open spec fn requested_rate_spec(session: EvSession, dt_mh: int, day_t: int) -> int {
    if day_t < session.arrival_step as int || day_t >= session.deadline_step as int {
        0
    } else if session.remaining_kwh <= 0 {
        0
    } else {
        let remaining_steps = session.deadline_step as int - day_t;
        div_ceil_spec(session.remaining_kwh as int, remaining_steps * dt_mh)
    }
}

/// The cap a context hands the charger: its setpoint, or the charger's
/// own rate limit when it carries none.
pub open spec fn cap_or_spec(setpoint: Option<i64>, max_charge_kw: int) -> int {
    match setpoint {
        Some(c) => c as int,
        None => max_charge_kw,
    }
}

/// The power actually delivered for a request under a cap: zero when
/// nothing is requested, else the request limited by the non-negative cap
/// and by the rate limit.
pub open spec fn ev_actual_spec(rate: int, cap: int, max_charge_kw: int) -> int {
    if rate <= 0 {
        0
    } else {
        vstd::math::min(vstd::math::min(rate, vstd::math::max(0, cap)), max_charge_kw)
    }
}

/// A session within the day, owing a bounded non-negative energy.
pub open spec fn session_wf(session: EvSession, steps_per_day: int) -> bool {
    &&& session.arrival_step as int <= session.deadline_step as int <= steps_per_day
    &&& 0 <= session.remaining_kwh <= POWER_LIMIT
}

impl EvCharger {
    /// Parameter validity; the demand bound of `POWER_LIMIT` micro-kWh
    /// keeps the requested rate within the power bounds.
    pub open spec fn wf(&self) -> bool {
        &&& 0 < self.max_charge_kw <= POWER_LIMIT
        &&& 0 < self.steps_per_day <= DAY_MILLI_HOURS
        &&& self.dt_mh == DAY_MILLI_HOURS as int / self.steps_per_day as int
        &&& 1 <= self.dt_mh <= DAY_MILLI_HOURS
        &&& 0 <= self.demand_kwh_min <= self.demand_kwh_max <= POWER_LIMIT
        &&& 0 < self.dwell_steps_min <= self.dwell_steps_max
        &&& match self.session {
            Some(s) => session_wf(s, self.steps_per_day as int),
            None => true,
        }
        &&& self.sampled_day is Some ==> self.session is Some
    }

    /// The session this charger samples for the day of `t`: the one it
    /// already holds if that day was sampled, else a fresh draw from its
    /// stream.
    pub open spec fn session_for(&self, t: int) -> EvSession {
        if self.sampled_day == Some((t / self.steps_per_day as int) as usize) {
            self.session->Some_0
        } else {
            self.sampled_session_spec(self.rng.position())
        }
    }

    /// Whether the call at `t` is the first of its day, so that a session
    /// is sampled and three words drawn.
    pub open spec fn samples_at(&self, t: int) -> bool {
        self.sampled_day != Some((t / self.steps_per_day as int) as usize)
    }

    /// The session this charger would sample with its stream at `pos`.
    pub open spec fn sampled_session_spec(&self, pos: u64) -> EvSession {
        session_spec(
            self.max_charge_kw as int,
            self.steps_per_day as int,
            self.dt_mh as int,
            self.demand_kwh_min as int,
            self.demand_kwh_max as int,
            self.dwell_steps_min as int,
            self.dwell_steps_max as int,
            std_rng_word(self.rng.seed(), pos),
            std_rng_word(self.rng.seed(), (pos + 1) as u64),
            std_rng_word(self.rng.seed(), (pos + 2) as u64),
        )
    }

    /// All fields but the sampling state, unchanged by every step
    /// operation.
    pub open spec fn same_params(&self, other: &EvCharger) -> bool {
        &&& self.max_charge_kw == other.max_charge_kw
        &&& self.steps_per_day == other.steps_per_day
        &&& self.dt_mh == other.dt_mh
        &&& self.demand_kwh_min == other.demand_kwh_min
        &&& self.demand_kwh_max == other.demand_kwh_max
        &&& self.dwell_steps_min == other.dwell_steps_min
        &&& self.dwell_steps_max == other.dwell_steps_max
        &&& self.rng.seed() == other.rng.seed()
    }

    /// Creates a new EV charger with no session sampled yet.
    pub fn new(
        max_charge_kw: i64,
        demand_kwh_min: i64,
        demand_kwh_max: i64,
        dwell_steps_min: usize,
        dwell_steps_max: usize,
        steps_per_day: usize,
        seed: u64,
    ) -> (r: EvCharger)
        requires
            0 < max_charge_kw <= POWER_LIMIT,
            0 <= demand_kwh_min <= demand_kwh_max <= POWER_LIMIT,
            0 < dwell_steps_min <= dwell_steps_max,
            0 < steps_per_day <= DAY_MILLI_HOURS,
        ensures
            r.wf(),
            r.max_charge_kw == max_charge_kw,
            r.steps_per_day == steps_per_day,
            r.dt_mh == DAY_MILLI_HOURS as int / steps_per_day as int,
            r.demand_kwh_min == demand_kwh_min,
            r.demand_kwh_max == demand_kwh_max,
            r.dwell_steps_min == dwell_steps_min,
            r.dwell_steps_max == dwell_steps_max,
            r.sampled_day is None,
            r.session is None,
            r.rng.seed() == seed,
            r.rng.position() == 0,
    {
        proof {
            assert(1 <= DAY_MILLI_HOURS as int / steps_per_day as int
                && DAY_MILLI_HOURS as int / steps_per_day as int <= DAY_MILLI_HOURS as int)
                by (nonlinear_arith)
                requires
                    0 < steps_per_day as int,
                    (steps_per_day as int) <= DAY_MILLI_HOURS as int,
            ;
        }
        EvCharger {
            max_charge_kw,
            steps_per_day,
            dt_mh: DAY_MILLI_HOURS / (steps_per_day as i64),
            demand_kwh_min,
            demand_kwh_max,
            dwell_steps_min,
            dwell_steps_max,
            sampled_day: None,
            session: None,
            rng: SeededRng::new(seed),
        }
    }

    /// Draws the session for `day` from the next three stream words.
    fn sample_session_for_day(&mut self, day: usize)
        requires
            old(self).wf(),
            old(self).rng.position() + 3 <= u64::MAX,
        ensures
            final(self).wf(),
            final(self).sampled_day == Some(day),
            final(self).session == Some(
                old(self).sampled_session_spec(old(self).rng.position()),
            ),
            final(self).rng.position() == old(self).rng.position() + 3,
            final(self).same_params(old(self)),
    {
        let w0 = self.rng.next_word();
        let w1 = self.rng.next_word();
        let w2 = self.rng.next_word();

        let dwell_hi = min_usize(self.dwell_steps_max, self.steps_per_day);
        let dwell_lo = min_usize(self.dwell_steps_min, dwell_hi);
        let dwell = uniform_in(w0, dwell_lo as u64, dwell_hi as u64) as usize;

        let latest_arrival = self.steps_per_day - dwell;
        let arrival = uniform_in(w1, 0, latest_arrival as u64) as usize;
        let deadline = arrival + dwell;

        proof {
            assert(0 < self.max_charge_kw as int * self.dt_mh as int * dwell as int
                && self.max_charge_kw as int * self.dt_mh as int <= POWER_LIMIT as int
                * DAY_MILLI_HOURS as int && (self.max_charge_kw as int * self.dt_mh as int)
                * dwell as int <= POWER_LIMIT as int * DAY_MILLI_HOURS as int
                * DAY_MILLI_HOURS as int) by (nonlinear_arith)
                requires
                    0 < self.max_charge_kw as int <= POWER_LIMIT as int,
                    0 < self.dt_mh as int <= DAY_MILLI_HOURS as int,
                    0 < dwell as int <= DAY_MILLI_HOURS as int,
            ;
        }
        let max_deliverable = self.max_charge_kw * self.dt_mh * (dwell as i64);
        let raw_demand = uniform_in(w2, self.demand_kwh_min as u64,
            self.demand_kwh_max as u64) as i64;
        let demand = min_i64(raw_demand, max_deliverable);

        self.sampled_day = Some(day);
        self.session = Some(
            EvSession { arrival_step: arrival, deadline_step: deadline, remaining_kwh: demand },
        );
    }

    /// The unconstrained charging request at `t`, sampling the day's
    /// session first if this is the first call of the day.
    pub fn requested_power_kw(&mut self, context: &DeviceContext) -> (r: i64)
        requires
            old(self).wf(),
            old(self).samples_at(context.timestep as int) ==> old(self).rng.position() + 3
                <= u64::MAX,
        ensures
            final(self).wf(),
            final(self).same_params(old(self)),
            final(self).sampled_day == Some((context.timestep as int / old(self).steps_per_day
                as int) as usize),
            final(self).session == Some(old(self).session_for(context.timestep as int)),
            final(self).rng.position() == old(self).rng.position() + if old(self).samples_at(
                context.timestep as int,
            ) {
                3int
            } else {
                0int
            },
            r == requested_rate_spec(
                old(self).session_for(context.timestep as int),
                old(self).dt_mh as int,
                context.timestep as int % old(self).steps_per_day as int,
            ),
            0 <= r <= POWER_LIMIT,
    {
        let day = context.timestep / self.steps_per_day;
        let day_t = context.timestep % self.steps_per_day;

        let must_sample = match &self.sampled_day {
            Some(d) => *d != day,
            None => true,
        };
        if must_sample {
            self.sample_session_for_day(day);
        }

        match &self.session {
            Some(session) => {
                if day_t < session.arrival_step || day_t >= session.deadline_step {
                    return 0;
                }
                if session.remaining_kwh <= 0 {
                    return 0;
                }
                let remaining_steps = (session.deadline_step - day_t) as i64;
                proof {
                    assert(1 <= remaining_steps as int * self.dt_mh as int
                        && remaining_steps as int * self.dt_mh as int <= DAY_MILLI_HOURS as int
                        * DAY_MILLI_HOURS as int) by (nonlinear_arith)
                        requires
                            1 <= remaining_steps as int,
                            (remaining_steps as int) <= DAY_MILLI_HOURS as int,
                            1 <= self.dt_mh as int,
                            (self.dt_mh as int) <= DAY_MILLI_HOURS as int,
                    ;
                }
                let rate = div_ceil(session.remaining_kwh, remaining_steps * self.dt_mh);
                proof {
                    assert(div_ceil_spec(session.remaining_kwh as int, remaining_steps as int
                        * self.dt_mh as int) <= session.remaining_kwh as int)
                        by (nonlinear_arith)
                        requires
                            1 <= remaining_steps as int * self.dt_mh as int,
                            0 <= session.remaining_kwh as int,
                    ;
                }
                rate
            },
            None => 0,
        }
    }

    /// Actual charging power after applying the setpoint cap: the minimum
    /// of the request, the non-negative cap and the rate limit. The
    /// delivered energy comes off the remaining demand, floored at zero.
    pub fn power_kw(&mut self, context: &DeviceContext) -> (r: i64)
        requires
            old(self).wf(),
            old(self).samples_at(context.timestep as int) ==> old(self).rng.position() + 3
                <= u64::MAX,
        ensures
            final(self).wf(),
            final(self).same_params(old(self)),
            r == ev_actual_spec(
                requested_rate_spec(
                    old(self).session_for(context.timestep as int),
                    old(self).dt_mh as int,
                    context.timestep as int % old(self).steps_per_day as int,
                ),
                cap_or_spec(context.setpoint_kw, old(self).max_charge_kw as int),
                old(self).max_charge_kw as int,
            ),
            0 <= r <= vstd::math::min(
                vstd::math::max(0, cap_or_spec(context.setpoint_kw, old(self).max_charge_kw
                    as int)),
                old(self).max_charge_kw as int,
            ),
            final(self).sampled_day == Some((context.timestep as int / old(self).steps_per_day
                as int) as usize),
            final(self).session == Some(
                EvSession {
                    arrival_step: old(self).session_for(context.timestep as int).arrival_step,
                    deadline_step: old(self).session_for(context.timestep as int).deadline_step,
                    remaining_kwh: vstd::math::max(
                        0,
                        old(self).session_for(context.timestep as int).remaining_kwh
                            - r * old(self).dt_mh,
                    ) as i64,
                },
            ),
            final(self).rng.position() == old(self).rng.position() + if old(self).samples_at(
                context.timestep as int,
            ) {
                3int
            } else {
                0int
            },
    {
        let requested_kw = self.requested_power_kw(context);

        let cap_raw: i64 = match context.setpoint_kw {
            Some(c) => c,
            None => self.max_charge_kw,
        };
        let cap_kw = max_i64(cap_raw, 0);
        let charge_kw = if requested_kw <= 0 {
            0
        } else {
            min_i64(min_i64(requested_kw, cap_kw), self.max_charge_kw)
        };

        let (arr, dl, rem) = match &self.session {
            Some(s) => (s.arrival_step, s.deadline_step, s.remaining_kwh),
            None => {
                return 0;
            },
        };
        proof {
            assert(0 <= charge_kw as int * self.dt_mh as int
                && charge_kw as int * self.dt_mh as int <= POWER_LIMIT as int
                * DAY_MILLI_HOURS as int) by (nonlinear_arith)
                requires
                    0 <= charge_kw as int,
                    (charge_kw as int) <= POWER_LIMIT as int,
                    0 < self.dt_mh as int,
                    (self.dt_mh as int) <= DAY_MILLI_HOURS as int,
            ;
        }
        let delivered = charge_kw * self.dt_mh;
        let remaining = max_i64(rem - delivered, 0);
        self.session = Some(
            EvSession { arrival_step: arr, deadline_step: dl, remaining_kwh: remaining },
        );
        charge_kw
    }

    /// A human-readable type name for the device.
    pub fn device_type(&self) -> (r: &'static str)
        ensures
            r@ == "EvCharger"@,
    {
        "EvCharger"
    }
}

/// Smaller of two sizes.
fn min_usize(a: usize, b: usize) -> (r: usize)
    ensures
        r == vstd::math::min(a as int, b as int),
{
    if a <= b {
        a
    } else {
        b
    }
}

/// The grid energy an uncapped charger delivers over the rest of a
/// session: at each of the `k` remaining steps it charges at the
/// requested deadline rate, limited only by its own maximum.
pub open spec fn ev_uncapped_total(rem: int, k: int, dt_mh: int, max_charge_kw: int) -> int
    decreases k,
{
    if k <= 0 || rem <= 0 {
        0
    } else {
        let rate = vstd::math::min(div_ceil_spec(rem, k * dt_mh), max_charge_kw);
        let delivered = rate * dt_mh;
        delivered + ev_uncapped_total(
            vstd::math::max(0, rem - delivered),
            k - 1,
            dt_mh,
            max_charge_kw,
        )
    }
}

/// A session the rate limit can meet is met: charging at the requested
/// rate for the `k` steps before the deadline delivers the whole
/// remaining demand, overshooting it by less than one step's quantum, and
/// delivers nothing once nothing is owed.
pub proof fn lemma_ev_feasible_session_completes(rem: int, k: int, dt_mh: int, max_charge_kw: int)
    requires
        1 <= dt_mh,
        0 < max_charge_kw,
        0 <= k,
        0 <= rem <= max_charge_kw * dt_mh * k,
    ensures
        rem <= ev_uncapped_total(rem, k, dt_mh, max_charge_kw),
        rem > 0 ==> ev_uncapped_total(rem, k, dt_mh, max_charge_kw) < rem + dt_mh,
        rem == 0 ==> ev_uncapped_total(rem, k, dt_mh, max_charge_kw) == 0,
    decreases k,
{
    if k <= 0 {
        assert(max_charge_kw * dt_mh * 0 == 0) by (nonlinear_arith);
    } else if rem <= 0 {
    } else {
        let ceil_rate = div_ceil_spec(rem, k * dt_mh);
        assert(1 <= k * dt_mh && ceil_rate <= max_charge_kw && 1 <= ceil_rate && (ceil_rate - 1)
            * (k * dt_mh) < rem && ceil_rate * (k * dt_mh) >= rem) by (nonlinear_arith)
            requires
                ceil_rate == (rem + k * dt_mh - 1) / (k * dt_mh),
                0 < rem <= max_charge_kw * dt_mh * k,
                1 <= dt_mh,
                0 < max_charge_kw,
                1 <= k,
        ;
        let rate = vstd::math::min(ceil_rate, max_charge_kw);
        assert(rate == ceil_rate);
        let delivered = rate * dt_mh;
        assert(delivered >= 1) by (nonlinear_arith)
            requires
                delivered == rate * dt_mh,
                rate >= 1,
                dt_mh >= 1,
        ;
        if delivered >= rem {
            assert(ev_uncapped_total(0, k - 1, dt_mh, max_charge_kw) == 0);
            assert(vstd::math::max(0, rem - delivered) == 0);
            assert(delivered < rem + dt_mh) by (nonlinear_arith)
                requires
                    delivered == ceil_rate * dt_mh,
                    (ceil_rate - 1) * (k * dt_mh) < rem,
                    1 <= k,
                    1 <= dt_mh,
                    ceil_rate >= 1,
            ;
        } else {
            let rem2 = rem - delivered;
            assert(vstd::math::max(0, rem - delivered) == rem2);
            assert(0 <= rem2 <= max_charge_kw * dt_mh * (k - 1)) by (nonlinear_arith)
                requires
                    rem2 == rem - ceil_rate * dt_mh,
                    rem2 > 0,
                    ceil_rate * (k * dt_mh) >= rem,
                    rem <= max_charge_kw * dt_mh * k,
                    ceil_rate <= max_charge_kw,
                    1 <= k,
                    1 <= dt_mh,
                    delivered == ceil_rate * dt_mh,
            ;
            lemma_ev_feasible_session_completes(rem2, k - 1, dt_mh, max_charge_kw);
        }
    }
}

/// The sampler never owes more than the session can take: the sampled
/// remaining energy is deliverable at the rate limit over the session
/// window.
pub proof fn lemma_session_feasible(
    max_charge_kw: int,
    steps_per_day: int,
    dt_mh: int,
    demand_min: int,
    demand_max: int,
    dwell_min: int,
    dwell_max: int,
    w0: u64,
    w1: u64,
    w2: u64,
)
    requires
        0 < max_charge_kw <= POWER_LIMIT,
        0 < steps_per_day <= DAY_MILLI_HOURS,
        1 <= dt_mh <= DAY_MILLI_HOURS,
        0 <= demand_min <= demand_max <= POWER_LIMIT,
        0 < dwell_min <= dwell_max,
    ensures
        ({
            let session = session_spec(
                max_charge_kw,
                steps_per_day,
                dt_mh,
                demand_min,
                demand_max,
                dwell_min,
                dwell_max,
                w0,
                w1,
                w2,
            );
            &&& session.remaining_kwh as int <= max_charge_kw * dt_mh * (
            session.deadline_step as int - session.arrival_step as int)
            &&& 0 <= session.remaining_kwh
            &&& session.arrival_step <= session.deadline_step
        }),
{
    let hi = vstd::math::min(dwell_max, steps_per_day);
    let lo = vstd::math::min(dwell_min, hi);
    let dwell_w = crate::rng::uniform_in_spec(w0, lo as u64, hi as u64);
    vstd::arithmetic::div_mod::lemma_mod_bound(w0 as int, (hi as u64 - lo as u64 + 1) as int);
    assert(lo <= dwell_w as int <= hi);
    let dwell = dwell_w as int;
    let latest_arrival = steps_per_day - dwell;
    let arrival_w = crate::rng::uniform_in_spec(w1, 0, latest_arrival as u64);
    vstd::arithmetic::div_mod::lemma_mod_bound(w1 as int, (latest_arrival as u64 + 1) as int);
    assert(0 <= arrival_w as int <= latest_arrival);
    let arrival = arrival_w as int;
    let deliverable = max_charge_kw * dt_mh * dwell;
    assert(0 < deliverable <= POWER_LIMIT as int * DAY_MILLI_HOURS as int
        * DAY_MILLI_HOURS as int) by (nonlinear_arith)
        requires
            deliverable == max_charge_kw * dt_mh * dwell,
            0 < max_charge_kw <= POWER_LIMIT as int,
            1 <= dt_mh <= DAY_MILLI_HOURS as int,
            1 <= dwell <= DAY_MILLI_HOURS as int,
    ;
    let raw_w = crate::rng::uniform_in_spec(w2, demand_min as u64, demand_max as u64);
    vstd::arithmetic::div_mod::lemma_mod_bound(
        w2 as int,
        (demand_max as u64 - demand_min as u64 + 1) as int,
    );
    assert(demand_min <= raw_w as int <= demand_max);
    let session = session_spec(
        max_charge_kw,
        steps_per_day,
        dt_mh,
        demand_min,
        demand_max,
        dwell_min,
        dwell_max,
        w0,
        w1,
        w2,
    );
    assert(session.arrival_step as int == arrival);
    assert(session.deadline_step as int == arrival + dwell);
    assert(session.remaining_kwh as int == vstd::math::min(raw_w as int, deliverable));
}

} // verus!
