//! Post-hoc KPI computation from simulation results.

use vstd::prelude::*;

verus! {

use crate::numeric::{
    isqrt_spec,
    isqrt_u64,
    DAY_MILLI_HOURS,
    ENERGY_LIMIT,
    FLOW_LIMIT,
    POWER_LIMIT,
    PPM,
};
use crate::sim::types::{step_record_bounded, StepResult};

/// Aggregate key performance indicators derived from a complete run.
/// Powers in milli-kW, energies in micro-kWh, the curtailment in
/// milli-percent, the cycle count in milli-cycles, the cost in micro-units
/// of currency.
#[derive(Clone, Copy, Debug, PartialEq, Eq, Structural)]
pub struct KpiReport {
    /// Root-mean-square tracking error (milli-kW, rounded down).
    pub rmse_tracking_kw: i64,
    /// Mean absolute tracking error (milli-kW, rounded down).
    pub mae_tracking_kw: i64,
    /// Share of the requested DR curtailment achieved (milli-percent).
    pub curtailment_pct: i64,
    /// Peak feeder import power (milli-kW, at least zero).
    pub peak_import_kw: i64,
    /// Peak feeder export power (milli-kW magnitude, at least zero).
    pub peak_export_kw: i64,
    /// Total battery energy throughput (micro-kWh).
    pub battery_throughput_kwh: i128,
    /// Battery equivalent full cycles (milli-cycles).
    pub battery_equivalent_full_cycles: i128,
    /// Number of timesteps where feeder limits were violated.
    pub feeder_violation_count: usize,
    /// Total imbalance settlement cost (micro-units of currency).
    pub total_imbalance_cost: i128,
}

/// Sum of squared tracking errors.
pub open spec fn sq_err_sum(s: Seq<StepResult>) -> int
    decreases s.len(),
{
    if s.len() == 0 {
        0
    } else {
        sq_err_sum(s.drop_last()) + s.last().tracking_error_kw * s.last().tracking_error_kw
    }
}

/// Sum of absolute tracking errors.
pub open spec fn abs_err_sum(s: Seq<StepResult>) -> int
    decreases s.len(),
{
    if s.len() == 0 {
        0
    } else {
        abs_err_sum(s.drop_last()) + vstd::math::abs(s.last().tracking_error_kw as int)
    }
}

/// Sum of requested DR reductions.
pub open spec fn dr_requested_sum(s: Seq<StepResult>) -> int
    decreases s.len(),
{
    if s.len() == 0 {
        0
    } else {
        dr_requested_sum(s.drop_last()) + s.last().dr_requested_kw
    }
}

/// Sum of achieved DR reductions.
pub open spec fn dr_achieved_sum(s: Seq<StepResult>) -> int
    decreases s.len(),
{
    if s.len() == 0 {
        0
    } else {
        dr_achieved_sum(s.drop_last()) + s.last().dr_achieved_kw
    }
}

/// Largest feeder net load seen, floored at zero.
pub open spec fn peak_import_spec(s: Seq<StepResult>) -> int
    decreases s.len(),
{
    if s.len() == 0 {
        0
    } else {
        vstd::math::max(peak_import_spec(s.drop_last()), s.last().feeder_kw as int)
    }
}

/// Largest feeder export magnitude seen, floored at zero.
pub open spec fn peak_export_spec(s: Seq<StepResult>) -> int
    decreases s.len(),
{
    if s.len() == 0 {
        0
    } else {
        vstd::math::max(peak_export_spec(s.drop_last()), -s.last().feeder_kw as int)
    }
}

/// Total battery throughput: the absolute battery energy moved.
pub open spec fn throughput_sum(s: Seq<StepResult>, dt_mh: int) -> int
    decreases s.len(),
{
    if s.len() == 0 {
        0
    } else {
        throughput_sum(s.drop_last(), dt_mh) + vstd::math::abs(s.last().battery_actual_kw as int)
            * dt_mh
    }
}

/// Number of steps whose feeder net load violated the limits.
pub open spec fn violation_count_spec(s: Seq<StepResult>) -> int
    decreases s.len(),
{
    if s.len() == 0 {
        0
    } else {
        violation_count_spec(s.drop_last()) + if s.last().within_feeder_limits {
            0int
        } else {
            1int
        }
    }
}

/// Total imbalance settlement cost.
pub open spec fn imbalance_cost_sum(s: Seq<StepResult>) -> int
    decreases s.len(),
{
    if s.len() == 0 {
        0
    } else {
        imbalance_cost_sum(s.drop_last()) + s.last().imbalance_cost
    }
}

/// The report computed from a record sequence: averages rounded down, the
/// curtailment share zero when nothing was requested, cycles zero for a
/// non-positive capacity. An empty sequence yields all zeros.
pub open spec fn kpi_spec(s: Seq<StepResult>, dt_mh: int, battery_capacity_kwh: int) -> KpiReport {
    if s.len() == 0 {
        KpiReport {
            rmse_tracking_kw: 0,
            mae_tracking_kw: 0,
            curtailment_pct: 0,
            peak_import_kw: 0,
            peak_export_kw: 0,
            battery_throughput_kwh: 0,
            battery_equivalent_full_cycles: 0,
            feeder_violation_count: 0,
            total_imbalance_cost: 0,
        }
    } else {
        let n = s.len() as int;
        let throughput = throughput_sum(s, dt_mh);
        KpiReport {
            rmse_tracking_kw: isqrt_spec((sq_err_sum(s) / n) as nat) as i64,
            mae_tracking_kw: (abs_err_sum(s) / n) as i64,
            curtailment_pct: if dr_requested_sum(s) > 0 {
                (100_000 * dr_achieved_sum(s) / dr_requested_sum(s)) as i64
            } else {
                0
            },
            peak_import_kw: peak_import_spec(s) as i64,
            peak_export_kw: peak_export_spec(s) as i64,
            battery_throughput_kwh: throughput as i128,
            battery_equivalent_full_cycles: if battery_capacity_kwh > 0 {
                (throughput * 1000 / (2 * battery_capacity_kwh)) as i128
            } else {
                0
            },
            feeder_violation_count: violation_count_spec(s) as usize,
            total_imbalance_cost: imbalance_cost_sum(s) as i128,
        }
    }
}

impl KpiReport {
    /// Computes all KPIs from the complete step record vector.
    pub fn from_results(results: &Vec<StepResult>, dt_mh: i64, battery_capacity_kwh: i64) -> (r:
        KpiReport)
        requires
            forall|i: int| 0 <= i < results@.len() ==> step_record_bounded(#[trigger] results@[i]),
            results@.len() <= DAY_MILLI_HOURS * 100_000,
            1 <= dt_mh <= DAY_MILLI_HOURS,
            0 <= battery_capacity_kwh <= ENERGY_LIMIT,
        ensures
            r == kpi_spec(results@, dt_mh as int, battery_capacity_kwh as int),
    {
        if results.len() == 0 {
            return KpiReport {
                rmse_tracking_kw: 0,
                mae_tracking_kw: 0,
                curtailment_pct: 0,
                peak_import_kw: 0,
                peak_export_kw: 0,
                battery_throughput_kwh: 0,
                battery_equivalent_full_cycles: 0,
                feeder_violation_count: 0,
                total_imbalance_cost: 0,
            };
        }

        let ghost s = results@;
        let n = results.len();
        let mut sq_sum: i128 = 0;
        let mut abs_sum: i128 = 0;
        let mut dr_req_sum: i128 = 0;
        let mut dr_ach_sum: i128 = 0;
        let mut peak_import: i64 = 0;
        let mut peak_export: i64 = 0;
        let mut throughput: i128 = 0;
        let mut violations: usize = 0;
        let mut cost_sum: i128 = 0;

        let mut i: usize = 0;
        while i < n
            invariant
                0 <= i <= n,
                n == s.len(),
                n <= DAY_MILLI_HOURS * 100_000,
                results@ == s,
                forall|j: int| 0 <= j < s.len() ==> step_record_bounded(#[trigger] s[j]),
                1 <= dt_mh <= DAY_MILLI_HOURS,
                sq_sum == sq_err_sum(s.take(i as int)),
                abs_sum == abs_err_sum(s.take(i as int)),
                dr_req_sum == dr_requested_sum(s.take(i as int)),
                dr_ach_sum == dr_achieved_sum(s.take(i as int)),
                peak_import == peak_import_spec(s.take(i as int)),
                peak_export == peak_export_spec(s.take(i as int)),
                throughput == throughput_sum(s.take(i as int), dt_mh as int),
                violations == violation_count_spec(s.take(i as int)),
                cost_sum == imbalance_cost_sum(s.take(i as int)),
                0 <= sq_sum <= (i as int) * (9_000_000_000_000_000_000int),
                0 <= abs_sum <= (i as int) * (3 * FLOW_LIMIT as int),
                0 <= dr_req_sum <= (i as int) * (FLOW_LIMIT as int),
                0 <= dr_ach_sum <= dr_req_sum,
                0 <= peak_import <= 3 * FLOW_LIMIT,
                0 <= peak_export <= 3 * FLOW_LIMIT,
                0 <= throughput <= (i as int) * (POWER_LIMIT as int * DAY_MILLI_HOURS as int),
                violations <= i,
                0 <= cost_sum <= (i as int) * (100_000_000_000_000_000int),
            decreases n - i,
        {
            let r = results[i];
            proof {
                assert(s.take(i as int + 1).drop_last() =~= s.take(i as int));
                assert(s.take(i as int + 1).last() == s[i as int]);
                lemma_kpi_accumulate(
                    i as int,
                    r.tracking_error_kw as int,
                    r.battery_actual_kw as int,
                    dt_mh as int,
                );
                let err = r.tracking_error_kw as int;
                lemma_sum_step(sq_sum as int, err * err, i as int,
                    9_000_000_000_000_000_000int, DAY_MILLI_HOURS as int * 100_000);
                assert(vstd::math::abs(err) as int <= 3 * FLOW_LIMIT as int);
                lemma_sum_step(abs_sum as int, vstd::math::abs(err) as int, i as int, 3
                    * FLOW_LIMIT as int, DAY_MILLI_HOURS as int * 100_000);
                assert(abs_sum as int + vstd::math::abs(err) as int <= (i as int + 1) * (3
                    * FLOW_LIMIT as int));
                lemma_sum_step(dr_req_sum as int, r.dr_requested_kw as int, i as int,
                    FLOW_LIMIT as int, DAY_MILLI_HOURS as int * 100_000);
                lemma_sum_step(throughput as int, vstd::math::abs(r.battery_actual_kw as int)
                    as int * (dt_mh as int), i as int, POWER_LIMIT as int
                    * DAY_MILLI_HOURS as int, DAY_MILLI_HOURS as int * 100_000);
                lemma_sum_step(cost_sum as int, r.imbalance_cost as int, i as int,
                    100_000_000_000_000_000int, DAY_MILLI_HOURS as int * 100_000);
            }
            let err = r.tracking_error_kw;
            let err_abs = if err < 0 {
                -err
            } else {
                err
            };
            proof {
                assert(err_abs as int == vstd::math::abs(err as int) as int);
                assert(err_abs as int == vstd::math::abs(r.tracking_error_kw as int) as int);
                assert(0 <= abs_sum as int + err_abs as int
                    <= 10_000_000_000_000_000_000_000int) by (nonlinear_arith)
                    requires
                        0 <= abs_sum as int,
                        (abs_sum as int) <= (i as int) * (3 * FLOW_LIMIT as int),
                        0 <= i as int,
                        (i as int) <= DAY_MILLI_HOURS as int * 100_000,
                        0 <= err_abs as int,
                        (err_abs as int) <= 3 * FLOW_LIMIT as int,
                ;
            }
            sq_sum = sq_sum + (err as i128) * (err as i128);
            abs_sum = abs_sum + (err_abs as i128);
            dr_req_sum = dr_req_sum + (r.dr_requested_kw as i128);
            dr_ach_sum = dr_ach_sum + (r.dr_achieved_kw as i128);
            if r.feeder_kw > peak_import {
                peak_import = r.feeder_kw;
            }
            if -r.feeder_kw > peak_export {
                peak_export = -r.feeder_kw;
            }
            let bat_abs = if r.battery_actual_kw < 0 {
                -r.battery_actual_kw
            } else {
                r.battery_actual_kw
            };
            throughput = throughput + (bat_abs as i128) * (dt_mh as i128);
            if !r.within_feeder_limits {
                violations = violations + 1;
            }
            cost_sum = cost_sum + (r.imbalance_cost as i128);
            i = i + 1;
        }
        proof {
            assert(s.take(n as int) =~= s);
            lemma_kpi_averages(
                sq_sum as int,
                abs_sum as int,
                dr_req_sum as int,
                dr_ach_sum as int,
                throughput as int,
                n as int,
                battery_capacity_kwh as int,
            );
        }

        let mse = (sq_sum / (n as i128)) as u64;
        let rmse = isqrt_u64(mse) as i64;
        let mae = (abs_sum / (n as i128)) as i64;
        let curtailment_pct = if dr_req_sum > 0 {
            ((100_000i128) * dr_ach_sum / dr_req_sum) as i64
        } else {
            0
        };
        let cycles = if battery_capacity_kwh > 0 {
            throughput * 1000 / (2 * (battery_capacity_kwh as i128))
        } else {
            0
        };

        KpiReport {
            rmse_tracking_kw: rmse,
            mae_tracking_kw: mae,
            curtailment_pct,
            peak_import_kw: peak_import,
            peak_export_kw: peak_export,
            battery_throughput_kwh: throughput,
            battery_equivalent_full_cycles: cycles,
            feeder_violation_count: violations,
            total_imbalance_cost: cost_sum,
        }
    }
}


/// Adding one bounded term keeps a running sum within its linear bound.
proof fn lemma_sum_step(sum: int, add: int, i: int, c: int, nmax: int)
    requires
        0 <= sum <= i * c,
        0 <= add <= c,
        0 <= i < nmax,
        0 <= c,
    ensures
        0 <= sum + add <= (i + 1) * c,
        (i + 1) * c <= nmax * c,
{
    assert((i + 1) * c == i * c + c && (i + 1) * c <= nmax * c) by (nonlinear_arith)
        requires
            0 <= i < nmax,
            0 <= c,
    ;
}

/// Per-step accumulation stays within the loop bounds.
proof fn lemma_kpi_accumulate(i: int, err: int, bat: int, dt_mh: int)
    requires
        0 <= i,
        -3 * FLOW_LIMIT <= err <= 3 * FLOW_LIMIT,
        -POWER_LIMIT <= bat <= POWER_LIMIT,
        1 <= dt_mh <= DAY_MILLI_HOURS,
    ensures
        0 <= err * err <= 9_000_000_000_000_000_000int,
        0 <= vstd::math::abs(err) * dt_mh || true,
        0 <= vstd::math::abs(bat) * dt_mh <= POWER_LIMIT as int * DAY_MILLI_HOURS as int,
{
    assert(0 <= err * err <= 9_000_000_000_000_000_000int && 0 <= vstd::math::abs(bat) as int
        * dt_mh <= POWER_LIMIT as int * DAY_MILLI_HOURS as int) by (nonlinear_arith)
        requires
            -3 * FLOW_LIMIT as int <= err,
            err <= 3 * FLOW_LIMIT as int,
            -(POWER_LIMIT as int) <= bat,
            bat <= POWER_LIMIT as int,
            1 <= dt_mh <= DAY_MILLI_HOURS as int,
    ;
}

/// The averages and shares computed from bounded sums stay within range.
proof fn lemma_kpi_averages(
    sq_sum: int,
    abs_sum: int,
    dr_req_sum: int,
    dr_ach_sum: int,
    throughput: int,
    n: int,
    capacity: int,
)
    requires
        0 < n <= DAY_MILLI_HOURS * 100_000,
        0 <= sq_sum <= n * 9_000_000_000_000_000_000int,
        0 <= abs_sum <= n * (3 * FLOW_LIMIT as int),
        0 <= dr_req_sum,
        0 <= dr_ach_sum <= dr_req_sum,
        0 <= throughput <= n * (POWER_LIMIT as int * DAY_MILLI_HOURS as int),
        0 <= capacity <= ENERGY_LIMIT,
    ensures
        0 <= sq_sum / n <= 9_000_000_000_000_000_000int,
        0 <= abs_sum / n <= 3 * FLOW_LIMIT as int,
        dr_req_sum > 0 ==> 0 <= 100_000 * dr_ach_sum / dr_req_sum <= 100_000,
        0 <= throughput * 1000,
        capacity > 0 ==> 0 <= throughput * 1000 / (2 * capacity),
{
    assert(0 <= sq_sum / n <= 9_000_000_000_000_000_000int && 0 <= abs_sum / n <= 3
        * FLOW_LIMIT as int && (dr_req_sum > 0 ==> 0 <= 100_000 * dr_ach_sum / dr_req_sum
        <= 100_000) && 0 <= throughput * 1000 && (capacity > 0 ==> 0 <= throughput * 1000 / (2
        * capacity))) by (nonlinear_arith)
        requires
            0 < n,
            0 <= sq_sum <= n * 9_000_000_000_000_000_000int,
            0 <= abs_sum <= n * (3 * FLOW_LIMIT as int),
            0 <= dr_req_sum,
            0 <= dr_ach_sum <= dr_req_sum,
            0 <= throughput,
            0 <= capacity,
    ;
}

} // verus!
