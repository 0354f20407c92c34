//! Day-ahead schedule generation utilities.

use vstd::prelude::*;

verus! {

use crate::numeric::{div_trunc, div_trunc_spec, sum_seq, FLOW_LIMIT};

/// Day-ahead schedule generation: builds per-step feeder targets from a
/// load forecast.
#[derive(Clone, Copy)]
pub struct DayAheadSchedule;

impl DayAheadSchedule {
    /// Generate a flat target schedule equal to the average of the
    /// forecast: every entry is the sum of the forecast over its length
    /// (rounded toward zero), and the schedule has the forecast's length.
    pub fn flat_target(forecast: &Vec<i64>) -> (r: Vec<i64>)
        requires
            forall|i: int|
                0 <= i < forecast@.len() ==> -FLOW_LIMIT <= #[trigger] forecast@[i] <= FLOW_LIMIT,
            forecast@.len() <= 100_000,
        ensures
            r@.len() == forecast@.len(),
            forecast@.len() > 0 ==> forall|i: int|
                0 <= i < r@.len() ==> #[trigger] r@[i] == div_trunc_spec(
                    sum_seq(forecast@),
                    forecast@.len() as int,
                ),
    {
        if forecast.len() == 0 {
            return Vec::new();
        }

        let mut sum: i64 = 0;
        let mut i: usize = 0;
        while i < forecast.len()
            invariant
                0 <= i <= forecast@.len(),
                forecast@.len() <= 100_000,
                forall|j: int|
                    0 <= j < forecast@.len() ==> -FLOW_LIMIT <= #[trigger] forecast@[j]
                        <= FLOW_LIMIT,
                sum == sum_seq(forecast@.take(i as int)),
                -FLOW_LIMIT * (i as int) <= sum <= FLOW_LIMIT * (i as int),
            decreases forecast@.len() - i,
        {
            proof {
                assert(forecast@.take(i as int + 1).drop_last() =~= forecast@.take(i as int));
                assert(-FLOW_LIMIT * (i as int + 1) <= sum + forecast@[i as int] <= FLOW_LIMIT * (
                i as int + 1)) by (nonlinear_arith)
                    requires
                        -FLOW_LIMIT * (i as int) <= sum as int,
                        (sum as int) <= FLOW_LIMIT * (i as int),
                        -FLOW_LIMIT as int <= forecast@[i as int],
                        (forecast@[i as int] as int) <= FLOW_LIMIT as int,
                        0 <= i as int,
                ;
                assert(FLOW_LIMIT * (i as int + 1) <= FLOW_LIMIT * 100_000int && -(FLOW_LIMIT
                    * 100_000int) <= -FLOW_LIMIT * (i as int + 1)) by (nonlinear_arith)
                    requires
                        0 <= i as int,
                        i as int + 1 <= 100_000int,
                ;
            }
            sum = sum + forecast[i];
            i = i + 1;
        }
        proof {
            assert(forecast@.take(forecast@.len() as int) =~= forecast@);
        }
        let avg = div_trunc(sum, forecast.len() as i64);

        let mut r: Vec<i64> = Vec::new();
        let mut k: usize = 0;
        while k < forecast.len()
            invariant
                0 <= k <= forecast@.len(),
                r@.len() == k,
                forall|j: int|
                    0 <= j < k ==> #[trigger] r@[j] == div_trunc_spec(
                        sum_seq(forecast@),
                        forecast@.len() as int,
                    ),
                avg == div_trunc_spec(sum_seq(forecast@), forecast@.len() as int),
            decreases forecast@.len() - k,
        {
            r.push(avg);
            k = k + 1;
        }
        r
    }
}

} // verus!
