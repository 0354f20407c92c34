//! Forecasting utilities for the simulator.

use vstd::prelude::*;

verus! {

/// Naive "tomorrow is today" forecaster: it repeats or truncates the
/// provided baseline to the requested horizon.
#[derive(Clone, Copy)]
pub struct NaiveForecast;

impl NaiveForecast {
    /// Produce a naive forecast for the given horizon: entry `i` is the
    /// baseline at `i` modulo the baseline length (zero for an empty
    /// baseline), so the baseline is truncated or cyclically repeated.
    pub fn forecast(&self, baseline: &Vec<i64>, horizon: usize) -> (r: Vec<i64>)
        ensures
            r@.len() == horizon,
            forall|i: int|
                0 <= i < horizon ==> #[trigger] r@[i] == if baseline@.len() == 0 {
                    0i64
                } else {
                    baseline@[i % baseline@.len() as int]
                },
    {
        let mut r: Vec<i64> = Vec::new();
        if baseline.len() == 0 {
            let mut i: usize = 0;
            while i < horizon
                invariant
                    0 <= i <= horizon,
                    r@.len() == i,
                    forall|j: int| 0 <= j < i ==> #[trigger] r@[j] == 0i64,
                decreases horizon - i,
            {
                r.push(0);
                i = i + 1;
            }
            return r;
        }
        let mut i: usize = 0;
        while i < horizon
            invariant
                0 <= i <= horizon,
                baseline@.len() > 0,
                r@.len() == i,
                forall|j: int|
                    0 <= j < i ==> #[trigger] r@[j] == baseline@[j % baseline@.len() as int],
            decreases horizon - i,
        {
            let idx = i % baseline.len();
            r.push(baseline[idx]);
            i = i + 1;
        }
        r
    }
}

} // verus!
