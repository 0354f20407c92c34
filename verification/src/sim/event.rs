//! External demand-response events requesting temporary load reduction.

use vstd::prelude::*;

verus! {

use crate::numeric::FLOW_LIMIT;

/// A demand-response event over the half-open window
/// `[start_step, end_step)` requesting a load reduction while active.
#[derive(Clone, Copy)]
pub struct DemandResponseEvent {
    /// Start timestep (inclusive).
    pub start_step: usize,
    /// End timestep (exclusive).
    pub end_step: usize,
    /// Requested reduction while the event is active (milli-kW).
    pub requested_reduction_kw: i64,
}

impl DemandResponseEvent {
    /// A non-empty window and a bounded non-negative request.
    pub open spec fn wf(&self) -> bool {
        &&& self.start_step < self.end_step
        &&& 0 <= self.requested_reduction_kw <= FLOW_LIMIT
    }

    /// Creates a new demand-response event spanning `[start_step,
    /// end_step)`.
    pub fn new(start_step: usize, end_step: usize, requested_reduction_kw: i64) -> (r:
        DemandResponseEvent)
        requires
            start_step < end_step,
            0 <= requested_reduction_kw <= FLOW_LIMIT,
        ensures
            r.wf(),
            r.start_step == start_step,
            r.end_step == end_step,
            r.requested_reduction_kw == requested_reduction_kw,
    {
        DemandResponseEvent { start_step, end_step, requested_reduction_kw }
    }

    /// Whether `timestep` falls within the active window.
    pub open spec fn is_active_spec(&self, timestep: int) -> bool {
        self.start_step as int <= timestep < self.end_step as int
    }

    /// Returns `true` when `timestep` falls within the active window.
    pub fn is_active(&self, timestep: usize) -> (r: bool)
        ensures
            r == self.is_active_spec(timestep as int),
    {
        timestep >= self.start_step && timestep < self.end_step
    }

    /// The reduction the event requests at `timestep`: its full request
    /// inside the window and zero outside, exactly.
    pub open spec fn requested_reduction_at_spec(&self, timestep: int) -> int {
        if self.is_active_spec(timestep) {
            self.requested_reduction_kw as int
        } else {
            0
        }
    }

    /// The requested reduction in milli-kW if the event is active at
    /// `timestep`, otherwise zero.
    pub fn requested_reduction_at_kw(&self, timestep: usize) -> (r: i64)
        ensures
            r == self.requested_reduction_at_spec(timestep as int),
    {
        if self.is_active(timestep) {
            self.requested_reduction_kw
        } else {
            0
        }
    }
}

} // verus!
