//! Feeder power balance computation.

use vstd::prelude::*;

verus! {

use crate::numeric::FLOW_LIMIT;

/// Computes the feeder net load from device outputs, all already in feeder
/// convention (positive = import / load, negative = export / generation):
/// a plain sum with no sign flipping.
pub fn feeder_net_kw(base_kw: i64, ev_kw: i64, solar_kw: i64, battery_kw: i64) -> (r: i64)
    requires
        -FLOW_LIMIT <= base_kw <= FLOW_LIMIT,
        -FLOW_LIMIT <= ev_kw <= FLOW_LIMIT,
        -FLOW_LIMIT <= solar_kw <= FLOW_LIMIT,
        -FLOW_LIMIT <= battery_kw <= FLOW_LIMIT,
    ensures
        r == base_kw + ev_kw + solar_kw + battery_kw,
{
    base_kw + ev_kw + solar_kw + battery_kw
}

} // verus!
