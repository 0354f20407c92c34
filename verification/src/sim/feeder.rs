//! A simple feeder model that aggregates device power into net load.

use vstd::prelude::*;

verus! {

/// The feeder: an additive net-load accumulator with import and export
/// limits. Net load convention: positive values are consumption, negative
/// values generation.
pub struct Feeder {
    /// Feeder name.
    pub name: &'static str,
    /// Accumulated net load (milli-kW).
    pub net_kw: i64,
    /// Maximum import (positive load) limit (milli-kW).
    pub max_import_kw: i64,
    /// Maximum export limit (milli-kW, positive magnitude).
    pub max_export_kw: i64,
}

impl Feeder {
    /// Limits are non-negative.
    pub open spec fn wf(&self) -> bool {
        &&& 0 <= self.max_import_kw
        &&& 0 <= self.max_export_kw
    }

    /// Creates a new feeder with no effective power limits.
    pub fn new(name: &'static str) -> (r: Feeder)
        ensures
            r.wf(),
            r.name == name,
            r.net_kw == 0,
            r.max_import_kw == i64::MAX,
            r.max_export_kw == i64::MAX,
    {
        Feeder { name, net_kw: 0, max_import_kw: i64::MAX, max_export_kw: i64::MAX }
    }

    /// Creates a new feeder with import and export power limits.
    pub fn with_limits(name: &'static str, max_import_kw: i64, max_export_kw: i64) -> (r: Feeder)
        requires
            0 <= max_import_kw,
            0 <= max_export_kw,
        ensures
            r.wf(),
            r.name == name,
            r.net_kw == 0,
            r.max_import_kw == max_import_kw,
            r.max_export_kw == max_export_kw,
    {
        Feeder { name, net_kw: 0, max_import_kw, max_export_kw }
    }

    /// Resets the accumulated net load to zero.
    pub fn reset(&mut self)
        ensures
            final(self).net_kw == 0,
            final(self).name == old(self).name,
            final(self).max_import_kw == old(self).max_import_kw,
            final(self).max_export_kw == old(self).max_export_kw,
    {
        self.net_kw = 0;
    }

    /// Adds a signed contribution to the feeder net load.
    pub fn add_net_kw(&mut self, kw: i64)
        requires
            i64::MIN <= old(self).net_kw + kw <= i64::MAX,
        ensures
            final(self).net_kw == old(self).net_kw + kw,
            final(self).name == old(self).name,
            final(self).max_import_kw == old(self).max_import_kw,
            final(self).max_export_kw == old(self).max_export_kw,
    {
        self.net_kw = self.net_kw + kw;
    }

    /// The current net load in milli-kW.
    pub fn net_kw(&self) -> (r: i64)
        ensures
            r == self.net_kw,
    {
        self.net_kw
    }

    /// The maximum import (positive load) limit in milli-kW.
    pub fn max_import_kw(&self) -> (r: i64)
        ensures
            r == self.max_import_kw,
    {
        self.max_import_kw
    }

    /// The maximum export limit in milli-kW (positive magnitude).
    pub fn max_export_kw(&self) -> (r: i64)
        ensures
            r == self.max_export_kw,
    {
        self.max_export_kw
    }

    /// The minimum net load: the negated export limit.
    pub fn min_net_kw(&self) -> (r: i64)
        requires
            self.max_export_kw > i64::MIN,
        ensures
            r == -self.max_export_kw,
    {
        -self.max_export_kw
    }

    /// The maximum net load: the import limit.
    pub fn max_net_kw(&self) -> (r: i64)
        ensures
            r == self.max_import_kw,
    {
        self.max_import_kw
    }

    /// Whether the accumulated net load is within the limits.
    pub open spec fn within_limits_spec(&self) -> bool {
        -self.max_export_kw as int <= self.net_kw as int <= self.max_import_kw as int
    }

    /// Returns `true` when the net load is within the import and export
    /// limits.
    pub fn within_limits(&self) -> (r: bool)
        requires
            self.wf(),
        ensures
            r == self.within_limits_spec(),
    {
        self.net_kw >= -self.max_export_kw && self.net_kw <= self.max_import_kw
    }

    /// The feeder name.
    pub fn name(&self) -> (r: &'static str)
        ensures
            r == self.name,
    {
        self.name
    }
}

} // verus!
