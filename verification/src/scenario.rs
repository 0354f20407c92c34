//! Flat scenario files: the reduced per-house configuration, its
//! key/value decoding and its validation. Reading and tokenising the file
//! itself is a collaborator's concern; it hands the library plain
//! key/value pairs (power values already in milli-kW).

use vstd::prelude::*;

verus! {

use crate::api::str_eq;
use crate::numeric::{DAY_MILLI_HOURS, POWER_LIMIT};
use crate::text::{parse_digits_spec, parse_u64_digits};


/// The keys a scenario file may carry.
pub open spec fn known_scenario_key(k: Seq<char>) -> bool {
    ||| k == "houses"@
    ||| k == "feeder_kw"@
    ||| k == "seed"@
    ||| k == "steps_per_day"@
    ||| k == "solar_kw_peak_per_house"@
    ||| k == "dr_start_step"@
    ||| k == "dr_end_step"@
    ||| k == "dr_reduction_kw_per_house"@
}

/// The first value under `key`, or nothing when the key is absent.
pub open spec fn kv_lookup(pairs: Seq<(String, i64)>, key: Seq<char>) -> Option<i64>
    decreases pairs.len(),
{
    if pairs.len() == 0 {
        None
    } else if pairs[0].0@ == key {
        Some(pairs[0].1)
    } else {
        kv_lookup(pairs.skip(1), key)
    }
}

/// The first value under `key`, or the default when the key is absent.
pub open spec fn lookup_or_spec(pairs: Seq<(String, i64)>, key: Seq<char>, default: i64) -> i64 {
    match kv_lookup(pairs, key) {
        Some(v) => v,
        None => default,
    }
}

/// The range checks the decoder applies to the looked-up (or default)
/// values, in the order it applies them.
pub open spec fn scenario_values_ok(
    houses: int,
    feeder: int,
    seed: int,
    steps: int,
    solar: int,
    dr_start: int,
    dr_end: int,
    dr_red: int,
) -> bool {
    &&& 0 < houses <= 10_000
    &&& 0 < feeder <= POWER_LIMIT
    &&& 0 <= seed
    &&& 0 < steps <= DAY_MILLI_HOURS
    &&& 0 <= solar <= POWER_LIMIT as int / 10_000
    &&& 0 <= dr_start < steps
    &&& 0 <= dr_end <= steps
    &&& dr_start < dr_end
    &&& 0 <= dr_red <= POWER_LIMIT as int / 10_000
}

/// The reduced per-house scenario: house count, feeder size, seed, step
/// resolution, per-house solar peak and the demand-response window.
#[derive(Debug, Clone)]
pub struct ScenarioConfig {
    /// Number of houses aggregated at the feeder.
    pub houses: u32,
    /// Feeder import limit (milli-kW).
    pub feeder_kw: i64,
    /// Master random seed.
    pub seed: u64,
    /// Number of timesteps per simulated day.
    pub steps_per_day: usize,
    /// Solar peak per house (milli-kW).
    pub solar_kw_peak_per_house: i64,
    /// Demand response start step (inclusive).
    pub dr_start_step: usize,
    /// Demand response end step (exclusive).
    pub dr_end_step: usize,
    /// Demand response request per house (milli-kW).
    pub dr_reduction_kw_per_house: i64,
}

impl ScenarioConfig {
    /// Every constraint the decoder enforces.
    pub open spec fn valid(&self) -> bool {
        &&& 0 < self.houses <= 10_000
        &&& 0 < self.feeder_kw <= POWER_LIMIT
        &&& 0 < self.steps_per_day <= DAY_MILLI_HOURS
        &&& 0 <= self.solar_kw_peak_per_house <= POWER_LIMIT / 10_000
        &&& self.dr_start_step < self.steps_per_day
        &&& self.dr_end_step <= self.steps_per_day
        &&& self.dr_start_step < self.dr_end_step
        &&& 0 <= self.dr_reduction_kw_per_house <= POWER_LIMIT / 10_000
    }

    /// The demo scenario: one house on a 5 kW feeder.
    pub fn demo() -> (r: ScenarioConfig)
        ensures
            r == (ScenarioConfig {
                houses: 1u32,
                feeder_kw: 5000i64,
                seed: 42u64,
                steps_per_day: 24usize,
                solar_kw_peak_per_house: 5000i64,
                dr_start_step: 17usize,
                dr_end_step: 21usize,
                dr_reduction_kw_per_house: 1500i64,
            }),
            r.valid(),
    {
        ScenarioConfig {
            houses: 1,
            feeder_kw: 5000,
            seed: 42,
            steps_per_day: 24,
            solar_kw_peak_per_house: 5000,
            dr_start_step: 17,
            dr_end_step: 21,
            dr_reduction_kw_per_house: 1500,
        }
    }

    /// Loads a scenario from a named preset: only `demo` is built in.
    pub fn from_preset(name: &str) -> (r: Result<ScenarioConfig, String>)
        ensures
            r is Ok <==> name@ == "demo"@,
            r matches Ok(c) ==> c == Self::demo_spec(),
    {
        if str_eq(name, "demo") {
            Ok(Self::demo())
        } else {
            let mut message = "invalid value for `preset`: unknown preset `".to_owned();
            message.append(name);
            message.append("` (expected `demo` or a scenario file)");
            Err(message)
        }
    }

    /// The demo scenario as a value.
    pub open spec fn demo_spec() -> ScenarioConfig {
        ScenarioConfig {
            houses: 1u32,
            feeder_kw: 5000i64,
            seed: 42u64,
            steps_per_day: 24usize,
            solar_kw_peak_per_house: 5000i64,
            dr_start_step: 17usize,
            dr_end_step: 21usize,
            dr_reduction_kw_per_house: 1500i64,
        }
    }

    /// Decodes a scenario from key/value pairs (numbers already in the
    /// integer scales): unknown keys are rejected with their path, absent
    /// keys fall back to the demo values. Decoding succeeds exactly when
    /// every key is known and every looked-up (or default) value is in
    /// range, and the decoded record carries exactly those values.
    pub fn from_kv_pairs(pairs: &Vec<(String, i64)>) -> (r: Result<ScenarioConfig, String>)
        ensures
            r is Ok <==> (forall|i: int|
                0 <= i < pairs@.len() ==> known_scenario_key(#[trigger] pairs@[i].0@))
                && scenario_values_ok(
                lookup_or_spec(pairs@, "houses"@, 1) as int,
                lookup_or_spec(pairs@, "feeder_kw"@, 5000) as int,
                lookup_or_spec(pairs@, "seed"@, 42) as int,
                lookup_or_spec(pairs@, "steps_per_day"@, 24) as int,
                lookup_or_spec(pairs@, "solar_kw_peak_per_house"@, 5000) as int,
                lookup_or_spec(pairs@, "dr_start_step"@, 17) as int,
                lookup_or_spec(pairs@, "dr_end_step"@, 21) as int,
                lookup_or_spec(pairs@, "dr_reduction_kw_per_house"@, 1500) as int,
            ),
            r matches Ok(c) ==> {
                &&& c.valid()
                &&& c.houses as int == lookup_or_spec(pairs@, "houses"@, 1)
                &&& c.feeder_kw == lookup_or_spec(pairs@, "feeder_kw"@, 5000)
                &&& c.seed as int == lookup_or_spec(pairs@, "seed"@, 42)
                &&& c.steps_per_day as int == lookup_or_spec(pairs@, "steps_per_day"@, 24)
                &&& c.solar_kw_peak_per_house == lookup_or_spec(
                    pairs@,
                    "solar_kw_peak_per_house"@,
                    5000,
                )
                &&& c.dr_start_step as int == lookup_or_spec(pairs@, "dr_start_step"@, 17)
                &&& c.dr_end_step as int == lookup_or_spec(pairs@, "dr_end_step"@, 21)
                &&& c.dr_reduction_kw_per_house == lookup_or_spec(
                    pairs@,
                    "dr_reduction_kw_per_house"@,
                    1500,
                )
            },
    {
        let mut i: usize = 0;
        while i < pairs.len()
            invariant
                0 <= i <= pairs@.len(),
                forall|j: int| 0 <= j < i ==> known_scenario_key(#[trigger] pairs@[j].0@),
            decreases pairs@.len() - i,
        {
            let known = str_eq(pairs[i].0.as_str(), "houses") || str_eq(
                pairs[i].0.as_str(),
                "feeder_kw",
            ) || str_eq(pairs[i].0.as_str(), "seed") || str_eq(
                pairs[i].0.as_str(),
                "steps_per_day",
            ) || str_eq(pairs[i].0.as_str(), "solar_kw_peak_per_house") || str_eq(
                pairs[i].0.as_str(),
                "dr_start_step",
            ) || str_eq(pairs[i].0.as_str(), "dr_end_step") || str_eq(
                pairs[i].0.as_str(),
                "dr_reduction_kw_per_house",
            );
            if !known {
                let mut message = "at `$.".to_owned();
                message.append(pairs[i].0.as_str());
                message.append("`: unknown key");
                return Err(message);
            }
            i = i + 1;
        }

        let houses_v = lookup_or(pairs, "houses", 1);
        let feeder_v = lookup_or(pairs, "feeder_kw", 5000);
        let seed_v = lookup_or(pairs, "seed", 42);
        let steps_v = lookup_or(pairs, "steps_per_day", 24);
        let solar_v = lookup_or(pairs, "solar_kw_peak_per_house", 5000);
        let dr_start_v = lookup_or(pairs, "dr_start_step", 17);
        let dr_end_v = lookup_or(pairs, "dr_end_step", 21);
        let dr_red_v = lookup_or(pairs, "dr_reduction_kw_per_house", 1500);

        if !(0 < houses_v && houses_v <= 10_000) {
            return Err("at `$.houses`: must be in 1..=10000".to_owned());
        }
        if !(0 < feeder_v && feeder_v <= POWER_LIMIT) {
            return Err("at `$.feeder_kw`: must be > 0".to_owned());
        }
        if !(0 <= seed_v) {
            return Err("at `$.seed`: must be >= 0".to_owned());
        }
        if !(0 < steps_v && steps_v <= DAY_MILLI_HOURS) {
            return Err("at `$.steps_per_day`: must be in 1..=24000".to_owned());
        }
        if !(0 <= solar_v && solar_v <= POWER_LIMIT / 10_000) {
            return Err("at `$.solar_kw_peak_per_house`: must be >= 0".to_owned());
        }
        if !(0 <= dr_start_v && dr_start_v < steps_v) {
            return Err("at `$.dr_start_step`: must be < steps_per_day".to_owned());
        }
        if !(0 <= dr_end_v && dr_end_v <= steps_v) {
            return Err("at `$.dr_end_step`: must be <= steps_per_day".to_owned());
        }
        if !(dr_start_v < dr_end_v) {
            return Err("at `$.dr_start_step`: must be < dr_end_step".to_owned());
        }
        if !(0 <= dr_red_v && dr_red_v <= POWER_LIMIT / 10_000) {
            return Err("at `$.dr_reduction_kw_per_house`: must be >= 0".to_owned());
        }

        Ok(
            ScenarioConfig {
                houses: houses_v as u32,
                feeder_kw: feeder_v,
                seed: seed_v as u64,
                steps_per_day: steps_v as usize,
                solar_kw_peak_per_house: solar_v,
                dr_start_step: dr_start_v as usize,
                dr_end_step: dr_end_v as usize,
                dr_reduction_kw_per_house: dr_red_v,
            },
        )
    }
}

/// The first value under `key`, or nothing when the key is absent:
/// exactly [`kv_lookup`].
pub fn find_value(pairs: &Vec<(String, i64)>, key: &str) -> (r: Option<i64>)
    ensures
        r == kv_lookup(pairs@, key@),
{
    let mut i: usize = 0;
    proof {
        assert(pairs@.skip(0) =~= pairs@);
    }
    while i < pairs.len()
        invariant
            0 <= i <= pairs@.len(),
            kv_lookup(pairs@, key@) == kv_lookup(pairs@.skip(i as int), key@),
        decreases pairs@.len() - i,
    {
        proof {
            assert(pairs@.skip(i as int)[0] == pairs@[i as int]);
            assert(pairs@.skip(i as int).skip(1) =~= pairs@.skip(i as int + 1));
        }
        if str_eq(pairs[i].0.as_str(), key) {
            return Some(pairs[i].1);
        }
        i = i + 1;
    }
    proof {
        assert(pairs@.skip(pairs@.len() as int) =~= Seq::<(String, i64)>::empty());
    }
    None
}

/// The first value under `key`, or `default` when the key is absent:
/// exactly [`lookup_or_spec`].
fn lookup_or(pairs: &Vec<(String, i64)>, key: &str, default: i64) -> (r: i64)
    ensures
        r == lookup_or_spec(pairs@, key@, default),
{
    let found = find_value(pairs, key);
    match found {
        Some(v) => v,
        None => default,
    }
}

/// Parses an unsigned 32-bit value from an optional scenario field:
/// the default when absent, the denoted number when it parses and fits,
/// an error naming the path otherwise.
pub fn parse_u32(value: Option<&str>, path: &str, default: u32) -> (r: Result<u32, String>)
    ensures
        value is None ==> r == Ok::<u32, String>(default),
        match (value, r) {
            (Some(v), Ok(n)) => v@.len() > 0 && parse_digits_spec(v@, 0) == Some(n as int),
            (Some(v), Err(_)) => v@.len() == 0 || parse_digits_spec(v@, 0) is None || (
            parse_digits_spec(v@, 0) matches Some(w) && w > u32::MAX),
            _ => true,
        },
{
    match value {
        None => Ok(default),
        Some(v) => {
            let parsed = parse_u64_digits(v);
            match parsed {
                Some(n) => {
                    if n <= u32::MAX as u64 {
                        Ok(n as u32)
                    } else {
                        Err(range_error(path, "value out of range for u32"))
                    }
                },
                None => Err(range_error(path, "expected unsigned integer")),
            }
        },
    }
}

/// Parses an unsigned 64-bit value from an optional scenario field:
/// the default when absent, the denoted number when it parses and fits,
/// an error naming the path otherwise.
pub fn parse_u64(value: Option<&str>, path: &str, default: u64) -> (r: Result<u64, String>)
    ensures
        value is None ==> r == Ok::<u64, String>(default),
        match (value, r) {
            (Some(v), Ok(n)) => v@.len() > 0 && parse_digits_spec(v@, 0) == Some(n as int),
            (Some(v), Err(_)) => v@.len() == 0 || parse_digits_spec(v@, 0) is None || (
            parse_digits_spec(v@, 0) matches Some(w) && w > u64::MAX),
            _ => true,
        },
{
    match value {
        None => Ok(default),
        Some(v) => {
            let parsed = parse_u64_digits(v);
            match parsed {
                Some(n) => Ok(n),
                None => Err(range_error(path, "expected unsigned integer")),
            }
        },
    }
}

/// Parses an unsigned size value from an optional scenario field:
/// the default when absent, the denoted number when it parses and fits,
/// an error naming the path otherwise.
pub fn parse_usize(value: Option<&str>, path: &str, default: usize) -> (r: Result<usize, String>)
    ensures
        value is None ==> r == Ok::<usize, String>(default),
        match (value, r) {
            (Some(v), Ok(n)) => v@.len() > 0 && parse_digits_spec(v@, 0) == Some(n as int),
            (Some(v), Err(_)) => v@.len() == 0 || parse_digits_spec(v@, 0) is None || (
            parse_digits_spec(v@, 0) matches Some(w) && w > usize::MAX),
            _ => true,
        },
{
    match value {
        None => Ok(default),
        Some(v) => {
            let parsed = parse_u64_digits(v);
            match parsed {
                Some(n) => {
                    if n <= usize::MAX as u64 {
                        Ok(n as usize)
                    } else {
                        Err(range_error(path, "value out of range for usize"))
                    }
                },
                None => Err(range_error(path, "expected unsigned integer")),
            }
        },
    }
}

/// The error text for an out-of-range or malformed scenario field.
fn range_error(path: &str, what: &str) -> (r: String)
{
    let mut s = "at `".to_owned();
    s.append(path);
    s.append("`: ");
    s.append(what);
    s
}

} // verus!
