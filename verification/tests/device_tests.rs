use vpp_sim::devices::baseload::BaseLoad;
use vpp_sim::devices::battery::Battery;
use vpp_sim::devices::ev_charger::EvCharger;
use vpp_sim::devices::solar::SolarPv;
use vpp_sim::devices::solar_ar1::SolarPvAr1;
use vpp_sim::devices::types::DeviceContext;

fn ctx(t: usize) -> DeviceContext {
    DeviceContext::new(t)
}

// --- BaseLoad ---

#[test]
fn test_new_baseload() {
    let load = BaseLoad::new(1000, 500, 0, 100, 24, 42);
    assert_eq!(load.base_kw, 1000);
    assert_eq!(load.amp_kw, 500);
    assert_eq!(load.phase_milli, 0);
    assert_eq!(load.noise_std, 100);
    assert_eq!(load.steps_per_day, 24);
}

#[test]
fn test_steps_per_day_minimum() {
    // A zero steps-per-day is raised to one.
    let load = BaseLoad::new(1000, 500, 0, 100, 0, 42);
    assert_eq!(load.steps_per_day, 1);
}

#[test]
fn test_deterministic_pattern() {
    // With zero noise, demand is exactly base plus the wave.
    let mut load = BaseLoad::new(2000, 1000, 0, 0, 4, 42);

    // At phase 0, the first step is the bare base (the wave starts at 0).
    assert_eq!(load.power_kw(&ctx(0)), 2000);

    // At a quarter day the wave peaks: base + amp.
    assert_eq!(load.power_kw(&ctx(1)), 3000);

    // At half day the wave crosses zero again.
    assert_eq!(load.power_kw(&ctx(2)), 2000);

    // At three quarters the wave bottoms out: base - amp.
    assert_eq!(load.power_kw(&ctx(3)), 1000);
}

#[test]
fn test_phase_shift() {
    // A quarter-cycle phase shift moves the peak to the first step.
    let mut load = BaseLoad::new(2000, 1000, 250, 0, 4, 42);
    assert_eq!(load.power_kw(&ctx(0)), 3000);
}

#[test]
fn test_no_negative_demand() {
    // base - amp would be negative at three quarters; clamped to zero.
    let mut load = BaseLoad::new(500, 1000, 0, 0, 4, 42);
    assert_eq!(load.power_kw(&ctx(3)), 0);
}

#[test]
fn test_random_noise_deterministic() {
    let mut load1 = BaseLoad::new(1000, 0, 0, 500, 10, 42);
    let mut load2 = BaseLoad::new(1000, 0, 0, 500, 10, 42);

    for i in 0..5 {
        assert_eq!(load1.power_kw(&ctx(i)), load2.power_kw(&ctx(i)));
    }
}

#[test]
fn test_different_seeds_produce_different_results() {
    let mut load1 = BaseLoad::new(1000, 0, 0, 500, 10, 42);
    let mut load2 = BaseLoad::new(1000, 0, 0, 500, 10, 43);

    let mut all_same = true;
    for i in 0..5 {
        if load1.power_kw(&ctx(i)) != load2.power_kw(&ctx(i)) {
            all_same = false;
            break;
        }
    }

    assert!(!all_same);
}

// --- Battery ---

#[test]
fn test_new_battery() {
    let battery = Battery::new(10_000_000, 5_000_000, 5000, 5000, 950_000, 950_000, 96);
    assert_eq!(battery.capacity_kwh, 10_000_000);
    assert_eq!(battery.stored_kwh, 5_000_000);
    assert_eq!(battery.max_charge_kw, 5000);
    assert_eq!(battery.max_discharge_kw, 5000);
    assert_eq!(battery.eta_c, 950_000);
    assert_eq!(battery.eta_d, 950_000);
    assert!(battery.steps_per_day == 96);
    assert_eq!(battery.soc_ppm(), 500_000);
}

#[test]
fn test_charge_power_limit() {
    // Charging request beyond the rate limit saturates at the limit.
    let mut battery = Battery::new(10_000_000, 5_000_000, 5000, 5000, 1_000_000, 1_000_000, 96);
    let context = DeviceContext::with_setpoint(0, 10_000);
    let actual_kw = battery.power_kw(&context);
    assert_eq!(actual_kw, 5000); // rate-limited charge
}

#[test]
fn test_discharge_power_limit() {
    let mut battery = Battery::new(10_000_000, 5_000_000, 5000, 5000, 1_000_000, 1_000_000, 96);
    let context = DeviceContext::with_setpoint(0, -10_000);
    let actual_kw = battery.power_kw(&context);
    assert_eq!(actual_kw, -5000); // rate-limited discharge
}

#[test]
fn test_discharge_soc_limit() {
    // Battery at 10% of 10 kWh (1 kWh available); quarter-hour steps and
    // perfect efficiency allow at most 4 kW of discharge.
    let mut battery = Battery::new(10_000_000, 1_000_000, 5000, 5000, 1_000_000, 1_000_000, 96);

    let context = DeviceContext::with_setpoint(0, -5000);
    let actual_kw = battery.power_kw(&context);
    assert_eq!(actual_kw, -4000); // limited by available energy

    // Fully discharged afterwards.
    assert_eq!(battery.stored_kwh, 0);
    assert_eq!(battery.soc_ppm(), 0);
}

#[test]
fn test_charge_soc_limit() {
    // Battery at 90% of 10 kWh (1 kWh of headroom): at most 4 kW of charge.
    let mut battery = Battery::new(10_000_000, 9_000_000, 5000, 5000, 1_000_000, 1_000_000, 96);

    let context = DeviceContext::with_setpoint(0, 5000);
    let actual_kw = battery.power_kw(&context);
    assert_eq!(actual_kw, 4000); // limited by headroom

    assert_eq!(battery.soc_ppm(), 1_000_000); // full
}

#[test]
fn test_efficiency_charge() {
    // 10 kWh battery, empty, 90% charge efficiency, six-hour steps:
    // charging at 1 kW for one step stores 6 kWh * 0.9 = 5.4 kWh.
    let mut battery = Battery::new(10_000_000, 0, 5000, 5000, 900_000, 900_000, 4);

    let context = DeviceContext::with_setpoint(0, 1000);
    battery.power_kw(&context);

    assert_eq!(battery.stored_kwh, 5_400_000);
    assert_eq!(battery.soc_ppm(), 540_000);
}

#[test]
fn test_efficiency_discharge() {
    // 10 kWh battery at 50%, 80% discharge efficiency, six-hour steps:
    // a 1 kW request is limited by the deliverable energy and drains the
    // battery to (almost) empty; the integer model leaves the sub-quantum
    // remainder of 0.005 kWh.
    let mut battery = Battery::new(10_000_000, 5_000_000, 5000, 5000, 900_000, 800_000, 4);

    let context = DeviceContext::with_setpoint(0, -1000);
    let actual = battery.power_kw(&context);
    assert_eq!(actual, -666); // deliverable-limited discharge
    assert_eq!(battery.stored_kwh, 5000);
}

#[test]
fn test_complete_charge_discharge_cycle() {
    // Charge a 10 kWh battery full at 90% efficiency, then empty it; the
    // energy delivered on the way down is close to 10 kWh * 0.9 = 9 kWh.
    let mut battery = Battery::new(10_000_000, 5_000_000, 2000, 2000, 900_000, 900_000, 24);

    while battery.soc_ppm() < 990_000 {
        let context = DeviceContext::with_setpoint(0, 2000);
        battery.power_kw(&context);
    }

    let mut energy_delivered: i64 = 0;
    while battery.soc_ppm() > 10_000 {
        let context = DeviceContext::with_setpoint(0, -2000);
        let kw = battery.power_kw(&context);
        energy_delivered += -kw * 1000; // one-hour steps
    }

    // within 0.1 kWh of 9 kWh
    assert!((energy_delivered - 9_000_000).abs() < 100_000);
}

// --- EV charger ---

#[test]
fn deterministic_for_same_seed() {
    let mut ev1 = EvCharger::new(7200, 6_000_000, 12_000_000, 4, 10, 24, 42);
    let mut ev2 = EvCharger::new(7200, 6_000_000, 12_000_000, 4, 10, 24, 42);

    for t in 0..48 {
        assert_eq!(ev1.power_kw(&ctx(t)), ev2.power_kw(&ctx(t)));
    }
}

#[test]
fn no_charging_outside_session_window() {
    // Zero demand: the charger never draws anything.
    let mut ev = EvCharger::new(7200, 0, 0, 4, 4, 24, 7);

    let mut non_zero_steps = 0;
    for t in 0..24 {
        if ev.power_kw(&ctx(t)) > 0 {
            non_zero_steps += 1;
        }
    }
    assert_eq!(non_zero_steps, 0);
}

#[test]
fn feasible_session_finishes_by_deadline() {
    // A fixed 10 kWh demand over a six-step dwell at 7.2 kW is feasible;
    // the delivered energy reaches the demand (the integer rate quantum
    // may overshoot by less than one step's milli-kW).
    let mut ev = EvCharger::new(7200, 10_000_000, 10_000_000, 6, 6, 24, 99);

    let mut total_ukwh: i64 = 0;
    for t in 0..24 {
        total_ukwh += ev.power_kw(&ctx(t)) * 1000; // one-hour steps
    }
    assert!(total_ukwh >= 10_000_000);
    assert!(total_ukwh < 10_000_000 + 1000 * 1000);
}

// --- Solar (simple) ---

#[test]
fn solar_zero_at_night_simple() {
    let mut pv = SolarPv::new(5000, 24, 6, 18, 50, 42);
    assert_eq!(pv.gen_kw(0), 0);
    assert_eq!(pv.gen_kw(5), 0);
    assert_eq!(pv.gen_kw(6), 0); // the dome is zero at the sunrise step
    assert_eq!(pv.gen_kw(18), 0);
    assert_eq!(pv.gen_kw(23), 0);
}

#[test]
fn solar_positive_generation_midday() {
    let mut pv = SolarPv::new(5000, 24, 6, 18, 50, 42);
    let g = pv.gen_kw(12);
    assert!(g > 0);
    let p = pv.power_kw(&ctx(12));
    assert!(p < 0);
}

#[test]
fn solar_deterministic_for_same_seed() {
    let mut pv1 = SolarPv::new(5000, 24, 6, 18, 50, 42);
    let mut pv2 = SolarPv::new(5000, 24, 6, 18, 50, 42);
    for t in 0..24 {
        assert_eq!(pv1.gen_kw(t), pv2.gen_kw(t));
    }
}

// --- Solar (AR(1)) ---

#[test]
fn seed_determinism() {
    let mut pv1 = SolarPvAr1::new(5000, 6, 18, 900, 200, 24, 42);
    let mut pv2 = SolarPvAr1::new(5000, 6, 18, 900, 200, 24, 42);

    for t in 0..48 {
        assert_eq!(pv1.power_kw(&ctx(t)), pv2.power_kw(&ctx(t)));
    }
}

#[test]
fn different_seeds_produce_different_sequences() {
    let mut pv1 = SolarPvAr1::new(5000, 6, 18, 900, 200, 24, 42);
    let mut pv2 = SolarPvAr1::new(5000, 6, 18, 900, 200, 24, 99);

    let mut any_differ = false;
    for t in 6..18 {
        if pv1.power_kw(&ctx(t)) != pv2.power_kw(&ctx(t)) {
            any_differ = true;
            break;
        }
    }
    assert!(any_differ, "different seeds should produce different outputs");
}

#[test]
fn multiplier_stays_within_bounds() {
    let mut pv = SolarPvAr1::new(5000, 6, 18, 800, 500, 24, 42);

    for t in 0..240 {
        let kw = pv.power_kw(&ctx(t));
        assert!(kw <= 0, "generation should be <= 0 at t={t}, got {kw}");
        assert!(
            kw >= -5000 * 1200 / 1000,
            "power should not exceed peak * max multiplier at t={t}, got {kw}"
        );
        assert!(pv.multiplier >= 200 && pv.multiplier <= 1200);
    }
}


#[test]
fn temporal_correlation_adjacent_steps_more_similar() {
    // 15-minute steps for smoother data; daylight from step 24 to 72.
    let mut pv = SolarPvAr1::new(5000, 24, 72, 900, 200, 96, 42);

    let mut outputs = Vec::with_capacity(96);
    for t in 0..96 {
        outputs.push(pv.power_kw(&ctx(t)));
    }

    // Compare adjacent-step differences against 10-step-apart differences
    // during daylight only.
    let mut adj_diff_sum: i64 = 0;
    let mut adj_count: i64 = 0;
    let mut far_diff_sum: i64 = 0;
    let mut far_count: i64 = 0;

    for t in 25..72 {
        adj_diff_sum += (outputs[t] - outputs[t - 1]).abs();
        adj_count += 1;
        if t >= 34 {
            far_diff_sum += (outputs[t] - outputs[t - 10]).abs();
            far_count += 1;
        }
    }

    // Adjacent steps should on average be more similar (smaller difference).
    assert!(
        adj_diff_sum * far_count < far_diff_sum * adj_count,
        "adjacent diff ({adj_diff_sum}/{adj_count}) should be smaller than distant diff \
         ({far_diff_sum}/{far_count})"
    );
}

#[test]
fn sign_convention_negative_during_daylight() {
    let mut pv = SolarPvAr1::new(5000, 6, 18, 900, 200, 24, 42);

    for t in 0..24 {
        let kw = pv.power_kw(&ctx(t));
        assert!(kw <= 0, "power should be <= 0 at t={t}, got {kw}");
        // Strictly negative mid-day: the multiplier is at least 0.2 and
        // the dome is well away from its zero ends.
        if (8..=16).contains(&t) {
            assert!(kw < 0, "power should be strictly negative at t={t}, got {kw}");
        }
    }
}

#[test]
fn no_generation_at_night() {
    let mut pv = SolarPvAr1::new(5000, 6, 18, 900, 200, 24, 42);
    assert_eq!(pv.power_kw(&ctx(0)), 0);
    assert_eq!(pv.power_kw(&ctx(5)), 0);
    assert_eq!(pv.power_kw(&ctx(18)), 0);
    assert_eq!(pv.power_kw(&ctx(23)), 0);
}

#[test]
fn alpha_clamped_to_unit_interval() {
    let pv = SolarPvAr1::new(5000, 6, 18, 1500, 200, 24, 42);
    assert_eq!(pv.alpha, 1000);
    let pv2 = SolarPvAr1::new(5000, 6, 18, -500, 200, 24, 42);
    assert_eq!(pv2.alpha, 0);
}
