use deepcool_digital_linux::monitor::cpu::{
    Cpu, EnergyCounterState, LoadCounterState, TelemetryError,
};

fn cpu() -> Cpu {
    Cpu::new(60_000_000)
}

fn energy(energy_uj: u64) -> EnergyCounterState {
    EnergyCounterState { energy_uj, rapl_max_uj: 60_000_000 }
}

fn load(busy: u64, idle: u64) -> LoadCounterState {
    LoadCounterState { busy, idle }
}

#[test]
fn power_is_energy_over_time() {
    assert_eq!(cpu().get_power(energy(1_000_000), 1_500_000, 750), 667);
    assert_eq!(cpu().get_power(energy(0), 750_000, 750), 1000);
}

#[test]
fn power_rounds_to_nearest_milliwatt() {
    // 1 µJ over 2 ms is half a milliwatt: halves go up.
    assert_eq!(cpu().get_power(energy(0), 1, 2), 1);
    assert_eq!(cpu().get_power(energy(0), 1, 3), 0);
    assert_eq!(cpu().get_power(energy(0), 2, 3), 1);
}

#[test]
fn power_handles_counter_wraparound() {
    // 100_000 left before the wrap, 100_000 after it.
    assert_eq!(cpu().get_power(energy(59_900_000), 100_000, 750), 267);
}

#[test]
fn power_of_unchanged_counter_is_zero() {
    assert_eq!(cpu().get_power(energy(5_000), 5_000, 750), 0);
    assert_eq!(cpu().get_power(energy(5_000), 5_000, 0), 0);
}

#[test]
fn power_saturates_the_field() {
    assert_eq!(cpu().get_power(energy(0), 60_000_000, 1), 65535);
    assert_eq!(cpu().get_power(energy(0), 1, 0), 65535);
    assert_eq!(cpu().get_power(energy(0), 65_535, 1), 65535);
    assert_eq!(cpu().get_power(energy(0), 65_534, 1), 65534);
}

#[test]
fn power_of_unexplained_readings_is_zero() {
    let prior = EnergyCounterState { energy_uj: 100, rapl_max_uj: 10 };
    assert_eq!(cpu().get_power(prior, 5, 1), 0);
}

#[test]
fn power_survives_the_largest_counters() {
    let prior = EnergyCounterState { energy_uj: u64::MAX, rapl_max_uj: u64::MAX };
    assert_eq!(cpu().get_power(prior, u64::MAX - 1, u64::MAX), 1);
    assert_eq!(cpu().get_power(prior, 0, u64::MAX), 0);
}

#[test]
fn read_energy_needs_a_bound() {
    assert_eq!(Cpu::new(0).read_energy(123), Err(TelemetryError::EnergyUnavailable));
    assert_eq!(
        Cpu::new(60_000_000).read_energy(123),
        Ok(EnergyCounterState { energy_uj: 123, rapl_max_uj: 60_000_000 })
    );
}

#[test]
fn read_instant_keeps_both_counters() {
    assert_eq!(cpu().read_instant(7, 9), LoadCounterState { busy: 7, idle: 9 });
}

#[test]
fn temperature_in_celsius_is_the_reading() {
    assert_eq!(cpu().get_temp(45_000, false), 45_000);
    assert_eq!(cpu().get_temp(0, false), 0);
}

#[test]
fn temperature_in_fahrenheit() {
    assert_eq!(cpu().get_temp(45_000, true), 113_000);
    assert_eq!(cpu().get_temp(0, true), 32_000);
    assert_eq!(cpu().get_temp(100_000, true), 212_000);
    assert_eq!(cpu().get_temp(u32::MAX, true), 4_294_967_295u64 * 9 / 5 + 32_000);
}

#[test]
fn fahrenheit_is_celsius_transformed() {
    for reading in [0u32, 1, 999, 36_600, 90_000, 105_500] {
        let c = cpu().get_temp(reading, false);
        let f = cpu().get_temp(reading, true);
        assert_eq!(f, c * 9 / 5 + 32_000);
        let exact = (c as f64 / 1000.0) * 9.0 / 5.0 + 32.0;
        assert!((f as f64 / 1000.0 - exact).abs() < 0.001);
    }
}

#[test]
fn usage_is_busy_share() {
    assert_eq!(cpu().get_usage(load(100, 100), load(175, 125)), 75);
    assert_eq!(cpu().get_usage(load(0, 0), load(10, 0)), 100);
    assert_eq!(cpu().get_usage(load(0, 0), load(0, 10)), 0);
}

#[test]
fn usage_rounds_to_nearest_percent() {
    assert_eq!(cpu().get_usage(load(0, 0), load(1, 2)), 33);
    assert_eq!(cpu().get_usage(load(0, 0), load(2, 1)), 67);
    assert_eq!(cpu().get_usage(load(0, 0), load(1, 7)), 13);
}

#[test]
fn usage_without_progress_is_zero() {
    assert_eq!(cpu().get_usage(load(5, 5), load(5, 5)), 0);
    assert_eq!(cpu().get_usage(load(9, 9), load(3, 3)), 0);
}

#[test]
fn usage_stays_a_percentage() {
    let samples = [
        (load(0, 0), load(u64::MAX, u64::MAX)),
        (load(0, 0), load(u64::MAX, 0)),
        (load(0, u64::MAX), load(u64::MAX, 0)),
        (load(3, 4), load(1000, 5)),
    ];
    for (prior, current) in samples {
        assert!(cpu().get_usage(prior, current) <= 100);
    }
    assert_eq!(cpu().get_usage(load(0, 0), load(u64::MAX, u64::MAX)), 50);
}

#[test]
fn usable_reading_has_a_bound() {
    let r = Cpu::new(7).read_energy(3).unwrap();
    assert!(r.rapl_max_uj > 0);
    assert_eq!(r.energy_uj, 3);
}
