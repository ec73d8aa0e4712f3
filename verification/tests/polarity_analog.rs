use wasi_gpio::analog::{pulse_width_ns, saturate_raw, PWM_MAX, PWM_PERIOD_NS};
use wasi_gpio::digital::{logical_of, physical_of};
use wasi_gpio::general::{ActiveLevel, Level, PinState};

#[test]
fn physical_low_reads_active_through_active_low() {
    // The physical line is electrically low: an active-low handle reports
    // Active, an active-high handle reports Inactive.
    assert_eq!(logical_of(Level::Low, ActiveLevel::ActiveLow), PinState::Active);
    assert_eq!(logical_of(Level::Low, ActiveLevel::ActiveHigh), PinState::Inactive);
}

#[test]
fn physical_high_reads_by_polarity() {
    assert_eq!(logical_of(Level::High, ActiveLevel::ActiveHigh), PinState::Active);
    assert_eq!(logical_of(Level::High, ActiveLevel::ActiveLow), PinState::Inactive);
}

#[test]
fn writes_drive_the_wired_active_level() {
    // Logical Active always maps to the wired-active physical level.
    assert_eq!(physical_of(PinState::Active, ActiveLevel::ActiveHigh), Level::High);
    assert_eq!(physical_of(PinState::Active, ActiveLevel::ActiveLow), Level::Low);
    assert_eq!(physical_of(PinState::Inactive, ActiveLevel::ActiveHigh), Level::Low);
    assert_eq!(physical_of(PinState::Inactive, ActiveLevel::ActiveLow), Level::High);
}

#[test]
fn state_and_level_negation() {
    assert_eq!(PinState::Active.not(), PinState::Inactive);
    assert_eq!(PinState::Inactive.not(), PinState::Active);
    assert_eq!(Level::Low.not(), Level::High);
    assert_eq!(Level::High.not(), Level::Low);
}

#[test]
fn raw_duty_saturates_never_errors() {
    assert_eq!(saturate_raw(0), 0);
    assert_eq!(saturate_raw(4095), 4095);
    assert_eq!(saturate_raw(5000), 4095);
    assert_eq!(saturate_raw(u32::MAX), PWM_MAX);
}

#[test]
fn raw_duty_rescales_onto_the_period() {
    // Raw 0 is duty fraction 0.0, raw 4095 is fraction 1.0, and an
    // overflowing raw behaves exactly as the maximum.
    assert_eq!(pulse_width_ns(0), 0);
    assert_eq!(pulse_width_ns(4095), PWM_PERIOD_NS);
    assert_eq!(pulse_width_ns(5000), pulse_width_ns(4095));

    let fraction_zero = pulse_width_ns(0) as f32 / PWM_PERIOD_NS as f32;
    assert_eq!(fraction_zero, 0.0);
    let fraction_full = pulse_width_ns(4095) as f32 / PWM_PERIOD_NS as f32;
    assert_eq!(fraction_full, 1.0);
    let fraction_over = pulse_width_ns(5000) as f32 / PWM_PERIOD_NS as f32;
    assert_eq!(fraction_over, 1.0);

    // Midpoint: raw 2048 of 4095 rescaled onto a 1 ms period.
    assert_eq!(pulse_width_ns(2048), 2048u64 * 1_000_000 / 4095);
}
