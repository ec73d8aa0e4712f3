use wasi_gpio::analog::{check_invalid_flags as analog_check, AnalogConfigBuilder};
use wasi_gpio::digital::{check_invalid_flags, DigitalConfigBuilder};
use wasi_gpio::general::{
    ActiveLevel, AnalogFlag, DigitalFlag, GpioError, OutputMode, PinMode, PullResistor,
};

#[test]
fn digital_config_requires_a_polarity() {
    let r = DigitalConfigBuilder::new("led".to_string(), PinMode::Out).add_flags(vec![]).build();
    assert!(matches!(r, Err(GpioError::InvalidFlag)));

    let r = DigitalConfigBuilder::new("led".to_string(), PinMode::Out)
        .add_flags(vec![DigitalFlag::ActiveHigh])
        .build();
    let cfg = r.unwrap();
    assert_eq!(cfg.label, "led".to_string());
    assert_eq!(cfg.pin_mode, PinMode::Out);
    assert_eq!(cfg.active_level, ActiveLevel::ActiveHigh);
    assert_eq!(cfg.pull_resistor, None);
}

#[test]
fn output_with_pull_resistor_is_always_rejected() {
    let r = DigitalConfigBuilder::new("led".to_string(), PinMode::Out)
        .add_flags(vec![DigitalFlag::ActiveHigh, DigitalFlag::PullUp])
        .build();
    assert!(matches!(r, Err(GpioError::InvalidFlag)));

    let r = DigitalConfigBuilder::new("led".to_string(), PinMode::Out)
        .add_flags(vec![DigitalFlag::PullDown, DigitalFlag::ActiveLow])
        .build();
    assert!(matches!(r, Err(GpioError::InvalidFlag)));
}

#[test]
fn input_may_carry_a_pull_resistor() {
    let r = DigitalConfigBuilder::new("button".to_string(), PinMode::In)
        .add_flags(vec![DigitalFlag::ActiveLow, DigitalFlag::PullUp])
        .build();
    let cfg = r.unwrap();
    assert_eq!(cfg.pin_mode, PinMode::In);
    assert_eq!(cfg.active_level, ActiveLevel::ActiveLow);
    assert_eq!(cfg.pull_resistor, Some(PullResistor::PullUp));
}

#[test]
fn conflicting_flags_resolve_last_wins() {
    let r = DigitalConfigBuilder::new("button".to_string(), PinMode::In)
        .add_flags(vec![DigitalFlag::ActiveHigh, DigitalFlag::ActiveLow])
        .build();
    assert_eq!(r.unwrap().active_level, ActiveLevel::ActiveLow);

    let r = DigitalConfigBuilder::new("button".to_string(), PinMode::In)
        .add_flags(vec![DigitalFlag::ActiveLow, DigitalFlag::ActiveHigh])
        .build();
    assert_eq!(r.unwrap().active_level, ActiveLevel::ActiveHigh);

    let r = DigitalConfigBuilder::new("button".to_string(), PinMode::In)
        .add_flags(vec![DigitalFlag::ActiveHigh, DigitalFlag::PullUp, DigitalFlag::PullDown])
        .build();
    assert_eq!(r.unwrap().pull_resistor, Some(PullResistor::PullDown));
}

#[test]
fn digital_flag_screen_finds_disallowed_flags() {
    let flags = vec![DigitalFlag::ActiveHigh, DigitalFlag::Output];
    let r = check_invalid_flags(&flags, vec![DigitalFlag::Active, DigitalFlag::Output]);
    assert!(r.is_err());

    let flags = vec![DigitalFlag::ActiveHigh, DigitalFlag::PullUp];
    let r = check_invalid_flags(&flags, vec![DigitalFlag::Active, DigitalFlag::Output]);
    assert!(r.is_ok());

    let r = check_invalid_flags(&vec![], vec![DigitalFlag::Active]);
    assert!(r.is_ok());
}

#[test]
fn analog_output_requires_pwm_mode() {
    let r = AnalogConfigBuilder::new("buzzer".to_string(), PinMode::Out).add_flags(vec![]).build();
    assert!(matches!(r, Err(GpioError::InvalidFlag)));

    let r = AnalogConfigBuilder::new("buzzer".to_string(), PinMode::Out)
        .add_flags(vec![AnalogFlag::Pwm])
        .build();
    let cfg = r.unwrap();
    assert_eq!(cfg.label, "buzzer".to_string());
    assert_eq!(cfg.pin_mode, PinMode::Out);
    assert_eq!(cfg.output_mode, Some(OutputMode::Pwm));
}

#[test]
fn analog_input_is_categorically_unavailable() {
    let r = AnalogConfigBuilder::new("sensor".to_string(), PinMode::In).add_flags(vec![]).build();
    assert!(matches!(r, Err(GpioError::PinModeNotAvailable)));

    // Even a PWM flag does not make an analog input available.
    let r = AnalogConfigBuilder::new("sensor".to_string(), PinMode::In)
        .add_flags(vec![AnalogFlag::Pwm])
        .build();
    assert!(matches!(r, Err(GpioError::PinModeNotAvailable)));
}

#[test]
fn analog_flag_screen_finds_disallowed_flags() {
    let r = analog_check(&vec![AnalogFlag::Dac], vec![AnalogFlag::Dac]);
    assert!(r.is_err());
    let r = analog_check(&vec![AnalogFlag::Pwm], vec![AnalogFlag::Dac]);
    assert!(r.is_ok());
}
