use wasi_gpio::general::GpioError;
use wasi_gpio::policies::{parse_gpio_label, Config, Mode, Policies, Wasi, WasiGpioEntry};

fn policy(entries: Vec<WasiGpioEntry>) -> Policies {
    Policies { wasi: Wasi { gpio: entries } }
}

fn entry(vlabel: &str, modes: Vec<Mode>, plabel: &str) -> WasiGpioEntry {
    WasiGpioEntry { vlabel: vlabel.to_string(), modes, plabel: plabel.to_string() }
}

#[test]
fn absent_label_denies_every_mode() {
    let p = policy(vec![entry("led", vec![Mode::DigitalOutput], "GPIO4")]);
    let all_modes = vec![
        Mode::DigitalInput,
        Mode::DigitalOutput,
        Mode::StatefulDigitalOutput,
        Mode::DigitalInputOutput,
        Mode::AnalogInput,
        Mode::AnalogOutput,
        Mode::AnalogInputOutput,
    ];
    for mode in all_modes {
        assert!(!p.is_mode_allowed("missing", mode));
    }
}

#[test]
fn mode_allowed_iff_granted() {
    let p = policy(vec![entry("led", vec![Mode::DigitalOutput, Mode::DigitalInput], "GPIO4")]);
    assert!(p.is_mode_allowed("led", Mode::DigitalOutput));
    assert!(p.is_mode_allowed("led", Mode::DigitalInput));
    assert!(!p.is_mode_allowed("led", Mode::AnalogOutput));
    assert!(!p.is_mode_allowed("led", Mode::DigitalInputOutput));
}

#[test]
fn empty_policy_denies() {
    let p = policy(vec![]);
    assert!(!p.is_mode_allowed("anything", Mode::DigitalInput));
    assert!(p.get_plabel("anything").is_none());
}

#[test]
fn get_plabel_resolves_gpio_identifiers_only() {
    let p = policy(vec![
        entry("led", vec![Mode::DigitalOutput], "GPIO17"),
        entry("buzzer", vec![Mode::AnalogOutput], "PWM0"),
    ]);
    assert_eq!(p.get_plabel("led"), Some("GPIO17".to_string()));
    // The entry exists, but a PWM channel name is not a digital identifier.
    assert!(p.get_plabel("buzzer").is_none());
    assert!(p.get_plabel("missing").is_none());
}

#[test]
fn validate_accepts_digital_and_pwm_grants() {
    let p = policy(vec![
        entry("led", vec![Mode::DigitalOutput], "GPIO4"),
        entry("buzzer", vec![Mode::AnalogOutput], "PWM1"),
    ]);
    assert!(p.validate());
}

#[test]
fn validate_rejects_analog_input() {
    let p = policy(vec![entry("sensor", vec![Mode::AnalogInput], "GPIO4")]);
    assert!(!p.validate());
    let p = policy(vec![entry("sensor", vec![Mode::AnalogInputOutput], "GPIO4")]);
    assert!(!p.validate());
}

#[test]
fn validate_rejects_analog_output_off_pwm_channel() {
    let p = policy(vec![entry("buzzer", vec![Mode::AnalogOutput], "GPIO4")]);
    assert!(!p.validate());
    let p = policy(vec![entry("buzzer", vec![Mode::AnalogOutput], "PWM7")]);
    assert!(!p.validate());
}

#[test]
fn parse_gpio_label_reads_line_numbers() {
    assert_eq!(parse_gpio_label("GPIO0"), Some(0));
    assert_eq!(parse_gpio_label("GPIO12"), Some(12));
    assert_eq!(parse_gpio_label("GPIO255"), Some(255));
    assert_eq!(parse_gpio_label("GPIO003"), Some(3));
}

#[test]
fn parse_gpio_label_rejects_malformed_identifiers() {
    assert_eq!(parse_gpio_label("GPIO"), None);
    assert_eq!(parse_gpio_label("GPIOx"), None);
    assert_eq!(parse_gpio_label("GPIO256"), None);
    assert_eq!(parse_gpio_label("GPIO4000"), None);
    assert_eq!(parse_gpio_label("PWM0"), None);
    assert_eq!(parse_gpio_label("gpio4"), None);
    assert_eq!(parse_gpio_label(""), None);
    assert_eq!(parse_gpio_label("GPIO4x"), None);
}

#[test]
fn component_path_is_returned_verbatim() {
    let c = Config { policy_file: "policy.toml".to_string(), component: "guest.wasm".to_string() };
    assert_eq!(c.get_component_path(), "guest.wasm");
}

#[test]
fn first_entry_wins_for_duplicate_labels() {
    let p = policy(vec![
        entry("led", vec![Mode::DigitalOutput], "GPIO4"),
        entry("led", vec![Mode::DigitalInput], "GPIO5"),
    ]);
    assert_eq!(p.get_plabel("led"), Some("GPIO4".to_string()));
    assert!(p.is_mode_allowed("led", Mode::DigitalOutput));
    assert!(!p.is_mode_allowed("led", Mode::DigitalInput));
}

#[test]
fn other_error_carries_text() {
    let e = GpioError::Other("driver said no".to_string());
    assert!(matches!(e, GpioError::Other(msg) if msg == "driver said no"));
}
