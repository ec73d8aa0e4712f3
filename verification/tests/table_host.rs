use wasi_gpio::general::{AnalogFlag, DigitalFlag, GpioError, PinMode, PinState};
use wasi_gpio::impls::GpioImpl;
use wasi_gpio::policies::{Mode, Policies, Wasi, WasiGpioEntry};
use wasi_gpio::poll::Pollable;
use wasi_gpio::table::HandleTable;
use wasi_gpio::watch_event::{WatchEventKey, WatchType};

fn make_policy(entries: Vec<WasiGpioEntry>) -> Policies {
    Policies { wasi: Wasi { gpio: entries } }
}

fn make_entry(vlabel: &str, modes: Vec<Mode>, plabel: &str) -> WasiGpioEntry {
    WasiGpioEntry { vlabel: vlabel.to_string(), modes, plabel: plabel.to_string() }
}

#[test]
fn handles_are_issued_in_order() {
    let mut t: HandleTable<u32> = HandleTable::new();
    assert_eq!(t.push(10), 0);
    assert_eq!(t.push(20), 1);
    assert_eq!(*t.get(0).unwrap(), 10);
    assert_eq!(*t.get(1).unwrap(), 20);
    assert!(t.is_ready(0));
    assert!(!t.is_ready(2));
    assert!(matches!(t.get(2), Err(GpioError::ResourceInvalidated)));
}

#[test]
fn released_handle_stays_invalid() {
    let mut t: HandleTable<u32> = HandleTable::new();
    let a = t.push(10);
    let b = t.push(20);
    assert!(t.delete(a).is_ok());

    // Every subsequent operation on the released handle reports
    // ResourceInvalidated.
    assert!(matches!(t.get(a), Err(GpioError::ResourceInvalidated)));
    assert!(!t.is_ready(a));
    assert!(matches!(t.take(a), Err(GpioError::ResourceInvalidated)));
    assert!(matches!(t.delete(a), Err(GpioError::ResourceInvalidated)));

    // Other handles are untouched, and new handles are fresh: the released
    // one is never reissued.
    assert_eq!(*t.get(b).unwrap(), 20);
    let c = t.push(30);
    assert_ne!(c, a);
    assert!(matches!(t.get(a), Err(GpioError::ResourceInvalidated)));
}

#[test]
fn acquisition_is_fail_closed_on_policy() {
    let mut host = GpioImpl::new(make_policy(vec![make_entry("led", vec![Mode::DigitalOutput], "GPIO4")]));
    let r = host.digital_in_get("led".to_string(), vec![DigitalFlag::ActiveHigh]);
    assert!(matches!(r, Err(GpioError::PinModeNotAllowed)));
    let r = host.digital_in_get("missing".to_string(), vec![DigitalFlag::ActiveHigh]);
    assert!(matches!(r, Err(GpioError::PinModeNotAllowed)));
    let r = host.digital_out_get("missing".to_string(), vec![DigitalFlag::ActiveHigh]);
    assert!(matches!(r, Err(GpioError::PinModeNotAllowed)));
    let r = host.digital_in_out_get("led".to_string(), vec![DigitalFlag::ActiveHigh]);
    assert!(matches!(r, Err(GpioError::PinModeNotAllowed)));
    let r = host.analog_out_get("led".to_string(), vec![AnalogFlag::Pwm]);
    assert!(matches!(r, Err(GpioError::PinModeNotAllowed)));
}

#[test]
fn acquisition_rejects_incompatible_flags() {
    let mut host = GpioImpl::new(
        make_policy(vec![make_entry(
            "pin",
            vec![Mode::DigitalInput, Mode::DigitalOutput, Mode::DigitalInputOutput],
            "GPIO4",
        )]),
    );
    // An input acquisition rejects output-only flags outright.
    let r = host.digital_in_get("pin".to_string(), vec![DigitalFlag::Output]);
    assert!(matches!(r, Err(GpioError::InvalidFlag)));
    let r = host.digital_in_get("pin".to_string(), vec![DigitalFlag::Active]);
    assert!(matches!(r, Err(GpioError::InvalidFlag)));
    // An output acquisition rejects input-only flags outright.
    let r = host.digital_out_get("pin".to_string(), vec![DigitalFlag::PullUp]);
    assert!(matches!(r, Err(GpioError::InvalidFlag)));
    let r = host.digital_out_get("pin".to_string(), vec![DigitalFlag::Input]);
    assert!(matches!(r, Err(GpioError::InvalidFlag)));
    // A direction-switchable acquisition rejects pull and initial-state
    // flags outright.
    let r = host.digital_in_out_get("pin".to_string(), vec![DigitalFlag::Active]);
    assert!(matches!(r, Err(GpioError::InvalidFlag)));
    let r = host.digital_in_out_get("pin".to_string(), vec![DigitalFlag::PullDown]);
    assert!(matches!(r, Err(GpioError::InvalidFlag)));
}

#[test]
fn acquisition_fails_cleanly_without_hardware() {
    // The test host has no GPIO peripheral: a fully authorized, fully
    // validated acquisition still fails at the driver, with an opaque
    // diagnostic, and no handle is issued.
    let mut host = GpioImpl::new(make_policy(vec![make_entry("pin", vec![Mode::DigitalInput], "GPIO4")]));
    let r = host.digital_in_get("pin".to_string(), vec![DigitalFlag::ActiveHigh]);
    assert!(r.is_err());
    assert!(!host.digital_in_is_ready(0));
}

#[test]
fn structurally_unsupported_kinds_are_inert() {
    let mut host = GpioImpl::new(make_policy(vec![make_entry("pin", vec![Mode::AnalogInput], "GPIO4")]));
    let r = host.analog_in_get("pin".to_string(), vec![]);
    assert!(matches!(r, Err(GpioError::PinModeNotAvailable)));
    let r = host.analog_in_out_get("pin".to_string(), vec![]);
    assert!(matches!(r, Err(GpioError::PinModeNotAvailable)));
    let r = host.stateful_digital_out_get("pin".to_string(), vec![DigitalFlag::ActiveHigh]);
    assert!(matches!(r, Err(GpioError::PinModeNotAvailable)));

    // Only the liveness check ever succeeds; every functional operation
    // reports an error.
    assert!(!host.stateful_digital_out_is_ready(0));
    assert!(!host.analog_in_is_ready(0));
    assert!(!host.analog_in_out_is_ready(0));
    assert!(matches!(
        host.stateful_digital_out_set_state(0, PinState::Active),
        Err(GpioError::ResourceInvalidated)
    ));
    assert!(matches!(host.stateful_digital_out_toggle(0), Err(GpioError::ResourceInvalidated)));
    assert!(matches!(host.stateful_digital_out_get_state(0), Err(GpioError::ResourceInvalidated)));
    assert!(matches!(host.analog_in_read_raw(0), Err(GpioError::ResourceInvalidated)));
    assert!(matches!(host.analog_in_watch_above_raw(0, 100), Err(GpioError::ResourceInvalidated)));
    assert!(matches!(host.analog_in_watch_below_raw(0, 100), Err(GpioError::ResourceInvalidated)));
    assert!(matches!(host.analog_in_out_read_raw(0), Err(GpioError::ResourceInvalidated)));
    assert!(matches!(host.analog_in_out_set_value_raw(0, 1), Err(GpioError::ResourceInvalidated)));
    assert!(matches!(
        host.analog_in_out_set_pin_mode(0, PinMode::In),
        Err(GpioError::ResourceInvalidated)
    ));
}

#[test]
fn operations_on_unissued_handles_are_invalid() {
    let mut host = GpioImpl::new(make_policy(vec![]));
    assert!(matches!(host.digital_in_read(7), Err(GpioError::ResourceInvalidated)));
    assert!(matches!(host.digital_in_get_config(7), Err(GpioError::ResourceInvalidated)));
    assert!(matches!(host.digital_in_is_active(7), Err(GpioError::ResourceInvalidated)));
    assert!(matches!(
        host.digital_out_set_state(7, PinState::Active),
        Err(GpioError::ResourceInvalidated)
    ));
    assert!(matches!(host.digital_in_out_read(7), Err(GpioError::ResourceInvalidated)));
    assert!(matches!(
        host.digital_in_out_set_pin_mode(7, PinMode::Out),
        Err(GpioError::ResourceInvalidated)
    ));
    assert!(matches!(host.analog_out_set_value_raw(7, 100), Err(GpioError::ResourceInvalidated)));
    assert!(matches!(host.pollable_ready(7), Err(GpioError::ResourceInvalidated)));
    assert!(matches!(host.watch_state(7, PinState::Active), Err(GpioError::ResourceInvalidated)));
    assert!(matches!(host.watch_rising_edge(7), Err(GpioError::ResourceInvalidated)));
    assert!(matches!(host.digital_in_release(7), Err(GpioError::ResourceInvalidated)));
    assert!(matches!(host.digital_out_release(7), Err(GpioError::ResourceInvalidated)));
    assert!(matches!(host.pollable_release(7), Err(GpioError::ResourceInvalidated)));
}

#[test]
fn released_pollable_reports_resource_invalidated() {
    let mut host = GpioImpl::new(make_policy(vec![]));
    let h = host.pollables.push(Pollable::new(0));
    assert_eq!(host.pollable_ready(h).unwrap(), false);
    assert!(host.pollable_release(h).is_ok());

    // After release, every subsequent operation on the handle reports
    // ResourceInvalidated.
    assert!(matches!(host.pollable_ready(h), Err(GpioError::ResourceInvalidated)));
    assert!(matches!(host.pollable_release(h), Err(GpioError::ResourceInvalidated)));
    assert!(matches!(host.poll(&vec![h]), Err(GpioError::ResourceInvalidated)));
}

#[test]
fn watch_session_lifecycle_through_host() {
    let mut host = GpioImpl::new(make_policy(vec![]));
    let key = WatchEventKey { watch_type: WatchType::High, pin_label: "GPIO4".to_string() };
    let (t, spawned) = host.ctx.watcher.watch_event(key.duplicate());
    assert!(spawned);

    let h = host.pollables.push(Pollable::new(t));
    assert_eq!(host.pollable_ready(h).unwrap(), false);

    // The observing task sees its condition and completes the session: the
    // trigger fires and stays fired.
    host.complete_watch(&key);
    assert_eq!(host.pollable_ready(h).unwrap(), true);
    assert_eq!(host.poll(&vec![h]).unwrap(), vec![0]);
}

#[test]
fn poll_rejects_invalid_handles() {
    let host = GpioImpl::new(make_policy(vec![]));
    let r = host.poll(&vec![0]);
    assert!(matches!(r, Err(GpioError::ResourceInvalidated)));
    let r = host.poll(&vec![]);
    assert_eq!(r.unwrap(), Vec::<u32>::new());
}
