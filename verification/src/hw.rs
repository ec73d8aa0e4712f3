//! Thin trusted layer over the physical pin driver (the `rppal` crate) and
//! the one piece of `std` synchronization the shared input path needs. Every
//! item here is believed, not proved: each wrapper makes exactly the call its
//! doc comment names and converts values one for one. Driver failures are
//! surfaced as their diagnostic text; nothing is promised of a sampled level,
//! since it depends on the electrical state of the line.

use vstd::prelude::*;
use crate::general::{Level, PinMode};
use crate::util::Shared;

verus! {

#[verifier::external_type_specification]
#[verifier::external_body]
pub struct ExGpio(rppal::gpio::Gpio);

#[verifier::external_type_specification]
#[verifier::external_body]
pub struct ExPin(rppal::gpio::Pin);

#[verifier::external_type_specification]
#[verifier::external_body]
pub struct ExInputPin(rppal::gpio::InputPin);

#[verifier::external_type_specification]
#[verifier::external_body]
pub struct ExOutputPin(rppal::gpio::OutputPin);

#[verifier::external_type_specification]
#[verifier::external_body]
pub struct ExIoPin(rppal::gpio::IoPin);

#[verifier::external_type_specification]
#[verifier::external_body]
#[verifier::reject_recursive_types(T)]
pub struct ExMutex<T: ?Sized>(std::sync::Mutex<T>);

/// Relies on std::sync::Mutex::new: wraps a value in a new mutex.
#[verifier::external_body]
pub fn mutex_new<T>(t: T) -> std::sync::Mutex<T> {
    std::sync::Mutex::new(t)
}

/// Relies on Arc::clone: returns another handle to the same shared value.
#[verifier::external_body]
pub fn share<T>(s: &Shared<T>) -> (r: Shared<T>)
    ensures
        r == *s,
{
    s.clone()
}

/// Relies on rppal::gpio::Gpio::new: opens the GPIO peripheral, reporting the
/// driver's diagnostic text on failure.
#[verifier::external_body]
pub fn gpio_new() -> Result<rppal::gpio::Gpio, String> {
    match rppal::gpio::Gpio::new() {
        Ok(g) => Ok(g),
        Err(e) => Err(e.to_string()),
    }
}

/// Relies on rppal::gpio::Gpio::get: claims the line with the given BCM
/// number, reporting the driver's diagnostic text if it is unavailable or
/// already taken.
#[verifier::external_body]
pub fn gpio_get(gpio: &rppal::gpio::Gpio, pin: u8) -> Result<rppal::gpio::Pin, String> {
    match gpio.get(pin) {
        Ok(p) => Ok(p),
        Err(e) => Err(e.to_string()),
    }
}

/// Relies on rppal::gpio::Pin::into_output: converts the line to an output,
/// leaving its level unchanged.
#[verifier::external_body]
pub fn pin_into_output(pin: rppal::gpio::Pin) -> rppal::gpio::OutputPin {
    pin.into_output()
}

/// Relies on rppal::gpio::Pin::into_output_low: drives the line low, then
/// converts it to an output.
#[verifier::external_body]
pub fn pin_into_output_low(pin: rppal::gpio::Pin) -> rppal::gpio::OutputPin {
    pin.into_output_low()
}

/// Relies on rppal::gpio::Pin::into_output_high: drives the line high, then
/// converts it to an output.
#[verifier::external_body]
pub fn pin_into_output_high(pin: rppal::gpio::Pin) -> rppal::gpio::OutputPin {
    pin.into_output_high()
}

/// Relies on rppal::gpio::Pin::into_input: converts the line to an input with
/// the built-in pull resistors disabled.
#[verifier::external_body]
pub fn pin_into_input(pin: rppal::gpio::Pin) -> rppal::gpio::InputPin {
    pin.into_input()
}

/// Relies on rppal::gpio::Pin::into_input_pullup: converts the line to an
/// input with the built-in pull-up resistor enabled.
#[verifier::external_body]
pub fn pin_into_input_pullup(pin: rppal::gpio::Pin) -> rppal::gpio::InputPin {
    pin.into_input_pullup()
}

/// Relies on rppal::gpio::Pin::into_input_pulldown: converts the line to an
/// input with the built-in pull-down resistor enabled.
#[verifier::external_body]
pub fn pin_into_input_pulldown(pin: rppal::gpio::Pin) -> rppal::gpio::InputPin {
    pin.into_input_pulldown()
}

/// Relies on rppal::gpio::Pin::into_io: converts the line to an
/// input/output pin in the given starting direction.
#[verifier::external_body]
pub fn pin_into_io(pin: rppal::gpio::Pin, mode: PinMode) -> rppal::gpio::IoPin {
    pin.into_io(
        match mode {
            PinMode::In => rppal::gpio::Mode::Input,
            PinMode::Out => rppal::gpio::Mode::Output,
        },
    )
}

/// Relies on std::sync::Mutex::lock and rppal::gpio::InputPin::read: samples
/// the electrical level of the shared line. The result depends on the state
/// of the line, so nothing is promised of it.
#[verifier::external_body]
pub fn input_read(pin: &Shared<rppal::gpio::InputPin>) -> Level {
    let level = match pin.lock() {
        Ok(guard) => guard.read(),
        Err(poisoned) => poisoned.into_inner().read(),
    };
    match level {
        rppal::gpio::Level::Low => Level::Low,
        rppal::gpio::Level::High => Level::High,
    }
}

/// Relies on rppal::gpio::OutputPin::write: drives the line to the given
/// electrical level.
#[verifier::external_body]
pub fn output_write(pin: &mut rppal::gpio::OutputPin, level: Level) {
    pin.write(
        match level {
            Level::Low => rppal::gpio::Level::Low,
            Level::High => rppal::gpio::Level::High,
        },
    );
}

/// Relies on rppal::gpio::OutputPin::set_pwm: configures a software PWM
/// signal with the given period and pulse width, both in nanoseconds,
/// reporting the driver's diagnostic text on failure.
#[verifier::external_body]
pub fn output_set_pwm(
    pin: &mut rppal::gpio::OutputPin,
    period_ns: u64,
    pulse_ns: u64,
) -> Result<(), String> {
    match pin.set_pwm(
        core::time::Duration::from_nanos(period_ns),
        core::time::Duration::from_nanos(pulse_ns),
    ) {
        Ok(()) => Ok(()),
        Err(e) => Err(e.to_string()),
    }
}

/// Relies on rppal::gpio::IoPin::read: samples the electrical level of the
/// line. The result depends on the state of the line, so nothing is promised
/// of it.
#[verifier::external_body]
pub fn io_read(pin: &rppal::gpio::IoPin) -> Level {
    match pin.read() {
        rppal::gpio::Level::Low => Level::Low,
        rppal::gpio::Level::High => Level::High,
    }
}

/// Relies on rppal::gpio::IoPin::write: drives the line to the given
/// electrical level.
#[verifier::external_body]
pub fn io_write(pin: &mut rppal::gpio::IoPin, level: Level) {
    pin.write(
        match level {
            Level::Low => rppal::gpio::Level::Low,
            Level::High => rppal::gpio::Level::High,
        },
    );
}

/// Relies on rppal::gpio::IoPin::set_mode: switches the direction of the
/// line.
#[verifier::external_body]
pub fn io_set_mode(pin: &mut rppal::gpio::IoPin, mode: PinMode) {
    pin.set_mode(
        match mode {
            PinMode::In => rppal::gpio::Mode::Input,
            PinMode::Out => rppal::gpio::Mode::Output,
        },
    );
}

} // verus!
