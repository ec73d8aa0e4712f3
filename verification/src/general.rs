//! The shared vocabulary of the capability surface: pin directions, polarity,
//! pull resistors, logical pin states, physical line levels, acquisition
//! flags, and the error kinds every operation can report.

use vstd::prelude::*;

verus! {

/// Direction of a pin: input or output.
#[derive(Clone, Copy, PartialEq, Eq, Structural, Debug)]
pub enum PinMode {
    In,
    Out,
}

/// Polarity mapping between the physical line level and the logical
/// Active/Inactive state of a handle.
#[derive(Clone, Copy, PartialEq, Eq, Structural, Debug)]
pub enum ActiveLevel {
    ActiveHigh,
    ActiveLow,
}

/// Built-in pull resistor selection for an input line.
#[derive(Clone, Copy, PartialEq, Eq, Structural, Debug)]
pub enum PullResistor {
    PullUp,
    PullDown,
}

/// Logical state of a digital pin, as seen through its polarity.
#[derive(Clone, Copy, PartialEq, Eq, Structural, Debug)]
pub enum PinState {
    Active,
    Inactive,
}

impl PinState {
    /// The opposite logical state.
    pub fn not(self) -> (r: Self)
        ensures
            r == self.spec_not(),
    {
        match self {
            PinState::Active => PinState::Inactive,
            PinState::Inactive => PinState::Active,
        }
    }

    pub open spec fn spec_not(self) -> Self {
        match self {
            PinState::Active => PinState::Inactive,
            PinState::Inactive => PinState::Active,
        }
    }
}

/// Electrical level of a physical line.
#[derive(Clone, Copy, PartialEq, Eq, Structural, Debug)]
pub enum Level {
    Low,
    High,
}

impl Level {
    /// The opposite electrical level.
    pub fn not(self) -> (r: Self)
        ensures
            r == self.spec_not(),
    {
        match self {
            Level::Low => Level::High,
            Level::High => Level::Low,
        }
    }

    pub open spec fn spec_not(self) -> Self {
        match self {
            Level::Low => Level::High,
            Level::High => Level::Low,
        }
    }
}

/// How an analog output drives its line.
#[derive(Clone, Copy, PartialEq, Eq, Structural, Debug)]
pub enum OutputMode {
    Pwm,
}

/// Flags a guest may attach to a digital acquisition request.
#[derive(Clone, Copy, PartialEq, Eq, Structural, Debug)]
pub enum DigitalFlag {
    Active,
    Inactive,
    ActiveHigh,
    ActiveLow,
    PullUp,
    PullDown,
    Input,
    Output,
}

/// Flags a guest may attach to an analog acquisition request.
#[derive(Clone, Copy, PartialEq, Eq, Structural, Debug)]
pub enum AnalogFlag {
    Pwm,
    Dac,
}

/// Every failure the capability surface can report.
#[derive(Debug)]
pub enum GpioError {
    /// The policy does not grant the requested mode for this virtual label.
    PinModeNotAllowed,
    /// The capability is structurally unsupported on this hardware target.
    PinModeNotAvailable,
    /// The flag set fails builder validation.
    InvalidFlag,
    /// The handle was released, or never was valid.
    ResourceInvalidated,
    /// An opaque driver or I/O failure.
    Other(String),
}

} // verus!
