//! Analog pin configuration and handles. On this hardware target only PWM
//! output is available: analog input is a fixed capability gap, visible in
//! the surface but inert.

use vstd::prelude::*;
use crate::general::{AnalogFlag, GpioError, OutputMode, PinMode};
use crate::hw;

verus! {

/// Largest raw duty value: raw values map onto duty fractions 0..=1 over
/// 0..=PWM_MAX.
pub const PWM_MAX: u32 = 4095;

/// Period of the PWM signal in nanoseconds: a fixed 1 kHz cycle.
pub const PWM_PERIOD_NS: u64 = 1_000_000;

/// A validated analog pin configuration.
pub struct AnalogConfig {
    pub label: String,
    pub pin_mode: PinMode,
    pub output_mode: Option<OutputMode>,
}

impl AnalogConfig {
    /// A field-by-field copy, equal to the original.
    pub fn duplicate(&self) -> (r: AnalogConfig)
        ensures
            r == *self,
    {
        AnalogConfig {
            label: self.label.clone(),
            pin_mode: self.pin_mode,
            output_mode: self.output_mode,
        }
    }
}

/// True iff some flag in `flags` also occurs in `bad`.
pub open spec fn spec_contains_any_analog(flags: Seq<AnalogFlag>, bad: Seq<AnalogFlag>) -> bool {
    exists|i: int| 0 <= i < flags.len() && bad.contains(#[trigger] flags[i])
}

/// Rejects a request whose flag set contains any flag that is structurally
/// incompatible with the handle kind being acquired.
pub fn check_invalid_flags(flags: &Vec<AnalogFlag>, disallowed_flags: Vec<AnalogFlag>) -> (r:
    Result<(), ()>)
    ensures
        r is Ok <==> !spec_contains_any_analog(flags@, disallowed_flags@),
{
    let n = flags.len();
    let mut i: usize = 0;
    while i < n
        invariant
            n == flags@.len(),
            i <= n,
            forall|k: int| 0 <= k < i ==> !disallowed_flags@.contains(#[trigger] flags@[k]),
        decreases n - i,
    {
        let m = disallowed_flags.len();
        let mut j: usize = 0;
        while j < m
            invariant
                0 <= i < flags@.len(),
                m == disallowed_flags@.len(),
                j <= m,
                forall|l: int| 0 <= l < j ==> disallowed_flags@[l] != flags@[i as int],
            decreases m - j,
        {
            if disallowed_flags[j] == flags[i] {
                assert(disallowed_flags@.contains(flags@[i as int]));
                return Err(());
            }
            j += 1;
        }
        assert(!disallowed_flags@.contains(flags@[i as int]));
        i += 1;
    }
    Ok(())
}

/// Accumulates analog flags into a configuration, then validates the whole.
pub struct AnalogConfigBuilder {
    pub label: String,
    pub pin_mode: PinMode,
    pub output_mode: Option<OutputMode>,
}

/// The effect of a whole analog flag list: only the PWM flag is recognized,
/// and it selects PWM output.
pub open spec fn spec_apply_analog_flags(b: AnalogConfigBuilder, fs: Seq<AnalogFlag>) -> (
    AnalogConfigBuilder)
    decreases fs.len(),
{
    if fs.len() == 0 {
        b
    } else {
        let prev = spec_apply_analog_flags(b, fs.drop_last());
        if fs.last() == AnalogFlag::Pwm {
            AnalogConfigBuilder { output_mode: Some(OutputMode::Pwm), ..prev }
        } else {
            prev
        }
    }
}

/// Validation outcome of an analog builder: output requires an output mode;
/// input is categorically unavailable on this target, whatever the flags.
pub open spec fn spec_build_analog(b: AnalogConfigBuilder) -> Result<AnalogConfig, GpioError> {
    match b.pin_mode {
        PinMode::Out => if b.output_mode is None {
            Err(GpioError::InvalidFlag)
        } else {
            Ok(AnalogConfig { label: b.label, pin_mode: b.pin_mode, output_mode: b.output_mode })
        },
        PinMode::In => Err(GpioError::PinModeNotAvailable),
    }
}

impl AnalogConfigBuilder {
    pub fn new(label: String, pin_mode: PinMode) -> (r: Self)
        ensures
            r.label == label,
            r.pin_mode == pin_mode,
            r.output_mode is None,
    {
        Self { label, pin_mode, output_mode: None }
    }

    /// Folds a flag list into the builder: the PWM flag selects PWM output,
    /// every other flag is ignored here.
    pub fn add_flags(self, flags: Vec<AnalogFlag>) -> (r: Self)
        ensures
            r == spec_apply_analog_flags(self, flags@),
    {
        let ghost orig = self;
        let mut b = self;
        let n = flags.len();
        let mut i: usize = 0;
        while i < n
            invariant
                n == flags@.len(),
                i <= n,
                b == spec_apply_analog_flags(orig, flags@.take(i as int)),
            decreases n - i,
        {
            proof {
                assert(flags@.take(i + 1).drop_last() =~= flags@.take(i as int));
                assert(flags@.take(i + 1).last() == flags@[i as int]);
            }
            if flags[i] == AnalogFlag::Pwm {
                b.output_mode = Some(OutputMode::Pwm);
            }
            i += 1;
        }
        proof {
            assert(flags@.take(n as int) =~= flags@);
        }
        b
    }

    /// Validates the accumulated configuration: output mode is mandatory for
    /// an output, and input always fails with PinModeNotAvailable.
    pub fn build(self) -> (r: Result<AnalogConfig, GpioError>)
        ensures
            r == spec_build_analog(self),
    {
        match self.pin_mode {
            PinMode::Out => {
                if self.output_mode.is_none() {
                    return Err(GpioError::InvalidFlag);
                }
            },
            PinMode::In => {
                return Err(GpioError::PinModeNotAvailable);
            },
        }

        Ok(
            AnalogConfig {
                label: self.label,
                pin_mode: self.pin_mode,
                output_mode: self.output_mode,
            },
        )
    }
}

/// The raw duty value actually used: values above PWM_MAX saturate to
/// PWM_MAX, never an error.
pub open spec fn spec_saturate(value: u32) -> u32 {
    if value > PWM_MAX {
        PWM_MAX
    } else {
        value
    }
}

/// The PWM pulse width in nanoseconds for a raw duty value: the saturated
/// value rescaled onto one full period, so 0 gives a 0 fraction and PWM_MAX
/// gives the whole period, fraction 1.
pub open spec fn spec_pulse_ns(value: u32) -> u64 {
    ((spec_saturate(value) as int) * (PWM_PERIOD_NS as int) / (PWM_MAX as int)) as u64
}

/// Saturates a raw duty value to the representable range.
pub fn saturate_raw(value: u32) -> (r: u32)
    ensures
        r == spec_saturate(value),
{
    if value > PWM_MAX {
        PWM_MAX
    } else {
        value
    }
}

/// The pulse width driven for a raw duty value.
pub fn pulse_width_ns(value: u32) -> (r: u64)
    ensures
        r == spec_pulse_ns(value),
        r <= PWM_PERIOD_NS,
{
    let duty = saturate_raw(value) as u64;
    duty * PWM_PERIOD_NS / (PWM_MAX as u64)
}

/// Structurally present but hardware-unsupported on this target.
pub struct AnalogInPin {}

/// Structurally present but hardware-unsupported on this target.
pub struct AnalogInOutPin {}

/// An analog output handle: the exclusively owned physical line, driven by
/// PWM, plus its configuration.
pub struct AnalogOutPin {
    pub pin: rppal::gpio::OutputPin,
    pub config: AnalogConfig,
}

impl AnalogOutPin {
    pub fn new(pin: rppal::gpio::OutputPin, config: AnalogConfig) -> (r: Self)
        ensures
            r.config == config,
    {
        Self { pin, config }
    }

    pub fn get_config(&self) -> (r: AnalogConfig)
        ensures
            r == self.config,
    {
        self.config.duplicate()
    }

    /// Drives the line with a 1 kHz PWM signal whose pulse width realizes
    /// the saturated raw duty value; a value above PWM_MAX behaves exactly
    /// as PWM_MAX. A driver failure is reported as its diagnostic text.
    pub fn set_value_raw(&mut self, value: u32) -> (r: Result<(), GpioError>)
        ensures
            final(self).config == old(self).config,
            r matches Err(e) ==> e is Other,
    {
        let pulse = pulse_width_ns(value);
        match hw::output_set_pwm(&mut self.pin, PWM_PERIOD_NS, pulse) {
            Ok(()) => Ok(()),
            Err(msg) => Err(GpioError::Other(msg)),
        }
    }
}

} // verus!
