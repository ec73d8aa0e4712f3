//! Digital pin configuration and handles: flag validation, the
//! configuration builder, polarity translation between logical states and
//! electrical levels, and the three digital handle kinds.

use vstd::prelude::*;
use crate::general::{ActiveLevel, DigitalFlag, GpioError, Level, PinMode, PinState, PullResistor};
use crate::hw;
use crate::util::{Shared, SharedExt};

verus! {

/// A validated digital pin configuration.
pub struct DigitalConfig {
    pub label: String,
    pub pin_mode: PinMode,
    pub active_level: ActiveLevel,
    pub pull_resistor: Option<PullResistor>,
}

impl DigitalConfig {
    /// A field-by-field copy, equal to the original.
    pub fn duplicate(&self) -> (r: DigitalConfig)
        ensures
            r == *self,
    {
        DigitalConfig {
            label: self.label.clone(),
            pin_mode: self.pin_mode,
            active_level: self.active_level,
            pull_resistor: self.pull_resistor,
        }
    }
}

/// The logical state a handle with polarity `al` reports when its line is at
/// electrical level `level`.
pub open spec fn spec_logical_of(level: Level, al: ActiveLevel) -> PinState {
    match (level, al) {
        (Level::High, ActiveLevel::ActiveHigh) => PinState::Active,
        (Level::Low, ActiveLevel::ActiveHigh) => PinState::Inactive,
        (Level::High, ActiveLevel::ActiveLow) => PinState::Inactive,
        (Level::Low, ActiveLevel::ActiveLow) => PinState::Active,
    }
}

/// The electrical level a handle with polarity `al` drives to reach logical
/// state `state`.
pub open spec fn spec_physical_of(state: PinState, al: ActiveLevel) -> Level {
    match (state, al) {
        (PinState::Active, ActiveLevel::ActiveHigh) => Level::High,
        (PinState::Inactive, ActiveLevel::ActiveHigh) => Level::Low,
        (PinState::Active, ActiveLevel::ActiveLow) => Level::Low,
        (PinState::Inactive, ActiveLevel::ActiveLow) => Level::High,
    }
}

/// Converts a sampled electrical level to the logical state seen through the
/// given polarity: direct for active-high, inverted for active-low.
pub fn logical_of(level: Level, al: ActiveLevel) -> (r: PinState)
    ensures
        r == spec_logical_of(level, al),
{
    let state = match level {
        Level::Low => PinState::Inactive,
        Level::High => PinState::Active,
    };
    match al {
        ActiveLevel::ActiveHigh => state,
        ActiveLevel::ActiveLow => state.not(),
    }
}

/// Converts a requested logical state to the electrical level to drive:
/// logical Active always maps to the wired-active level.
pub fn physical_of(state: PinState, al: ActiveLevel) -> (r: Level)
    ensures
        r == spec_physical_of(state, al),
{
    let state = match al {
        ActiveLevel::ActiveHigh => state,
        ActiveLevel::ActiveLow => state.not(),
    };
    match state {
        PinState::Active => Level::High,
        PinState::Inactive => Level::Low,
    }
}

/// True iff some flag in `flags` also occurs in `bad`.
pub open spec fn spec_contains_any(flags: Seq<DigitalFlag>, bad: Seq<DigitalFlag>) -> bool {
    exists|i: int| 0 <= i < flags.len() && bad.contains(#[trigger] flags[i])
}

/// Rejects a request whose flag set contains any flag that is structurally
/// incompatible with the handle kind being acquired.
pub fn check_invalid_flags(flags: &Vec<DigitalFlag>, disallowed_flags: Vec<DigitalFlag>) -> (r:
    Result<(), ()>)
    ensures
        r is Ok <==> !spec_contains_any(flags@, disallowed_flags@),
{
    let n = flags.len();
    let mut i: usize = 0;
    while i < n
        invariant
            n == flags@.len(),
            i <= n,
            forall|k: int| 0 <= k < i ==> !disallowed_flags@.contains(#[trigger] flags@[k]),
        decreases n - i,
    {
        let m = disallowed_flags.len();
        let mut j: usize = 0;
        while j < m
            invariant
                0 <= i < flags@.len(),
                m == disallowed_flags@.len(),
                j <= m,
                forall|l: int| 0 <= l < j ==> disallowed_flags@[l] != flags@[i as int],
            decreases m - j,
        {
            if disallowed_flags[j] == flags[i] {
                assert(disallowed_flags@.contains(flags@[i as int]));
                return Err(());
            }
            j += 1;
        }
        assert(!disallowed_flags@.contains(flags@[i as int]));
        i += 1;
    }
    Ok(())
}

/// Accumulates digital flags into a configuration, then validates the whole.
/// When conflicting polarity or pull flags are supplied, the last one wins;
/// this resolution is deliberate and part of the contract.
pub struct DigitalConfigBuilder {
    pub label: String,
    pub pin_mode: PinMode,
    pub active_level: Option<ActiveLevel>,
    pub pull_resistor: Option<PullResistor>,
}

/// The effect of one flag on the builder: polarity and pull flags record
/// their setting, every other flag is ignored here.
pub open spec fn spec_apply_flag(b: DigitalConfigBuilder, f: DigitalFlag) -> DigitalConfigBuilder {
    match f {
        DigitalFlag::ActiveHigh => DigitalConfigBuilder {
            active_level: Some(ActiveLevel::ActiveHigh),
            ..b
        },
        DigitalFlag::ActiveLow => DigitalConfigBuilder {
            active_level: Some(ActiveLevel::ActiveLow),
            ..b
        },
        DigitalFlag::PullUp => DigitalConfigBuilder {
            pull_resistor: Some(PullResistor::PullUp),
            ..b
        },
        DigitalFlag::PullDown => DigitalConfigBuilder {
            pull_resistor: Some(PullResistor::PullDown),
            ..b
        },
        _ => b,
    }
}

/// The effect of a whole flag list, applied left to right.
pub open spec fn spec_apply_flags(b: DigitalConfigBuilder, fs: Seq<DigitalFlag>) -> (
    DigitalConfigBuilder)
    decreases fs.len(),
{
    if fs.len() == 0 {
        b
    } else {
        spec_apply_flag(spec_apply_flags(b, fs.drop_last()), fs.last())
    }
}

/// Validation outcome of a builder: polarity is mandatory, and an output
/// must not carry a pull resistor.
pub open spec fn spec_build(b: DigitalConfigBuilder) -> Result<DigitalConfig, GpioError> {
    match b.active_level {
        None => Err(GpioError::InvalidFlag),
        Some(active_level) => if b.pin_mode == PinMode::Out && b.pull_resistor is Some {
            Err(GpioError::InvalidFlag)
        } else {
            Ok(
                DigitalConfig {
                    label: b.label,
                    pin_mode: b.pin_mode,
                    active_level,
                    pull_resistor: b.pull_resistor,
                },
            )
        },
    }
}

impl DigitalConfigBuilder {
    pub fn new(label: String, pin_mode: PinMode) -> (r: Self)
        ensures
            r.label == label,
            r.pin_mode == pin_mode,
            r.active_level is None,
            r.pull_resistor is None,
    {
        Self { label, pin_mode, active_level: None, pull_resistor: None }
    }

    fn add_active_level(&mut self, active_level: ActiveLevel)
        ensures
            *final(self) == (DigitalConfigBuilder {
                active_level: Some(active_level),
                ..*old(self)
            }),
    {
        self.active_level = Some(active_level);
    }

    fn add_pull_resistor(&mut self, pull_resistor: PullResistor)
        ensures
            *final(self) == (DigitalConfigBuilder {
                pull_resistor: Some(pull_resistor),
                ..*old(self)
            }),
    {
        self.pull_resistor = Some(pull_resistor)
    }

    /// Folds a flag list into the builder, left to right; of conflicting
    /// flags the last wins.
    pub fn add_flags(self, flags: Vec<DigitalFlag>) -> (r: Self)
        ensures
            r == spec_apply_flags(self, flags@),
    {
        let ghost orig = self;
        let mut b = self;
        let n = flags.len();
        let mut i: usize = 0;
        while i < n
            invariant
                n == flags@.len(),
                i <= n,
                b == spec_apply_flags(orig, flags@.take(i as int)),
            decreases n - i,
        {
            proof {
                assert(flags@.take(i + 1).drop_last() =~= flags@.take(i as int));
                assert(flags@.take(i + 1).last() == flags@[i as int]);
            }
            let flag = flags[i];
            if flag == DigitalFlag::ActiveHigh {
                b.add_active_level(ActiveLevel::ActiveHigh);
            } else if flag == DigitalFlag::ActiveLow {
                b.add_active_level(ActiveLevel::ActiveLow);
            } else if flag == DigitalFlag::PullUp {
                b.add_pull_resistor(PullResistor::PullUp);
            } else if flag == DigitalFlag::PullDown {
                b.add_pull_resistor(PullResistor::PullDown);
            }
            i += 1;
        }
        proof {
            assert(flags@.take(n as int) =~= flags@);
        }
        b
    }

    /// Validates the accumulated configuration: fails with InvalidFlag if no
    /// polarity was ever supplied, or if an output carries a pull resistor.
    pub fn build(self) -> (r: Result<DigitalConfig, GpioError>)
        ensures
            r == spec_build(self),
    {
        let active_level = match self.active_level {
            Some(active_level) => active_level,
            None => {
                return Err(GpioError::InvalidFlag);
            },
        };

        match self.pin_mode {
            PinMode::In => {},
            PinMode::Out => {
                if self.pull_resistor.is_some() {
                    return Err(GpioError::InvalidFlag);
                }
            },
        }

        Ok(
            DigitalConfig {
                label: self.label,
                pin_mode: self.pin_mode,
                active_level,
                pull_resistor: self.pull_resistor,
            },
        )
    }
}

/// True iff `fs` supplies a polarity at some position.
pub open spec fn spec_has_active_flag(fs: Seq<DigitalFlag>) -> bool {
    exists|i: int|
        0 <= i < fs.len() && (fs[i] == DigitalFlag::ActiveHigh || #[trigger] fs[i]
            == DigitalFlag::ActiveLow)
}

/// True iff `fs` supplies a pull resistor at some position.
pub open spec fn spec_has_pull_flag(fs: Seq<DigitalFlag>) -> bool {
    exists|i: int|
        0 <= i < fs.len() && (fs[i] == DigitalFlag::PullUp || #[trigger] fs[i]
            == DigitalFlag::PullDown)
}

proof fn lemma_apply_flags_fields(b: DigitalConfigBuilder, fs: Seq<DigitalFlag>)
    ensures
        spec_apply_flags(b, fs).label == b.label,
        spec_apply_flags(b, fs).pin_mode == b.pin_mode,
        spec_apply_flags(b, fs).active_level is Some <==> (b.active_level is Some
            || spec_has_active_flag(fs)),
        spec_apply_flags(b, fs).pull_resistor is Some <==> (b.pull_resistor is Some
            || spec_has_pull_flag(fs)),
    decreases fs.len(),
{
    if fs.len() > 0 {
        lemma_apply_flags_fields(b, fs.drop_last());
        if spec_has_active_flag(fs.drop_last()) {
            let i = choose|i: int|
                0 <= i < fs.drop_last().len() && (fs.drop_last()[i] == DigitalFlag::ActiveHigh
                    || #[trigger] fs.drop_last()[i] == DigitalFlag::ActiveLow);
            assert(fs[i] == fs.drop_last()[i]);
        }
        if spec_has_pull_flag(fs.drop_last()) {
            let i = choose|i: int|
                0 <= i < fs.drop_last().len() && (fs.drop_last()[i] == DigitalFlag::PullUp
                    || #[trigger] fs.drop_last()[i] == DigitalFlag::PullDown);
            assert(fs[i] == fs.drop_last()[i]);
        }
        if spec_has_active_flag(fs) && !spec_has_active_flag(fs.drop_last()) {
            let i = choose|i: int|
                0 <= i < fs.len() && (fs[i] == DigitalFlag::ActiveHigh || #[trigger] fs[i]
                    == DigitalFlag::ActiveLow);
            if i < fs.len() - 1 {
                assert(fs.drop_last()[i] == fs[i]);
            }
        }
        if spec_has_pull_flag(fs) && !spec_has_pull_flag(fs.drop_last()) {
            let i = choose|i: int|
                0 <= i < fs.len() && (fs[i] == DigitalFlag::PullUp || #[trigger] fs[i]
                    == DigitalFlag::PullDown);
            if i < fs.len() - 1 {
                assert(fs.drop_last()[i] == fs[i]);
            }
        }
    }
}

/// Law: a digital configuration built from a fresh builder is valid iff the
/// flag list supplies a polarity, and an Out-mode request carrying any
/// pull-resistor flag is always rejected.
pub proof fn lemma_digital_build_valid(label: String, pin_mode: PinMode, fs: Seq<DigitalFlag>)
    ensures
        spec_build(
            spec_apply_flags(
                DigitalConfigBuilder {
                    label,
                    pin_mode,
                    active_level: None,
                    pull_resistor: None,
                },
                fs,
            ),
        ) is Ok <==> (spec_has_active_flag(fs) && !(pin_mode == PinMode::Out
            && spec_has_pull_flag(fs))),
{
    let b = DigitalConfigBuilder { label, pin_mode, active_level: None, pull_resistor: None };
    lemma_apply_flags_fields(b, fs);
}

/// A digital input handle: the shared physical line plus its configuration.
/// The line is shared because observing tasks sample it concurrently with
/// the owning handle.
pub struct DigitalInPin {
    pub pin: Shared<rppal::gpio::InputPin>,
    pub config: DigitalConfig,
}

impl DigitalInPin {
    /// Claims the line as an input, with the pull resistor the configuration
    /// asks for.
    pub fn new(pin: rppal::gpio::Pin, config: DigitalConfig) -> (r: Self)
        ensures
            r.config == config,
    {
        let ipin = match config.pull_resistor {
            Some(PullResistor::PullDown) => hw::pin_into_input_pulldown(pin),
            Some(PullResistor::PullUp) => hw::pin_into_input_pullup(pin),
            None => hw::pin_into_input(pin),
        };
        Self { pin: Shared::make_shared(ipin), config }
    }

    pub fn get_config(&self) -> (r: &DigitalConfig)
        ensures
            r == &self.config,
    {
        &self.config
    }

    /// Samples the line and reports the logical state seen through this
    /// handle's polarity: whatever level was sampled, the result is its
    /// image under `spec_logical_of`.
    pub fn read(&self) -> (r: PinState)
        ensures
            exists|level: Level| r == spec_logical_of(level, self.config.active_level),
    {
        let level = hw::input_read(&self.pin);
        logical_of(level, self.config.active_level)
    }

    /// Another handle to the same shared line, for an observing task.
    pub fn clone_pin(&self) -> (r: Shared<rppal::gpio::InputPin>)
        ensures
            r == self.pin,
    {
        hw::share(&self.pin)
    }
}

/// A digital output handle: the exclusively owned physical line plus its
/// configuration.
pub struct DigitalOutPin {
    pub pin: rppal::gpio::OutputPin,
    pub config: DigitalConfig,
}

impl DigitalOutPin {
    /// Claims the line as an output. When an initial logical state is
    /// requested, the line is driven to that state's electrical level, as
    /// seen through the configured polarity, before the handle exists;
    /// otherwise the level is left unchanged.
    pub fn new(pin: rppal::gpio::Pin, config: DigitalConfig, pin_state: Option<PinState>) -> (r:
        Self)
        ensures
            r.config == config,
    {
        let pin = match pin_state {
            None => hw::pin_into_output(pin),
            Some(state) => match physical_of(state, config.active_level) {
                Level::Low => hw::pin_into_output_low(pin),
                Level::High => hw::pin_into_output_high(pin),
            },
        };

        Self { pin, config }
    }

    pub fn get_config(&self) -> (r: &DigitalConfig)
        ensures
            r == &self.config,
    {
        &self.config
    }

    /// Drives the line to the electrical level that realizes the requested
    /// logical state through this handle's polarity.
    pub fn write(&mut self, pin_state: PinState)
        ensures
            final(self).config == old(self).config,
    {
        let level = physical_of(pin_state, self.config.active_level);
        hw::output_write(&mut self.pin, level);
    }
}

/// A digital handle whose direction can be switched after creation.
pub struct DigitalInOutPin {
    pub pin: rppal::gpio::IoPin,
    pub config: DigitalConfig,
}

impl DigitalInOutPin {
    /// Claims the line in the requested starting direction.
    pub fn new(pin: rppal::gpio::Pin, config: DigitalConfig, pin_mode: PinMode) -> (r: Self)
        ensures
            r.config == config,
    {
        Self { pin: hw::pin_into_io(pin, pin_mode), config }
    }

    pub fn get_config(&self) -> (r: &DigitalConfig)
        ensures
            r == &self.config,
    {
        &self.config
    }

    /// Drives the line to the electrical level that realizes the requested
    /// logical state through this handle's polarity.
    pub fn write(&mut self, pin_state: PinState)
        ensures
            final(self).config == old(self).config,
    {
        let level = physical_of(pin_state, self.config.active_level);
        hw::io_write(&mut self.pin, level);
    }

    /// Samples the line and reports the logical state seen through this
    /// handle's polarity.
    pub fn read(&self) -> (r: PinState)
        ensures
            exists|level: Level| r == spec_logical_of(level, self.config.active_level),
    {
        let level = hw::io_read(&self.pin);
        logical_of(level, self.config.active_level)
    }

    /// Switches the direction of the line.
    pub fn set_pin_mode(&mut self, mode: PinMode)
        ensures
            final(self).config == old(self).config,
    {
        hw::io_set_mode(&mut self.pin, mode);
    }
}

/// Structurally present but hardware-unsupported on this target: every
/// functional operation on it reports an unavailable error.
pub struct StatefulDigitalOutPin {}

} // verus!
