//! The capability surface the guest sees, implemented over the context and
//! verified handle tables. Each acquisition authorizes against the policy,
//! validates the flag set, resolves and claims the physical line, and only
//! then issues a handle; on any failure nothing is issued and nothing
//! changes. Every operation on a released handle reports
//! ResourceInvalidated.

use vstd::prelude::*;
use crate::analog::{AnalogConfig, AnalogConfigBuilder, AnalogOutPin};
use crate::analog::{spec_apply_analog_flags, spec_build_analog, spec_contains_any_analog};
use crate::ctx::WasiGpioCtx;
use crate::digital::{
    check_invalid_flags, spec_apply_flags, spec_build, spec_contains_any, spec_logical_of,
    DigitalConfig, DigitalConfigBuilder, DigitalInOutPin, DigitalInPin, DigitalOutPin,
};
use crate::general::{AnalogFlag, DigitalFlag, GpioError, Level, PinMode, PinState};
use crate::hw;
use crate::policies::{spec_parse_gpio, parse_gpio_label, Mode, Policies};
use crate::poll::Pollable;
use crate::table::HandleTable;
use crate::util::Shared;
use crate::watch_event::{
    rising_watch, falling_watch, state_watch, watch_event_post, WatchEventKey, WatchType,
};

verus! {

/// A request for one observing task: the key its session was registered
/// under, and a handle on the shared line to sample. The session is already
/// in the registry when this exists; the embedding host starts the task,
/// which runs the watch state machine and then completes the key.
pub struct PendingWatch {
    pub key: WatchEventKey,
    pub pin: Shared<rppal::gpio::InputPin>,
}

/// The host-side GPIO implementation: policy and watch context plus one
/// handle table per resource kind.
pub struct GpioImpl {
    pub ctx: WasiGpioCtx,
    pub digital_in: HandleTable<DigitalInPin>,
    pub digital_out: HandleTable<DigitalOutPin>,
    pub digital_in_out: HandleTable<DigitalInOutPin>,
    pub analog_out: HandleTable<AnalogOutPin>,
    pub pollables: HandleTable<Pollable>,
}

/// The configuration a digital acquisition with these inputs validates to.
pub open spec fn spec_digital_config(
    label: String,
    pin_mode: PinMode,
    flags: Seq<DigitalFlag>,
) -> Result<DigitalConfig, GpioError> {
    spec_build(
        spec_apply_flags(
            DigitalConfigBuilder { label, pin_mode, active_level: None, pull_resistor: None },
            flags,
        ),
    )
}

/// The configuration an analog acquisition with these inputs validates to.
pub open spec fn spec_analog_config(
    label: String,
    pin_mode: PinMode,
    flags: Seq<AnalogFlag>,
) -> Result<AnalogConfig, GpioError> {
    spec_build_analog(
        spec_apply_analog_flags(AnalogConfigBuilder { label, pin_mode, output_mode: None }, flags),
    )
}

/// Resolves a virtual label through the policy and claims the physical
/// line. A label the policy cannot resolve, or whose physical identifier
/// does not parse, never yields a pin; every failure is an opaque driver or
/// resolution diagnostic.
fn get_pin(ctx: &WasiGpioCtx, label: &str) -> (r: Result<rppal::gpio::Pin, GpioError>)
    ensures
        r matches Err(e) ==> e is Other,
        ctx.policies.spec_get_plabel(label@) is None ==> r is Err,
        (match ctx.policies.spec_get_plabel(label@) {
            Some(p) => spec_parse_gpio(p) is None,
            None => false,
        }) ==> r is Err,
        r is Ok ==> (ctx.policies.spec_get_plabel(label@) matches Some(p) && spec_parse_gpio(
            p,
        ) is Some),
{
    let plabel = match ctx.policies.get_plabel(label) {
        Some(p) => p,
        None => {
            return Err(GpioError::Other("Pin not found in policy".to_owned()));
        },
    };

    let pin_num = match parse_gpio_label(plabel.as_str()) {
        Some(n) => n,
        None => {
            return Err(GpioError::Other("Invalid physical label format".to_owned()));
        },
    };

    let gpio = match hw::gpio_new() {
        Ok(g) => g,
        Err(msg) => {
            return Err(GpioError::Other(msg));
        },
    };

    match hw::gpio_get(&gpio, pin_num) {
        Ok(p) => Ok(p),
        Err(msg) => Err(GpioError::Other(msg)),
    }
}

impl GpioImpl {
    pub open spec fn wf(self) -> bool {
        self.ctx.watcher.wf()
    }

    pub fn new(policies: Policies) -> (r: Self)
        ensures
            r.wf(),
            r.ctx.policies == policies,
            r.ctx.watcher.sessions@ =~= Seq::<crate::watch_event::WatchSession>::empty(),
            r.ctx.watcher.spawned == 0,
            forall|h: u32| !r.digital_in.spec_valid(h),
            forall|h: u32| !r.digital_out.spec_valid(h),
            forall|h: u32| !r.digital_in_out.spec_valid(h),
            forall|h: u32| !r.analog_out.spec_valid(h),
            forall|h: u32| !r.pollables.spec_valid(h),
    {
        GpioImpl {
            ctx: WasiGpioCtx::new(policies),
            digital_in: HandleTable::new(),
            digital_out: HandleTable::new(),
            digital_in_out: HandleTable::new(),
            analog_out: HandleTable::new(),
            pollables: HandleTable::new(),
        }
    }

    /// Acquires a digital input handle: the policy must grant DigitalInput
    /// for the label, the flag set must be free of output-only flags and
    /// validate as an input configuration, and the physical line must be
    /// claimable. On failure nothing is issued and nothing changes.
    pub fn digital_in_get(&mut self, pin_label: String, flags: Vec<DigitalFlag>) -> (r: Result<
        u32,
        GpioError,
    >)
        requires
            old(self).wf(),
        ensures
            final(self).wf(),
            !old(self).ctx.policies.spec_mode_allowed(pin_label@, Mode::DigitalInput) ==> r == Err::<
                u32,
                GpioError,
            >(GpioError::PinModeNotAllowed),
            old(self).ctx.policies.spec_mode_allowed(pin_label@, Mode::DigitalInput)
                && spec_contains_any(flags@, digital_in_disallowed()) ==> r == Err::<
                u32,
                GpioError,
            >(GpioError::InvalidFlag),
            old(self).ctx.policies.spec_mode_allowed(pin_label@, Mode::DigitalInput)
                && !spec_contains_any(flags@, digital_in_disallowed()) && spec_digital_config(
                pin_label,
                PinMode::In,
                flags@,
            ) is Err ==> r is Err && (r == Err::<u32, GpioError>(GpioError::InvalidFlag) || (
            r matches Err(e) && e is Other)),
            r matches Ok(h) ==> {
                &&& old(self).ctx.policies.spec_mode_allowed(pin_label@, Mode::DigitalInput)
                &&& !spec_contains_any(flags@, digital_in_disallowed())
                &&& spec_digital_config(pin_label, PinMode::In, flags@) matches Ok(cfg)
                    && final(self).digital_in.spec_valid(h) && final(self).digital_in.spec_get(
                    h,
                ).config == cfg
                &&& h == old(self).digital_in.slots@.len()
                &&& forall|h2: u32|
                    h2 != h ==> #[trigger] final(self).digital_in.spec_valid(h2) == old(
                        self,
                    ).digital_in.spec_valid(h2)
                &&& forall|h2: u32|
                    h2 != h && old(self).digital_in.spec_valid(h2)
                        ==> #[trigger] final(self).digital_in.spec_get(h2)
                        == old(self).digital_in.spec_get(h2)
                &&& final(self).ctx == old(self).ctx
                &&& final(self).digital_out == old(self).digital_out
                &&& final(self).digital_in_out == old(self).digital_in_out
                &&& final(self).analog_out == old(self).analog_out
                &&& final(self).pollables == old(self).pollables
            },
            r is Err ==> *final(self) == *old(self),
    {
        if !self.ctx.policies.is_mode_allowed(pin_label.as_str(), Mode::DigitalInput) {
            return Err(GpioError::PinModeNotAllowed);
        }

        let disallowed = vec![DigitalFlag::Active, DigitalFlag::Inactive, DigitalFlag::Output];
        proof {
            assert(disallowed@ =~= digital_in_disallowed());
        }
        if check_invalid_flags(&flags, disallowed).is_err() {
            return Err(GpioError::InvalidFlag);
        }

        let pin = match get_pin(&self.ctx, pin_label.as_str()) {
            Ok(p) => p,
            Err(e) => {
                return Err(e);
            },
        };

        let config = match DigitalConfigBuilder::new(pin_label, PinMode::In).add_flags(
            flags,
        ).build() {
            Ok(c) => c,
            Err(_) => {
                return Err(GpioError::InvalidFlag);
            },
        };

        if self.digital_in.len() >= u32::MAX as usize {
            return Err(GpioError::Other("resource table full".to_owned()));
        }
        let h = self.digital_in.push(DigitalInPin::new(pin, config));
        Ok(h)
    }

    /// The configuration of a digital input handle.
    pub fn digital_in_get_config(&self, h: u32) -> (r: Result<DigitalConfig, GpioError>)
        ensures
            !self.digital_in.spec_valid(h) ==> r == Err::<DigitalConfig, GpioError>(
                GpioError::ResourceInvalidated,
            ),
            self.digital_in.spec_valid(h) ==> r == Ok::<DigitalConfig, GpioError>(
                self.digital_in.spec_get(h).config,
            ),
    {
        match self.digital_in.get(h) {
            Ok(pin) => Ok(pin.get_config().duplicate()),
            Err(e) => Err(e),
        }
    }

    /// Liveness check: true iff the handle names a live resource.
    pub fn digital_in_is_ready(&self, h: u32) -> (r: bool)
        ensures
            r == self.digital_in.spec_valid(h),
    {
        self.digital_in.is_ready(h)
    }

    /// Reads the logical state of a digital input handle: the sampled level
    /// seen through the handle's polarity.
    pub fn digital_in_read(&self, h: u32) -> (r: Result<PinState, GpioError>)
        ensures
            !self.digital_in.spec_valid(h) ==> r == Err::<PinState, GpioError>(
                GpioError::ResourceInvalidated,
            ),
            self.digital_in.spec_valid(h) ==> (r matches Ok(s) && exists|level: Level|
                s == spec_logical_of(level, self.digital_in.spec_get(h).config.active_level)),
    {
        match self.digital_in.get(h) {
            Ok(pin) => Ok(pin.read()),
            Err(e) => Err(e),
        }
    }

    pub fn digital_in_is_active(&self, h: u32) -> (r: Result<bool, GpioError>)
        ensures
            !self.digital_in.spec_valid(h) ==> r == Err::<bool, GpioError>(
                GpioError::ResourceInvalidated,
            ),
            self.digital_in.spec_valid(h) ==> r is Ok,
    {
        match self.digital_in_read(h) {
            Ok(s) => Ok(s == PinState::Active),
            Err(e) => Err(e),
        }
    }

    pub fn digital_in_is_inactive(&self, h: u32) -> (r: Result<bool, GpioError>)
        ensures
            !self.digital_in.spec_valid(h) ==> r == Err::<bool, GpioError>(
                GpioError::ResourceInvalidated,
            ),
            self.digital_in.spec_valid(h) ==> r is Ok,
    {
        match self.digital_in_read(h) {
            Ok(s) => Ok(s == PinState::Inactive),
            Err(e) => Err(e),
        }
    }

    /// Releases a digital input handle: afterwards it is invalid forever,
    /// and every further operation on it reports ResourceInvalidated.
    pub fn digital_in_release(&mut self, h: u32) -> (r: Result<(), GpioError>)
        requires
            old(self).wf(),
        ensures
            final(self).wf(),
            !final(self).digital_in.spec_valid(h),
            r is Ok <==> old(self).digital_in.spec_valid(h),
            r matches Err(e) ==> e == GpioError::ResourceInvalidated,
            forall|h2: u32|
                h2 != h ==> #[trigger] final(self).digital_in.spec_valid(h2) == old(
                    self,
                ).digital_in.spec_valid(h2),
            forall|h2: u32|
                h2 != h && old(self).digital_in.spec_valid(h2)
                    ==> #[trigger] final(self).digital_in.spec_get(h2) == old(self).digital_in.spec_get(h2),
            final(self).ctx == old(self).ctx,
            final(self).digital_out == old(self).digital_out,
            final(self).digital_in_out == old(self).digital_in_out,
            final(self).analog_out == old(self).analog_out,
            final(self).pollables == old(self).pollables,
    {
        self.digital_in.delete(h)
    }
}

/// The flags an acquisition of a digital input rejects outright: they only
/// make sense for outputs or direction selection.
pub open spec fn digital_in_disallowed() -> Seq<DigitalFlag> {
    seq![DigitalFlag::Active, DigitalFlag::Inactive, DigitalFlag::Output]
}

/// The flags an acquisition of a digital output rejects outright: they only
/// make sense for inputs or direction selection.
pub open spec fn digital_out_disallowed() -> Seq<DigitalFlag> {
    seq![DigitalFlag::Input, DigitalFlag::PullUp, DigitalFlag::PullDown]
}

/// The flags an acquisition of a direction-switchable pin rejects outright.
pub open spec fn digital_in_out_disallowed() -> Seq<DigitalFlag> {
    seq![DigitalFlag::PullUp, DigitalFlag::PullDown, DigitalFlag::Active, DigitalFlag::Inactive]
}

/// How many direction flags the list carries.
pub open spec fn spec_dir_count(fs: Seq<DigitalFlag>) -> int
    decreases fs.len(),
{
    if fs.len() == 0 {
        0
    } else {
        spec_dir_count(fs.drop_last()) + if fs.last() == DigitalFlag::Input || fs.last()
            == DigitalFlag::Output {
            1int
        } else {
            0int
        }
    }
}

/// The direction the last direction flag selects, if any.
pub open spec fn spec_direction(fs: Seq<DigitalFlag>) -> Option<PinMode>
    decreases fs.len(),
{
    if fs.len() == 0 {
        None
    } else if fs.last() == DigitalFlag::Input {
        Some(PinMode::In)
    } else if fs.last() == DigitalFlag::Output {
        Some(PinMode::Out)
    } else {
        spec_direction(fs.drop_last())
    }
}

proof fn lemma_dir_count_prefix_le(fs: Seq<DigitalFlag>, j: int)
    requires
        0 <= j <= fs.len(),
    ensures
        spec_dir_count(fs.take(j)) <= spec_dir_count(fs),
    decreases fs.len() - j,
{
    if j == fs.len() {
        assert(fs.take(j) =~= fs);
    } else {
        lemma_dir_count_prefix_le(fs, j + 1);
        assert(fs.take(j + 1).drop_last() =~= fs.take(j));
        assert(fs.take(j + 1).last() == fs[j]);
    }
}

/// Exactly what one watch request through a digital input handle does, for
/// the physical condition `wt`: an invalid handle reports
/// ResourceInvalidated and changes nothing; otherwise the registry takes
/// one `watch_event` step for the key (the handle's label with `wt`), a
/// pollable on the session's trigger is issued under a fresh handle, a task
/// request is handed back exactly when the registry asked for a spawn, and
/// nothing else changes. Success is owed whenever the handle is valid and
/// the pollable table can still issue a handle.
pub open spec fn spec_watch_outcome(
    pre: GpioImpl,
    h: u32,
    wt: WatchType,
    post: GpioImpl,
    r: Result<(u32, Option<PendingWatch>), GpioError>,
) -> bool {
    &&& (!pre.digital_in.spec_valid(h) ==> r == Err::<(u32, Option<PendingWatch>), GpioError>(
        GpioError::ResourceInvalidated,
    ))
    &&& (r is Err ==> post == pre)
    &&& (pre.digital_in.spec_valid(h) && pre.pollables.slots@.len() < u32::MAX ==> r is Ok)
    &&& (r matches Ok(out) ==> ({
        let cfg = pre.digital_in.spec_get(h).config;
        let key = WatchEventKey { watch_type: wt, pin_label: cfg.label };
        &&& pre.digital_in.spec_valid(h)
        &&& post.pollables.spec_valid(out.0)
        &&& out.0 == pre.pollables.slots@.len()
        &&& watch_event_post(
            pre.ctx.watcher,
            key,
            post.ctx.watcher,
            post.pollables.spec_get(out.0).trigger,
            out.1 is Some,
        )
        &&& (out.1 matches Some(p) ==> p.key == key && p.pin == pre.digital_in.spec_get(h).pin)
        &&& forall|h2: u32|
            h2 != out.0 ==> #[trigger] post.pollables.spec_valid(h2) == pre.pollables.spec_valid(
                h2,
            )
        &&& forall|h2: u32|
            h2 != out.0 && pre.pollables.spec_valid(h2)
                ==> #[trigger] post.pollables.spec_get(h2) == pre.pollables.spec_get(h2)
        &&& post.ctx.policies == pre.ctx.policies
        &&& post.digital_in == pre.digital_in
        &&& post.digital_out == pre.digital_out
        &&& post.digital_in_out == pre.digital_in_out
        &&& post.analog_out == pre.analog_out
    }))
}

impl GpioImpl {
    /// Registers a watch through a digital input handle for the physical
    /// condition `wt`; the caller has already normalized the logical
    /// condition through the handle's polarity.
    fn watch_condition(&mut self, h: u32, wt: WatchType) -> (r: Result<
        (u32, Option<PendingWatch>),
        GpioError,
    >)
        requires
            old(self).wf(),
        ensures
            final(self).wf(),
            spec_watch_outcome(*old(self), h, wt, *final(self), r),
    {
        let (shared, label) = match self.digital_in.get(h) {
            Ok(pin) => (pin.clone_pin(), pin.config.label.clone()),
            Err(e) => {
                return Err(e);
            },
        };

        if self.pollables.len() >= u32::MAX as usize {
            return Err(GpioError::Other("resource table full".to_owned()));
        }

        let key = WatchEventKey { watch_type: wt, pin_label: label };
        let (trigger, spawned) = self.ctx.watcher.watch_event(key.duplicate());
        let task = if spawned {
            Some(PendingWatch { key, pin: shared })
        } else {
            None
        };
        let ph = self.pollables.push(Pollable::new(trigger));
        Ok((ph, task))
    }

    /// Watches for the handle reporting the given logical state: the
    /// condition is normalized through the handle's polarity, so watching
    /// Active on an active-low pin watches physical Low. Returns the
    /// pollable handle and, for a fresh session, the observing-task request.
    pub fn watch_state(&mut self, h: u32, state: PinState) -> (r: Result<
        (u32, Option<PendingWatch>),
        GpioError,
    >)
        requires
            old(self).wf(),
        ensures
            final(self).wf(),
            spec_watch_outcome(
                *old(self),
                h,
                crate::watch_event::spec_state_watch(
                    state,
                    old(self).digital_in.spec_get(h).config.active_level,
                ),
                *final(self),
                r,
            ),
    {
        let al = match self.digital_in.get(h) {
            Ok(pin) => pin.config.active_level,
            Err(e) => {
                return Err(e);
            },
        };
        let wt = state_watch(state, al);
        self.watch_condition(h, wt)
    }

    /// Watches for the handle reporting Active.
    pub fn watch_active(&mut self, h: u32) -> (r: Result<
        (u32, Option<PendingWatch>),
        GpioError,
    >)
        requires
            old(self).wf(),
        ensures
            final(self).wf(),
            spec_watch_outcome(
                *old(self),
                h,
                crate::watch_event::spec_state_watch(
                    PinState::Active,
                    old(self).digital_in.spec_get(h).config.active_level,
                ),
                *final(self),
                r,
            ),
    {
        self.watch_state(h, PinState::Active)
    }

    /// Watches for the handle reporting Inactive.
    pub fn watch_inactive(&mut self, h: u32) -> (r: Result<
        (u32, Option<PendingWatch>),
        GpioError,
    >)
        requires
            old(self).wf(),
        ensures
            final(self).wf(),
            spec_watch_outcome(
                *old(self),
                h,
                crate::watch_event::spec_state_watch(
                    PinState::Inactive,
                    old(self).digital_in.spec_get(h).config.active_level,
                ),
                *final(self),
                r,
            ),
    {
        self.watch_state(h, PinState::Inactive)
    }

    /// Watches for a logical rising edge: a physical rising edge on an
    /// active-high pin, a physical falling edge on an active-low pin.
    pub fn watch_rising_edge(&mut self, h: u32) -> (r: Result<
        (u32, Option<PendingWatch>),
        GpioError,
    >)
        requires
            old(self).wf(),
        ensures
            final(self).wf(),
            spec_watch_outcome(
                *old(self),
                h,
                crate::watch_event::spec_rising_watch(
                    old(self).digital_in.spec_get(h).config.active_level,
                ),
                *final(self),
                r,
            ),
    {
        let al = match self.digital_in.get(h) {
            Ok(pin) => pin.config.active_level,
            Err(e) => {
                return Err(e);
            },
        };
        let wt = rising_watch(al);
        self.watch_condition(h, wt)
    }

    /// Watches for a logical falling edge: a physical falling edge on an
    /// active-high pin, a physical rising edge on an active-low pin.
    pub fn watch_falling_edge(&mut self, h: u32) -> (r: Result<
        (u32, Option<PendingWatch>),
        GpioError,
    >)
        requires
            old(self).wf(),
        ensures
            final(self).wf(),
            spec_watch_outcome(
                *old(self),
                h,
                crate::watch_event::spec_falling_watch(
                    old(self).digital_in.spec_get(h).config.active_level,
                ),
                *final(self),
                r,
            ),
    {
        let al = match self.digital_in.get(h) {
            Ok(pin) => pin.config.active_level,
            Err(e) => {
                return Err(e);
            },
        };
        let wt = falling_watch(al);
        self.watch_condition(h, wt)
    }

    /// Marks a watch key's condition as observed: fires the session's
    /// trigger and removes the session. Called by the embedding host from
    /// the observing task it started for the key, exactly once.
    pub fn complete_watch(&mut self, key: &WatchEventKey)
        requires
            old(self).wf(),
        ensures
            final(self).wf(),
            crate::watch_event::complete_post(
                old(self).ctx.watcher,
                *key,
                final(self).ctx.watcher,
            ),
            final(self).ctx.policies == old(self).ctx.policies,
            final(self).digital_in == old(self).digital_in,
            final(self).digital_out == old(self).digital_out,
            final(self).digital_in_out == old(self).digital_in_out,
            final(self).analog_out == old(self).analog_out,
            final(self).pollables == old(self).pollables,
    {
        self.ctx.watcher.complete(key);
    }

    /// Non-blocking read of a pollable: whether its watched condition has
    /// occurred. The trigger outlives its registry session, so a fired
    /// pollable stays ready forever.
    pub fn pollable_ready(&self, h: u32) -> (r: Result<bool, GpioError>)
        ensures
            !self.pollables.spec_valid(h) ==> r == Err::<bool, GpioError>(
                GpioError::ResourceInvalidated,
            ),
            self.pollables.spec_valid(h) ==> r == Ok::<bool, GpioError>(
                self.ctx.watcher.spec_trigger_state(self.pollables.spec_get(h).trigger),
            ),
    {
        match self.pollables.get(h) {
            Ok(p) => Ok(p.ready(&self.ctx.watcher)),
            Err(e) => Err(e),
        }
    }

    /// Releases a pollable handle; its trigger, shared with any other
    /// holder, lives on.
    pub fn pollable_release(&mut self, h: u32) -> (r: Result<(), GpioError>)
        requires
            old(self).wf(),
        ensures
            final(self).wf(),
            !final(self).pollables.spec_valid(h),
            r is Ok <==> old(self).pollables.spec_valid(h),
            r matches Err(e) ==> e == GpioError::ResourceInvalidated,
            forall|h2: u32|
                h2 != h ==> #[trigger] final(self).pollables.spec_valid(h2) == old(
                    self,
                ).pollables.spec_valid(h2),
            forall|h2: u32|
                h2 != h && old(self).pollables.spec_valid(h2)
                    ==> #[trigger] final(self).pollables.spec_get(h2) == old(self).pollables.spec_get(h2),
            final(self).ctx == old(self).ctx,
            final(self).digital_in == old(self).digital_in,
            final(self).digital_out == old(self).digital_out,
            final(self).digital_in_out == old(self).digital_in_out,
            final(self).analog_out == old(self).analog_out,
    {
        self.pollables.delete(h)
    }

    /// Which of the given pollable handles are ready, by position in the
    /// request; fails with ResourceInvalidated iff some handle is invalid.
    pub fn poll(&self, handles: &Vec<u32>) -> (r: Result<Vec<u32>, GpioError>)
        requires
            handles@.len() <= u32::MAX,
        ensures
            match r {
                Ok(out) => self.spec_poll(handles@) == Ok::<Seq<u32>, GpioError>(out@),
                Err(e) => self.spec_poll(handles@) == Err::<Seq<u32>, GpioError>(e),
            },
    {
        let mut out: Vec<u32> = Vec::new();
        let n = handles.len();
        let mut i: usize = 0;
        while i < n
            invariant
                n == handles@.len(),
                n <= u32::MAX,
                i <= n,
                self.spec_poll(handles@.take(i as int)) == Ok::<Seq<u32>, GpioError>(out@),
            decreases n - i,
        {
            proof {
                assert(handles@.take(i + 1).drop_last() =~= handles@.take(i as int));
                assert(handles@.take(i + 1).last() == handles@[i as int]);
            }
            match self.pollable_ready(handles[i]) {
                Ok(ready) => {
                    if ready {
                        out.push(i as u32);
                    }
                },
                Err(e) => {
                    proof {
                        self.lemma_spec_poll_err_prefix(handles@, i + 1);
                    }
                    return Err(e);
                },
            }
            i += 1;
        }
        proof {
            assert(handles@.take(n as int) =~= handles@);
        }
        Ok(out)
    }

    /// Once a prefix of the request fails, the whole request fails the same
    /// way.
    proof fn lemma_spec_poll_err_prefix(self, hs: Seq<u32>, j: int)
        requires
            0 <= j <= hs.len(),
            self.spec_poll(hs.take(j)) is Err,
        ensures
            self.spec_poll(hs) == self.spec_poll(hs.take(j)),
        decreases hs.len() - j,
    {
        if j < hs.len() {
            assert(hs.take(j + 1).drop_last() =~= hs.take(j));
            self.lemma_spec_poll_err_prefix(hs, j + 1);
        } else {
            assert(hs.take(j) =~= hs);
        }
    }

    /// The positions, in order, of the ready pollables among `hs`, or
    /// ResourceInvalidated if any handle is invalid.
    pub open spec fn spec_poll(self, hs: Seq<u32>) -> Result<Seq<u32>, GpioError>
        decreases hs.len(),
    {
        if hs.len() == 0 {
            Ok(Seq::empty())
        } else {
            match self.spec_poll(hs.drop_last()) {
                Err(e) => Err(e),
                Ok(prefix) => if !self.pollables.spec_valid(hs.last()) {
                    Err(GpioError::ResourceInvalidated)
                } else if self.ctx.watcher.spec_trigger_state(
                    self.pollables.spec_get(hs.last()).trigger,
                ) {
                    Ok(prefix.push((hs.len() - 1) as u32))
                } else {
                    Ok(prefix)
                },
            }
        }
    }

    /// Acquires a digital output handle: the policy must grant
    /// DigitalOutput for the label, the flag set must be free of input-only
    /// flags and validate as an output configuration, and the physical line
    /// must be claimable. An Active or Inactive flag selects the initial
    /// logical state the line is driven to before the handle exists; the
    /// last such flag wins. On failure nothing is issued and nothing
    /// changes.
    pub fn digital_out_get(&mut self, pin_label: String, flags: Vec<DigitalFlag>) -> (r: Result<
        u32,
        GpioError,
    >)
        requires
            old(self).wf(),
        ensures
            final(self).wf(),
            !old(self).ctx.policies.spec_mode_allowed(pin_label@, Mode::DigitalOutput) ==> r
                == Err::<u32, GpioError>(GpioError::PinModeNotAllowed),
            old(self).ctx.policies.spec_mode_allowed(pin_label@, Mode::DigitalOutput)
                && spec_contains_any(flags@, digital_out_disallowed()) ==> r == Err::<
                u32,
                GpioError,
            >(GpioError::InvalidFlag),
            old(self).ctx.policies.spec_mode_allowed(pin_label@, Mode::DigitalOutput)
                && !spec_contains_any(flags@, digital_out_disallowed()) && spec_digital_config(
                pin_label,
                PinMode::Out,
                flags@,
            ) is Err ==> r is Err && (r == Err::<u32, GpioError>(GpioError::InvalidFlag) || (
            r matches Err(e) && e is Other)),
            r matches Ok(h) ==> {
                &&& old(self).ctx.policies.spec_mode_allowed(pin_label@, Mode::DigitalOutput)
                &&& !spec_contains_any(flags@, digital_out_disallowed())
                &&& spec_digital_config(pin_label, PinMode::Out, flags@) matches Ok(cfg)
                    && final(self).digital_out.spec_valid(h) && final(self).digital_out.spec_get(
                    h,
                ).config == cfg
                &&& h == old(self).digital_out.slots@.len()
                &&& forall|h2: u32|
                    h2 != h ==> #[trigger] final(self).digital_out.spec_valid(h2) == old(
                        self,
                    ).digital_out.spec_valid(h2)
                &&& forall|h2: u32|
                    h2 != h && old(self).digital_out.spec_valid(h2)
                        ==> #[trigger] final(self).digital_out.spec_get(h2)
                        == old(self).digital_out.spec_get(h2)
                &&& final(self).ctx == old(self).ctx
                &&& final(self).digital_in == old(self).digital_in
                &&& final(self).digital_in_out == old(self).digital_in_out
                &&& final(self).analog_out == old(self).analog_out
                &&& final(self).pollables == old(self).pollables
            },
            r is Err ==> *final(self) == *old(self),
    {
        if !self.ctx.policies.is_mode_allowed(pin_label.as_str(), Mode::DigitalOutput) {
            return Err(GpioError::PinModeNotAllowed);
        }

        let disallowed = vec![DigitalFlag::Input, DigitalFlag::PullUp, DigitalFlag::PullDown];
        proof {
            assert(disallowed@ =~= digital_out_disallowed());
        }
        if check_invalid_flags(&flags, disallowed).is_err() {
            return Err(GpioError::InvalidFlag);
        }

        let mut pin_state: Option<PinState> = None;
        let n = flags.len();
        let mut i: usize = 0;
        while i < n
            invariant
                n == flags@.len(),
                i <= n,
            decreases n - i,
        {
            if flags[i] == DigitalFlag::Active {
                pin_state = Some(PinState::Active);
            } else if flags[i] == DigitalFlag::Inactive {
                pin_state = Some(PinState::Inactive);
            }
            i += 1;
        }

        let pin = match get_pin(&self.ctx, pin_label.as_str()) {
            Ok(p) => p,
            Err(e) => {
                return Err(e);
            },
        };

        let config = match DigitalConfigBuilder::new(pin_label, PinMode::Out).add_flags(
            flags,
        ).build() {
            Ok(c) => c,
            Err(_) => {
                return Err(GpioError::InvalidFlag);
            },
        };

        if self.digital_out.len() >= u32::MAX as usize {
            return Err(GpioError::Other("resource table full".to_owned()));
        }
        let h = self.digital_out.push(DigitalOutPin::new(pin, config, pin_state));
        Ok(h)
    }

    pub fn digital_out_get_config(&self, h: u32) -> (r: Result<DigitalConfig, GpioError>)
        ensures
            !self.digital_out.spec_valid(h) ==> r == Err::<DigitalConfig, GpioError>(
                GpioError::ResourceInvalidated,
            ),
            self.digital_out.spec_valid(h) ==> r == Ok::<DigitalConfig, GpioError>(
                self.digital_out.spec_get(h).config,
            ),
    {
        match self.digital_out.get(h) {
            Ok(pin) => Ok(pin.get_config().duplicate()),
            Err(e) => Err(e),
        }
    }

    pub fn digital_out_is_ready(&self, h: u32) -> (r: bool)
        ensures
            r == self.digital_out.spec_valid(h),
    {
        self.digital_out.is_ready(h)
    }

    /// Drives the line of a digital output handle to the given logical
    /// state, through the handle's polarity. The handle and its
    /// configuration survive unchanged.
    pub fn digital_out_set_state(&mut self, h: u32, state: PinState) -> (r: Result<(), GpioError>)
        requires
            old(self).wf(),
        ensures
            final(self).wf(),
            !old(self).digital_out.spec_valid(h) ==> r == Err::<(), GpioError>(
                GpioError::ResourceInvalidated,
            ) && *final(self) == *old(self),
            old(self).digital_out.spec_valid(h) ==> {
                &&& r is Ok
                &&& final(self).digital_out.spec_valid(h)
                &&& final(self).digital_out.spec_get(h).config == old(self).digital_out.spec_get(
                    h,
                ).config
                &&& forall|h2: u32|
                    h2 != h ==> #[trigger] final(self).digital_out.spec_valid(h2) == old(
                        self,
                    ).digital_out.spec_valid(h2)
                &&& forall|h2: u32|
                    h2 != h && old(self).digital_out.spec_valid(h2)
                        ==> #[trigger] final(self).digital_out.spec_get(h2)
                        == old(self).digital_out.spec_get(h2)
                &&& final(self).ctx == old(self).ctx
                &&& final(self).digital_in == old(self).digital_in
                &&& final(self).digital_in_out == old(self).digital_in_out
                &&& final(self).analog_out == old(self).analog_out
                &&& final(self).pollables == old(self).pollables
            },
    {
        let mut pin = match self.digital_out.take(h) {
            Ok(p) => p,
            Err(e) => {
                return Err(e);
            },
        };
        pin.write(state);
        self.digital_out.restore(h, pin);
        Ok(())
    }

    pub fn digital_out_set_active(&mut self, h: u32) -> (r: Result<(), GpioError>)
        requires
            old(self).wf(),
        ensures
            final(self).wf(),
            !old(self).digital_out.spec_valid(h) ==> r == Err::<(), GpioError>(
                GpioError::ResourceInvalidated,
            ),
            old(self).digital_out.spec_valid(h) ==> r is Ok && final(self).digital_out.spec_valid(
                h,
            ),
    {
        self.digital_out_set_state(h, PinState::Active)
    }

    pub fn digital_out_set_inactive(&mut self, h: u32) -> (r: Result<(), GpioError>)
        requires
            old(self).wf(),
        ensures
            final(self).wf(),
            !old(self).digital_out.spec_valid(h) ==> r == Err::<(), GpioError>(
                GpioError::ResourceInvalidated,
            ),
            old(self).digital_out.spec_valid(h) ==> r is Ok && final(self).digital_out.spec_valid(
                h,
            ),
    {
        self.digital_out_set_state(h, PinState::Inactive)
    }

    /// Releases a digital output handle.
    pub fn digital_out_release(&mut self, h: u32) -> (r: Result<(), GpioError>)
        requires
            old(self).wf(),
        ensures
            final(self).wf(),
            !final(self).digital_out.spec_valid(h),
            r is Ok <==> old(self).digital_out.spec_valid(h),
            r matches Err(e) ==> e == GpioError::ResourceInvalidated,
            forall|h2: u32|
                h2 != h ==> #[trigger] final(self).digital_out.spec_valid(h2) == old(
                    self,
                ).digital_out.spec_valid(h2),
            forall|h2: u32|
                h2 != h && old(self).digital_out.spec_valid(h2)
                    ==> #[trigger] final(self).digital_out.spec_get(h2) == old(self).digital_out.spec_get(h2),
            final(self).ctx == old(self).ctx,
            final(self).digital_in == old(self).digital_in,
            final(self).digital_in_out == old(self).digital_in_out,
            final(self).analog_out == old(self).analog_out,
            final(self).pollables == old(self).pollables,
    {
        self.digital_out.delete(h)
    }

    /// Acquires a direction-switchable digital handle: the policy must
    /// grant DigitalInputOutput, the flag set must be free of
    /// pull-resistor and initial-state flags, carry exactly one direction
    /// flag, and validate for that direction; the physical line must be
    /// claimable. On failure nothing is issued and nothing changes.
    pub fn digital_in_out_get(&mut self, pin_label: String, flags: Vec<DigitalFlag>) -> (r: Result<
        u32,
        GpioError,
    >)
        requires
            old(self).wf(),
        ensures
            final(self).wf(),
            !old(self).ctx.policies.spec_mode_allowed(pin_label@, Mode::DigitalInputOutput) ==> r
                == Err::<u32, GpioError>(GpioError::PinModeNotAllowed),
            old(self).ctx.policies.spec_mode_allowed(pin_label@, Mode::DigitalInputOutput)
                && spec_contains_any(flags@, digital_in_out_disallowed()) ==> r == Err::<
                u32,
                GpioError,
            >(GpioError::InvalidFlag),
            r matches Ok(h) ==> {
                &&& old(self).ctx.policies.spec_mode_allowed(pin_label@, Mode::DigitalInputOutput)
                &&& !spec_contains_any(flags@, digital_in_out_disallowed())
                &&& spec_dir_count(flags@) == 1
                &&& spec_direction(flags@) matches Some(dir) && spec_digital_config(
                    pin_label,
                    dir,
                    flags@,
                ) matches Ok(cfg) && final(self).digital_in_out.spec_valid(h)
                    && final(self).digital_in_out.spec_get(h).config == cfg
                &&& h == old(self).digital_in_out.slots@.len()
                &&& forall|h2: u32|
                    h2 != h ==> #[trigger] final(self).digital_in_out.spec_valid(h2) == old(
                        self,
                    ).digital_in_out.spec_valid(h2)
                &&& forall|h2: u32|
                    h2 != h && old(self).digital_in_out.spec_valid(h2)
                        ==> #[trigger] final(self).digital_in_out.spec_get(h2)
                        == old(self).digital_in_out.spec_get(h2)
                &&& final(self).ctx == old(self).ctx
                &&& final(self).digital_in == old(self).digital_in
                &&& final(self).digital_out == old(self).digital_out
                &&& final(self).analog_out == old(self).analog_out
                &&& final(self).pollables == old(self).pollables
            },
            r is Err ==> *final(self) == *old(self),
    {
        if !self.ctx.policies.is_mode_allowed(pin_label.as_str(), Mode::DigitalInputOutput) {
            return Err(GpioError::PinModeNotAllowed);
        }

        let disallowed = vec![
            DigitalFlag::PullUp,
            DigitalFlag::PullDown,
            DigitalFlag::Active,
            DigitalFlag::Inactive,
        ];
        proof {
            assert(disallowed@ =~= digital_in_out_disallowed());
        }
        if check_invalid_flags(&flags, disallowed).is_err() {
            return Err(GpioError::InvalidFlag);
        }

        let pin = match get_pin(&self.ctx, pin_label.as_str()) {
            Ok(p) => p,
            Err(e) => {
                return Err(e);
            },
        };

        let mut pin_mode: Option<PinMode> = None;
        let n = flags.len();
        let mut i: usize = 0;
        while i < n
            invariant
                *self == *old(self),
                old(self).wf(),
                old(self).ctx.policies.spec_mode_allowed(pin_label@, Mode::DigitalInputOutput),
                n == flags@.len(),
                i <= n,
                spec_dir_count(flags@.take(i as int)) == if pin_mode is Some {
                    1int
                } else {
                    0int
                },
                pin_mode == spec_direction(flags@.take(i as int)),
            decreases n - i,
        {
            proof {
                assert(flags@.take(i + 1).drop_last() =~= flags@.take(i as int));
                assert(flags@.take(i + 1).last() == flags@[i as int]);
            }
            if flags[i] == DigitalFlag::Input {
                match pin_mode {
                    Some(_) => {
                        proof {
                            lemma_dir_count_prefix_le(flags@, i + 1);
                        }
                        return Err(GpioError::InvalidFlag);
                    },
                    None => {
                        pin_mode = Some(PinMode::In);
                    },
                }
            } else if flags[i] == DigitalFlag::Output {
                match pin_mode {
                    Some(_) => {
                        proof {
                            lemma_dir_count_prefix_le(flags@, i + 1);
                        }
                        return Err(GpioError::InvalidFlag);
                    },
                    None => {
                        pin_mode = Some(PinMode::Out);
                    },
                }
            }
            i += 1;
        }
        proof {
            assert(flags@.take(n as int) =~= flags@);
        }

        let pin_mode = match pin_mode {
            Some(pin_mode) => pin_mode,
            None => {
                return Err(GpioError::InvalidFlag);
            },
        };

        let config = match DigitalConfigBuilder::new(pin_label, pin_mode).add_flags(
            flags,
        ).build() {
            Ok(c) => c,
            Err(_) => {
                return Err(GpioError::InvalidFlag);
            },
        };

        if self.digital_in_out.len() >= u32::MAX as usize {
            return Err(GpioError::Other("resource table full".to_owned()));
        }
        let h = self.digital_in_out.push(DigitalInOutPin::new(pin, config, pin_mode));
        Ok(h)
    }

    pub fn digital_in_out_get_config(&self, h: u32) -> (r: Result<DigitalConfig, GpioError>)
        ensures
            !self.digital_in_out.spec_valid(h) ==> r == Err::<DigitalConfig, GpioError>(
                GpioError::ResourceInvalidated,
            ),
            self.digital_in_out.spec_valid(h) ==> r == Ok::<DigitalConfig, GpioError>(
                self.digital_in_out.spec_get(h).config,
            ),
    {
        match self.digital_in_out.get(h) {
            Ok(pin) => Ok(pin.get_config().duplicate()),
            Err(e) => Err(e),
        }
    }

    pub fn digital_in_out_is_ready(&self, h: u32) -> (r: bool)
        ensures
            r == self.digital_in_out.spec_valid(h),
    {
        self.digital_in_out.is_ready(h)
    }

    /// Drives the line of a direction-switchable handle to the given
    /// logical state, through the handle's polarity.
    pub fn digital_in_out_set_state(&mut self, h: u32, state: PinState) -> (r: Result<
        (),
        GpioError,
    >)
        requires
            old(self).wf(),
        ensures
            final(self).wf(),
            !old(self).digital_in_out.spec_valid(h) ==> r == Err::<(), GpioError>(
                GpioError::ResourceInvalidated,
            ) && *final(self) == *old(self),
            old(self).digital_in_out.spec_valid(h) ==> {
                &&& r is Ok
                &&& final(self).digital_in_out.spec_valid(h)
                &&& final(self).digital_in_out.spec_get(h).config == old(
                    self,
                ).digital_in_out.spec_get(h).config
                &&& forall|h2: u32|
                    h2 != h ==> #[trigger] final(self).digital_in_out.spec_valid(h2) == old(
                        self,
                    ).digital_in_out.spec_valid(h2)
                &&& forall|h2: u32|
                    h2 != h && old(self).digital_in_out.spec_valid(h2)
                        ==> #[trigger] final(self).digital_in_out.spec_get(h2)
                        == old(self).digital_in_out.spec_get(h2)
                &&& final(self).ctx == old(self).ctx
                &&& final(self).digital_in == old(self).digital_in
                &&& final(self).digital_out == old(self).digital_out
                &&& final(self).analog_out == old(self).analog_out
                &&& final(self).pollables == old(self).pollables
            },
    {
        let mut pin = match self.digital_in_out.take(h) {
            Ok(p) => p,
            Err(e) => {
                return Err(e);
            },
        };
        pin.write(state);
        self.digital_in_out.restore(h, pin);
        Ok(())
    }

    pub fn digital_in_out_set_active(&mut self, h: u32) -> (r: Result<(), GpioError>)
        requires
            old(self).wf(),
        ensures
            final(self).wf(),
            !old(self).digital_in_out.spec_valid(h) ==> r == Err::<(), GpioError>(
                GpioError::ResourceInvalidated,
            ),
            old(self).digital_in_out.spec_valid(h) ==> r is Ok
                && final(self).digital_in_out.spec_valid(h),
    {
        self.digital_in_out_set_state(h, PinState::Active)
    }

    pub fn digital_in_out_set_inactive(&mut self, h: u32) -> (r: Result<(), GpioError>)
        requires
            old(self).wf(),
        ensures
            final(self).wf(),
            !old(self).digital_in_out.spec_valid(h) ==> r == Err::<(), GpioError>(
                GpioError::ResourceInvalidated,
            ),
            old(self).digital_in_out.spec_valid(h) ==> r is Ok
                && final(self).digital_in_out.spec_valid(h),
    {
        self.digital_in_out_set_state(h, PinState::Inactive)
    }

    /// Reads the logical state of a direction-switchable handle.
    pub fn digital_in_out_read(&self, h: u32) -> (r: Result<PinState, GpioError>)
        ensures
            !self.digital_in_out.spec_valid(h) ==> r == Err::<PinState, GpioError>(
                GpioError::ResourceInvalidated,
            ),
            self.digital_in_out.spec_valid(h) ==> (r matches Ok(s) && exists|level: Level|
                s == spec_logical_of(level, self.digital_in_out.spec_get(h).config.active_level)),
    {
        match self.digital_in_out.get(h) {
            Ok(pin) => Ok(pin.read()),
            Err(e) => Err(e),
        }
    }

    pub fn digital_in_out_is_active(&self, h: u32) -> (r: Result<bool, GpioError>)
        ensures
            !self.digital_in_out.spec_valid(h) ==> r == Err::<bool, GpioError>(
                GpioError::ResourceInvalidated,
            ),
            self.digital_in_out.spec_valid(h) ==> r is Ok,
    {
        match self.digital_in_out_read(h) {
            Ok(s) => Ok(s == PinState::Active),
            Err(e) => Err(e),
        }
    }

    pub fn digital_in_out_is_inactive(&self, h: u32) -> (r: Result<bool, GpioError>)
        ensures
            !self.digital_in_out.spec_valid(h) ==> r == Err::<bool, GpioError>(
                GpioError::ResourceInvalidated,
            ),
            self.digital_in_out.spec_valid(h) ==> r is Ok,
    {
        match self.digital_in_out_read(h) {
            Ok(s) => Ok(s == PinState::Inactive),
            Err(e) => Err(e),
        }
    }

    /// Switches the direction of a direction-switchable handle.
    pub fn digital_in_out_set_pin_mode(&mut self, h: u32, pin_mode: PinMode) -> (r: Result<
        (),
        GpioError,
    >)
        requires
            old(self).wf(),
        ensures
            final(self).wf(),
            !old(self).digital_in_out.spec_valid(h) ==> r == Err::<(), GpioError>(
                GpioError::ResourceInvalidated,
            ) && *final(self) == *old(self),
            old(self).digital_in_out.spec_valid(h) ==> {
                &&& r is Ok
                &&& final(self).digital_in_out.spec_valid(h)
                &&& final(self).digital_in_out.spec_get(h).config == old(
                    self,
                ).digital_in_out.spec_get(h).config
                &&& forall|h2: u32|
                    h2 != h ==> #[trigger] final(self).digital_in_out.spec_valid(h2) == old(
                        self,
                    ).digital_in_out.spec_valid(h2)
                &&& forall|h2: u32|
                    h2 != h && old(self).digital_in_out.spec_valid(h2)
                        ==> #[trigger] final(self).digital_in_out.spec_get(h2)
                        == old(self).digital_in_out.spec_get(h2)
                &&& final(self).ctx == old(self).ctx
                &&& final(self).digital_in == old(self).digital_in
                &&& final(self).digital_out == old(self).digital_out
                &&& final(self).analog_out == old(self).analog_out
                &&& final(self).pollables == old(self).pollables
            },
    {
        let mut pin = match self.digital_in_out.take(h) {
            Ok(p) => p,
            Err(e) => {
                return Err(e);
            },
        };
        pin.set_pin_mode(pin_mode);
        self.digital_in_out.restore(h, pin);
        Ok(())
    }

    /// Releases a direction-switchable handle.
    pub fn digital_in_out_release(&mut self, h: u32) -> (r: Result<(), GpioError>)
        requires
            old(self).wf(),
        ensures
            final(self).wf(),
            !final(self).digital_in_out.spec_valid(h),
            r is Ok <==> old(self).digital_in_out.spec_valid(h),
            r matches Err(e) ==> e == GpioError::ResourceInvalidated,
            forall|h2: u32|
                h2 != h ==> #[trigger] final(self).digital_in_out.spec_valid(h2) == old(
                    self,
                ).digital_in_out.spec_valid(h2),
            forall|h2: u32|
                h2 != h && old(self).digital_in_out.spec_valid(h2)
                    ==> #[trigger] final(self).digital_in_out.spec_get(h2) == old(self).digital_in_out.spec_get(h2),
            final(self).ctx == old(self).ctx,
            final(self).digital_in == old(self).digital_in,
            final(self).digital_out == old(self).digital_out,
            final(self).analog_out == old(self).analog_out,
            final(self).pollables == old(self).pollables,
    {
        self.digital_in_out.delete(h)
    }

    /// Stateful digital output is structurally unsupported on this target:
    /// no handle can ever be acquired.
    pub fn stateful_digital_out_get(&self, _pin_label: String, _flags: Vec<DigitalFlag>) -> (r:
        Result<u32, GpioError>)
        ensures
            r == Err::<u32, GpioError>(GpioError::PinModeNotAvailable),
    {
        Err(GpioError::PinModeNotAvailable)
    }

    /// No stateful handle ever exists, so no configuration does either.
    pub fn stateful_digital_out_get_config(&self, _h: u32) -> (r: Result<DigitalConfig, GpioError>)
        ensures
            r == Err::<DigitalConfig, GpioError>(GpioError::ResourceInvalidated),
    {
        Err(GpioError::ResourceInvalidated)
    }

    /// The one stateful operation that succeeds: the liveness check, false
    /// for every handle since none can be acquired.
    pub fn stateful_digital_out_is_ready(&self, _h: u32) -> (r: bool)
        ensures
            !r,
    {
        false
    }

    pub fn stateful_digital_out_set_state(&self, _h: u32, _state: PinState) -> (r: Result<
        (),
        GpioError,
    >)
        ensures
            r == Err::<(), GpioError>(GpioError::ResourceInvalidated),
    {
        Err(GpioError::ResourceInvalidated)
    }

    pub fn stateful_digital_out_set_active(&self, _h: u32) -> (r: Result<(), GpioError>)
        ensures
            r == Err::<(), GpioError>(GpioError::ResourceInvalidated),
    {
        Err(GpioError::ResourceInvalidated)
    }

    pub fn stateful_digital_out_set_inactive(&self, _h: u32) -> (r: Result<(), GpioError>)
        ensures
            r == Err::<(), GpioError>(GpioError::ResourceInvalidated),
    {
        Err(GpioError::ResourceInvalidated)
    }

    pub fn stateful_digital_out_toggle(&self, _h: u32) -> (r: Result<(), GpioError>)
        ensures
            r == Err::<(), GpioError>(GpioError::ResourceInvalidated),
    {
        Err(GpioError::ResourceInvalidated)
    }

    pub fn stateful_digital_out_is_set_active(&self, _h: u32) -> (r: Result<bool, GpioError>)
        ensures
            r == Err::<bool, GpioError>(GpioError::ResourceInvalidated),
    {
        Err(GpioError::ResourceInvalidated)
    }

    pub fn stateful_digital_out_is_set_inactive(&self, _h: u32) -> (r: Result<bool, GpioError>)
        ensures
            r == Err::<bool, GpioError>(GpioError::ResourceInvalidated),
    {
        Err(GpioError::ResourceInvalidated)
    }

    pub fn stateful_digital_out_get_state(&self, _h: u32) -> (r: Result<PinState, GpioError>)
        ensures
            r == Err::<PinState, GpioError>(GpioError::ResourceInvalidated),
    {
        Err(GpioError::ResourceInvalidated)
    }

    /// Acquires an analog output handle: the policy must grant
    /// AnalogOutput for the label, the flag set must be free of the DAC
    /// flag and select PWM, and the physical line must be claimable; it is
    /// claimed driven low. On failure nothing is issued and nothing
    /// changes.
    pub fn analog_out_get(&mut self, pin_label: String, flags: Vec<AnalogFlag>) -> (r: Result<
        u32,
        GpioError,
    >)
        requires
            old(self).wf(),
        ensures
            final(self).wf(),
            !old(self).ctx.policies.spec_mode_allowed(pin_label@, Mode::AnalogOutput) ==> r == Err::<
                u32,
                GpioError,
            >(GpioError::PinModeNotAllowed),
            old(self).ctx.policies.spec_mode_allowed(pin_label@, Mode::AnalogOutput)
                && spec_contains_any_analog(flags@, analog_out_disallowed()) ==> r == Err::<
                u32,
                GpioError,
            >(GpioError::InvalidFlag),
            old(self).ctx.policies.spec_mode_allowed(pin_label@, Mode::AnalogOutput)
                && !spec_contains_any_analog(flags@, analog_out_disallowed()) && spec_analog_config(
                pin_label,
                PinMode::Out,
                flags@,
            ) is Err ==> r is Err && (r == Err::<u32, GpioError>(GpioError::InvalidFlag) || (
            r matches Err(e) && e is Other)),
            r matches Ok(h) ==> {
                &&& old(self).ctx.policies.spec_mode_allowed(pin_label@, Mode::AnalogOutput)
                &&& !spec_contains_any_analog(flags@, analog_out_disallowed())
                &&& spec_analog_config(pin_label, PinMode::Out, flags@) matches Ok(cfg)
                    && final(self).analog_out.spec_valid(h)
                    && final(self).analog_out.spec_get(h).config == cfg
                &&& h == old(self).analog_out.slots@.len()
                &&& forall|h2: u32|
                    h2 != h ==> #[trigger] final(self).analog_out.spec_valid(h2) == old(
                        self,
                    ).analog_out.spec_valid(h2)
                &&& forall|h2: u32|
                    h2 != h && old(self).analog_out.spec_valid(h2)
                        ==> #[trigger] final(self).analog_out.spec_get(h2)
                        == old(self).analog_out.spec_get(h2)
                &&& final(self).ctx == old(self).ctx
                &&& final(self).digital_in == old(self).digital_in
                &&& final(self).digital_out == old(self).digital_out
                &&& final(self).digital_in_out == old(self).digital_in_out
                &&& final(self).pollables == old(self).pollables
            },
            r is Err ==> *final(self) == *old(self),
    {
        if !self.ctx.policies.is_mode_allowed(pin_label.as_str(), Mode::AnalogOutput) {
            return Err(GpioError::PinModeNotAllowed);
        }

        let disallowed = vec![AnalogFlag::Dac];
        proof {
            assert(disallowed@ =~= analog_out_disallowed());
        }
        if crate::analog::check_invalid_flags(&flags, disallowed).is_err() {
            return Err(GpioError::InvalidFlag);
        }

        let pin = match get_pin(&self.ctx, pin_label.as_str()) {
            Ok(p) => p,
            Err(e) => {
                return Err(e);
            },
        };
        let opin = hw::pin_into_output_low(pin);

        let config = match AnalogConfigBuilder::new(pin_label, PinMode::Out).add_flags(
            flags,
        ).build() {
            Ok(c) => c,
            Err(_) => {
                return Err(GpioError::InvalidFlag);
            },
        };

        if self.analog_out.len() >= u32::MAX as usize {
            return Err(GpioError::Other("resource table full".to_owned()));
        }
        let h = self.analog_out.push(AnalogOutPin::new(opin, config));
        Ok(h)
    }

    pub fn analog_out_get_config(&self, h: u32) -> (r: Result<AnalogConfig, GpioError>)
        ensures
            !self.analog_out.spec_valid(h) ==> r == Err::<AnalogConfig, GpioError>(
                GpioError::ResourceInvalidated,
            ),
            self.analog_out.spec_valid(h) ==> r == Ok::<AnalogConfig, GpioError>(
                self.analog_out.spec_get(h).config,
            ),
    {
        match self.analog_out.get(h) {
            Ok(pin) => Ok(pin.get_config()),
            Err(e) => Err(e),
        }
    }

    pub fn analog_out_is_ready(&self, h: u32) -> (r: bool)
        ensures
            r == self.analog_out.spec_valid(h),
    {
        self.analog_out.is_ready(h)
    }

    /// Drives the line of an analog output handle with the saturated raw
    /// duty value: a value above the representable maximum behaves exactly
    /// as the maximum, never an error. Only a driver failure, reported as
    /// opaque text, fails.
    pub fn analog_out_set_value_raw(&mut self, h: u32, value: u32) -> (r: Result<(), GpioError>)
        requires
            old(self).wf(),
        ensures
            final(self).wf(),
            !old(self).analog_out.spec_valid(h) ==> r == Err::<(), GpioError>(
                GpioError::ResourceInvalidated,
            ) && *final(self) == *old(self),
            old(self).analog_out.spec_valid(h) ==> {
                &&& (r is Ok || (r matches Err(e) && e is Other))
                &&& final(self).analog_out.spec_valid(h)
                &&& final(self).analog_out.spec_get(h).config == old(self).analog_out.spec_get(
                    h,
                ).config
                &&& forall|h2: u32|
                    h2 != h ==> #[trigger] final(self).analog_out.spec_valid(h2) == old(
                        self,
                    ).analog_out.spec_valid(h2)
                &&& forall|h2: u32|
                    h2 != h && old(self).analog_out.spec_valid(h2)
                        ==> #[trigger] final(self).analog_out.spec_get(h2)
                        == old(self).analog_out.spec_get(h2)
                &&& final(self).ctx == old(self).ctx
                &&& final(self).digital_in == old(self).digital_in
                &&& final(self).digital_out == old(self).digital_out
                &&& final(self).digital_in_out == old(self).digital_in_out
                &&& final(self).pollables == old(self).pollables
            },
    {
        let mut pin = match self.analog_out.take(h) {
            Ok(p) => p,
            Err(e) => {
                return Err(e);
            },
        };
        let result = pin.set_value_raw(value);
        self.analog_out.restore(h, pin);
        result
    }

    /// Releases an analog output handle.
    pub fn analog_out_release(&mut self, h: u32) -> (r: Result<(), GpioError>)
        requires
            old(self).wf(),
        ensures
            final(self).wf(),
            !final(self).analog_out.spec_valid(h),
            r is Ok <==> old(self).analog_out.spec_valid(h),
            r matches Err(e) ==> e == GpioError::ResourceInvalidated,
            forall|h2: u32|
                h2 != h ==> #[trigger] final(self).analog_out.spec_valid(h2) == old(
                    self,
                ).analog_out.spec_valid(h2),
            forall|h2: u32|
                h2 != h && old(self).analog_out.spec_valid(h2)
                    ==> #[trigger] final(self).analog_out.spec_get(h2) == old(self).analog_out.spec_get(h2),
            final(self).ctx == old(self).ctx,
            final(self).digital_in == old(self).digital_in,
            final(self).digital_out == old(self).digital_out,
            final(self).digital_in_out == old(self).digital_in_out,
            final(self).pollables == old(self).pollables,
    {
        self.analog_out.delete(h)
    }

    /// Analog input is structurally unsupported on this target: no handle
    /// can ever be acquired.
    pub fn analog_in_get(&self, _pin_label: String, _flags: Vec<AnalogFlag>) -> (r: Result<
        u32,
        GpioError,
    >)
        ensures
            r == Err::<u32, GpioError>(GpioError::PinModeNotAvailable),
    {
        Err(GpioError::PinModeNotAvailable)
    }

    pub fn analog_in_get_config(&self, _h: u32) -> (r: Result<AnalogConfig, GpioError>)
        ensures
            r == Err::<AnalogConfig, GpioError>(GpioError::ResourceInvalidated),
    {
        Err(GpioError::ResourceInvalidated)
    }

    pub fn analog_in_is_ready(&self, _h: u32) -> (r: bool)
        ensures
            !r,
    {
        false
    }

    pub fn analog_in_read_raw(&self, _h: u32) -> (r: Result<u32, GpioError>)
        ensures
            r == Err::<u32, GpioError>(GpioError::ResourceInvalidated),
    {
        Err(GpioError::ResourceInvalidated)
    }

    pub fn analog_in_watch_above_raw(&self, _h: u32, _value: u32) -> (r: Result<u32, GpioError>)
        ensures
            r == Err::<u32, GpioError>(GpioError::ResourceInvalidated),
    {
        Err(GpioError::ResourceInvalidated)
    }

    pub fn analog_in_watch_below_raw(&self, _h: u32, _value: u32) -> (r: Result<u32, GpioError>)
        ensures
            r == Err::<u32, GpioError>(GpioError::ResourceInvalidated),
    {
        Err(GpioError::ResourceInvalidated)
    }

    /// Analog input/output is structurally unsupported on this target: no
    /// handle can ever be acquired.
    pub fn analog_in_out_get(&self, _pin_label: String, _flags: Vec<AnalogFlag>) -> (r: Result<
        u32,
        GpioError,
    >)
        ensures
            r == Err::<u32, GpioError>(GpioError::PinModeNotAvailable),
    {
        Err(GpioError::PinModeNotAvailable)
    }

    pub fn analog_in_out_get_config(&self, _h: u32) -> (r: Result<AnalogConfig, GpioError>)
        ensures
            r == Err::<AnalogConfig, GpioError>(GpioError::ResourceInvalidated),
    {
        Err(GpioError::ResourceInvalidated)
    }

    pub fn analog_in_out_is_ready(&self, _h: u32) -> (r: bool)
        ensures
            !r,
    {
        false
    }

    pub fn analog_in_out_set_value_raw(&self, _h: u32, _value: u32) -> (r: Result<(), GpioError>)
        ensures
            r == Err::<(), GpioError>(GpioError::ResourceInvalidated),
    {
        Err(GpioError::ResourceInvalidated)
    }

    pub fn analog_in_out_read_raw(&self, _h: u32) -> (r: Result<u32, GpioError>)
        ensures
            r == Err::<u32, GpioError>(GpioError::ResourceInvalidated),
    {
        Err(GpioError::ResourceInvalidated)
    }

    pub fn analog_in_out_set_pin_mode(&self, _h: u32, _pin_mode: PinMode) -> (r: Result<
        (),
        GpioError,
    >)
        ensures
            r == Err::<(), GpioError>(GpioError::ResourceInvalidated),
    {
        Err(GpioError::ResourceInvalidated)
    }
}

/// The flags an acquisition of an analog output rejects outright: digital
/// conversion is not offered on this path.
pub open spec fn analog_out_disallowed() -> Seq<AnalogFlag> {
    seq![AnalogFlag::Dac]
}

} // verus!
