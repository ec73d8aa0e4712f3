//! The watch-deduplication engine. A watch key is a physical condition on a
//! physical line; the registry maps each in-flight key to one session with
//! one shared trigger, so every caller watching the same condition fans into
//! the same observing task. The observing task itself is modeled as an
//! explicit state machine stepped by sampled levels; the embedding host runs
//! one thread per task, each of which fires the trigger and removes its own
//! session exactly once, through `complete`.

use vstd::prelude::*;
use crate::digital::spec_physical_of;
use crate::general::{ActiveLevel, Level, PinState};
use crate::util::str_eq;

verus! {

/// A physical condition on a line: a level to hold, or an edge to occur.
#[derive(Clone, Copy, PartialEq, Eq, Structural, Debug)]
pub enum WatchType {
    High,
    Low,
    Rising,
    Falling,
}

impl WatchType {
    /// The opposite condition: levels swap, edges swap.
    pub fn not(self) -> (r: Self)
        ensures
            r == self.spec_not(),
    {
        match self {
            WatchType::High => WatchType::Low,
            WatchType::Low => WatchType::High,
            WatchType::Rising => WatchType::Falling,
            WatchType::Falling => WatchType::Rising,
        }
    }

    pub open spec fn spec_not(self) -> Self {
        match self {
            WatchType::High => WatchType::Low,
            WatchType::Low => WatchType::High,
            WatchType::Rising => WatchType::Falling,
            WatchType::Falling => WatchType::Rising,
        }
    }
}

/// A watch key: the physical condition, expressed in polarity-normalized
/// terms, on a named physical line.
pub struct WatchEventKey {
    pub watch_type: WatchType,
    pub pin_label: String,
}

impl WatchEventKey {
    /// Key equivalence: same condition on the same line.
    pub open spec fn same(self, other: WatchEventKey) -> bool {
        self.watch_type == other.watch_type && self.pin_label@ == other.pin_label@
    }

    pub fn key_eq(&self, other: &WatchEventKey) -> (r: bool)
        ensures
            r == self.same(*other),
    {
        self.watch_type == other.watch_type && str_eq(
            self.pin_label.as_str(),
            other.pin_label.as_str(),
        )
    }

    /// A copy equal to the original.
    pub fn duplicate(&self) -> (r: WatchEventKey)
        ensures
            r == *self,
    {
        WatchEventKey { watch_type: self.watch_type, pin_label: self.pin_label.clone() }
    }
}

/// One in-flight watch: its key and the trigger its observers share.
pub struct WatchSession {
    pub key: WatchEventKey,
    pub trigger: u64,
}

/// Index of the first session whose key is equivalent to `key`, scanning
/// from position `i`.
pub open spec fn session_from(sessions: Seq<WatchSession>, key: WatchEventKey, i: int) -> Option<
    int,
>
    decreases sessions.len() - i,
{
    if i < 0 || i >= sessions.len() {
        None
    } else if sessions[i].key.same(key) {
        Some(i)
    } else {
        session_from(sessions, key, i + 1)
    }
}

/// The deduplicating watch registry: in-flight sessions, the states of every
/// trigger ever issued, and a counter of observing tasks ever requested.
/// Triggers are identified by index and never reclaimed, so a trigger may
/// outlive its registry entry.
pub struct Watcher {
    pub sessions: Vec<WatchSession>,
    pub triggers: Vec<bool>,
    pub spawned: u64,
}

impl Watcher {
    pub open spec fn spec_find_session(self, key: WatchEventKey) -> Option<int> {
        session_from(self.sessions@, key, 0)
    }

    pub open spec fn has_session(self, key: WatchEventKey) -> bool {
        self.spec_find_session(key) is Some
    }

    /// The state of a trigger: fired or not; an id never issued reads as
    /// unfired.
    pub open spec fn spec_trigger_state(self, t: u64) -> bool {
        t < self.triggers@.len() && self.triggers@[t as int]
    }

    /// Registry well-formedness: no two sessions share a key or a trigger,
    /// every session's trigger exists, and a registered session's trigger
    /// has not fired — a fired trigger's session is always already removed.
    pub open spec fn wf(self) -> bool {
        &&& forall|i: int, j: int|
            0 <= i < j < self.sessions@.len() ==> !(#[trigger] self.sessions@[i]).key.same(
                (#[trigger] self.sessions@[j]).key,
            )
        &&& forall|i: int, j: int|
            0 <= i < j < self.sessions@.len() ==> (#[trigger] self.sessions@[i].trigger)
                != (#[trigger] self.sessions@[j].trigger)
        &&& forall|i: int|
            0 <= i < self.sessions@.len() ==> (#[trigger] self.sessions@[i].trigger)
                < self.triggers@.len()
        &&& forall|i: int|
            0 <= i < self.sessions@.len() ==> !self.triggers@[(
            #[trigger] self.sessions@[i].trigger) as int]
    }

    pub fn new() -> (r: Self)
        ensures
            r.sessions@ =~= Seq::<WatchSession>::empty(),
            r.triggers@ =~= Seq::<bool>::empty(),
            r.spawned == 0,
            r.wf(),
    {
        Self { sessions: Vec::new(), triggers: Vec::new(), spawned: 0 }
    }

    /// Index of the first session for `key`, if any.
    fn find_session(&self, key: &WatchEventKey) -> (r: Option<usize>)
        ensures
            match r {
                Some(i) => i < self.sessions@.len() && self.spec_find_session(*key) == Some(
                    i as int,
                ),
                None => self.spec_find_session(*key) is None,
            },
    {
        let n = self.sessions.len();
        let mut i: usize = 0;
        while i < n
            invariant
                n == self.sessions@.len(),
                i <= n,
                session_from(self.sessions@, *key, 0) == session_from(
                    self.sessions@,
                    *key,
                    i as int,
                ),
            decreases n - i,
        {
            if self.sessions[i].key.key_eq(key) {
                return Some(i);
            }
            i += 1;
        }
        None
    }

    /// Registers interest in `key` and reports the trigger to poll plus
    /// whether a new observing task must be started for the key. A key with
    /// a live session fans in: the existing trigger is returned, nothing
    /// changes, no task starts. Otherwise a fresh unfired trigger and a
    /// session are created, and exactly then a task is owed — the session is
    /// visible the instant this returns, never without its task request.
    pub fn watch_event(&mut self, key: WatchEventKey) -> (r: (u64, bool))
        requires
            old(self).wf(),
        ensures
            final(self).wf(),
            watch_event_post(*old(self), key, *final(self), r.0, r.1),
    {
        match self.find_session(&key) {
            Some(i) => (self.sessions[i].trigger, false),
            None => {
                let ghost pre = *self;
                let trigger: u64 = self.triggers.len() as u64;
                self.triggers.push(false);
                self.sessions.push(WatchSession { key, trigger });
                self.spawned = if self.spawned < u64::MAX {
                    self.spawned + 1
                } else {
                    self.spawned
                };
                proof {
                    let post = *self;
                    lemma_session_from_props(pre.sessions@, key, 0);
                    lemma_session_find_extended(pre.sessions@, post.sessions@, key, 0);
                }
                (trigger, true)
            },
        }
    }

    /// Fires the trigger of the session for `key` and removes the session,
    /// both in one step: the key is reopened for a fresh session, and no
    /// later caller can fan into the fired trigger. Every other session and
    /// every other trigger is untouched. Called by the observing task for
    /// `key`, exactly once, right after it saw its condition.
    pub fn complete(&mut self, key: &WatchEventKey)
        requires
            old(self).wf(),
        ensures
            final(self).wf(),
            complete_post(*old(self), *key, *final(self)),
    {
        match self.find_session(key) {
            Some(i) => {
                let ghost pre = *self;
                let session = self.sessions.remove(i);
                let tlen = self.triggers.len();
                proof {
                    assert(session == pre.sessions@[i as int]);
                    assert(session.trigger < tlen);
                }
                self.triggers.set(session.trigger as usize, true);
                proof {
                    let post = *self;
                    lemma_session_from_props(pre.sessions@, *key, 0);
                    pre.sessions@.remove_ensures(i as int);
                    assert forall|a: int|
                        0 <= a < pre.sessions@.len() && a != i implies !(
                    #[trigger] pre.sessions@[a]).key.same(*key) by {
                        if a < i {
                            assert(!pre.sessions@[a].key.same(pre.sessions@[i as int].key));
                        } else {
                            assert(!pre.sessions@[i as int].key.same(pre.sessions@[a].key));
                        }
                    }
                    assert forall|j: int|
                        0 <= j < post.sessions@.len() implies !(#[trigger] post.sessions@[j]).key.same(
                        *key,
                    ) by {
                        if j < i {
                            assert(post.sessions@[j] == pre.sessions@[j]);
                        } else {
                            assert(post.sessions@[j] == pre.sessions@[j + 1]);
                        }
                    }
                    lemma_no_match_find_none(post.sessions@, *key, 0);
                }
            },
            None => {},
        }
    }

    /// Non-blocking read of a trigger's state.
    pub fn trigger_ready(&self, t: u64) -> (r: bool)
        ensures
            r == self.spec_trigger_state(t),
    {
        if t < self.triggers.len() as u64 {
            self.triggers[t as usize]
        } else {
            false
        }
    }
}

/// Exactly what one `watch_event` call does, as a relation between the
/// registry before, the registry after, the returned trigger, and whether a
/// task was requested.
pub open spec fn watch_event_post(
    pre: Watcher,
    key: WatchEventKey,
    post: Watcher,
    trigger: u64,
    spawned: bool,
) -> bool {
    match pre.spec_find_session(key) {
        Some(i) => {
            &&& !spawned
            &&& trigger == pre.sessions@[i].trigger
            &&& post.sessions@ == pre.sessions@
            &&& post.triggers@ == pre.triggers@
            &&& post.spawned == pre.spawned
        },
        None => {
            &&& spawned
            &&& trigger == pre.triggers@.len()
            &&& post.sessions@ =~= pre.sessions@.push(WatchSession { key, trigger })
            &&& post.triggers@ =~= pre.triggers@.push(false)
            &&& post.spawned == if pre.spawned < u64::MAX {
                pre.spawned + 1
            } else {
                pre.spawned as int
            }
            &&& post.spec_find_session(key) == Some(pre.sessions@.len() as int)
        },
    }
}

/// Exactly what one `complete` call does.
pub open spec fn complete_post(pre: Watcher, key: WatchEventKey, post: Watcher) -> bool {
    match pre.spec_find_session(key) {
        Some(i) => {
            &&& post.sessions@ =~= pre.sessions@.remove(i)
            &&& post.triggers@ =~= pre.triggers@.update(pre.sessions@[i].trigger as int, true)
            &&& post.spawned == pre.spawned
            &&& !post.has_session(key)
        },
        None => {
            &&& post.sessions@ == pre.sessions@
            &&& post.triggers@ == pre.triggers@
            &&& post.spawned == pre.spawned
        },
    }
}

/// What a scan from position `i` guarantees: a found index holds a matching
/// key, and a failed scan means nothing from `i` on matches.
proof fn lemma_session_from_props(sessions: Seq<WatchSession>, key: WatchEventKey, i: int)
    requires
        0 <= i <= sessions.len(),
    ensures
        match session_from(sessions, key, i) {
            Some(m) => i <= m < sessions.len() && sessions[m].key.same(key),
            None => forall|j: int|
                i <= j < sessions.len() ==> !(#[trigger] sessions[j]).key.same(key),
        },
    decreases sessions.len() - i,
{
    if i < sessions.len() {
        lemma_session_from_props(sessions, key, i + 1);
    }
}

proof fn lemma_no_match_find_none(sessions: Seq<WatchSession>, key: WatchEventKey, i: int)
    requires
        0 <= i <= sessions.len(),
        forall|j: int| i <= j < sessions.len() ==> !(#[trigger] sessions[j]).key.same(key),
    ensures
        session_from(sessions, key, i) is None,
    decreases sessions.len() - i,
{
    if i < sessions.len() {
        lemma_no_match_find_none(sessions, key, i + 1);
    }
}

proof fn lemma_session_find_extended(
    pre: Seq<WatchSession>,
    post: Seq<WatchSession>,
    key: WatchEventKey,
    i: int,
)
    requires
        0 <= i <= pre.len(),
        post.len() == pre.len() + 1,
        forall|j: int| 0 <= j < pre.len() ==> post[j] == pre[j],
        session_from(pre, key, i) is None,
        post[pre.len() as int].key.same(key),
    ensures
        session_from(post, key, i) == Some(pre.len() as int),
    decreases pre.len() - i,
{
    if i < pre.len() {
        lemma_session_find_extended(pre, post, key, i + 1);
    }
}

/// Law: two watch requests for the same key, issued before either fires,
/// share one session. The second request returns the same trigger as the
/// first, requests no new observing task, and leaves the registry — spawn
/// counter included — exactly as the first left it.
pub proof fn lemma_watch_event_dedup(
    w0: Watcher,
    key: WatchEventKey,
    w1: Watcher,
    t1: u64,
    s1: bool,
    w2: Watcher,
    t2: u64,
    s2: bool,
)
    requires
        w0.wf(),
        watch_event_post(w0, key, w1, t1, s1),
        watch_event_post(w1, key, w2, t2, s2),
    ensures
        t2 == t1,
        !s2,
        w2.sessions@ == w1.sessions@,
        w2.triggers@ == w1.triggers@,
        w2.spawned == w1.spawned,
{
    match w0.spec_find_session(key) {
        Some(i) => {
            lemma_session_from_props(w0.sessions@, key, 0);
        },
        None => {},
    }
}

/// The physical condition behind a logical state watch: the level that
/// realizes the state through the pin's polarity.
pub open spec fn spec_state_watch(state: PinState, al: ActiveLevel) -> WatchType {
    match spec_physical_of(state, al) {
        Level::High => WatchType::High,
        Level::Low => WatchType::Low,
    }
}

/// Normalizes a logical state watch into physical terms: watching Active on
/// an active-low pin is watching physical Low.
pub fn state_watch(state: PinState, al: ActiveLevel) -> (r: WatchType)
    ensures
        r == spec_state_watch(state, al),
{
    let watch_type = match state {
        PinState::Active => WatchType::High,
        PinState::Inactive => WatchType::Low,
    };
    match al {
        ActiveLevel::ActiveHigh => watch_type,
        ActiveLevel::ActiveLow => watch_type.not(),
    }
}

/// The physical edge behind a logical rising edge: inverted polarity swaps
/// the edges.
pub open spec fn spec_rising_watch(al: ActiveLevel) -> WatchType {
    match al {
        ActiveLevel::ActiveHigh => WatchType::Rising,
        ActiveLevel::ActiveLow => WatchType::Falling,
    }
}

pub fn rising_watch(al: ActiveLevel) -> (r: WatchType)
    ensures
        r == spec_rising_watch(al),
{
    match al {
        ActiveLevel::ActiveHigh => WatchType::Rising,
        ActiveLevel::ActiveLow => WatchType::Falling,
    }
}

/// The physical edge behind a logical falling edge.
pub open spec fn spec_falling_watch(al: ActiveLevel) -> WatchType {
    match al {
        ActiveLevel::ActiveHigh => WatchType::Falling,
        ActiveLevel::ActiveLow => WatchType::Rising,
    }
}

pub fn falling_watch(al: ActiveLevel) -> (r: WatchType)
    ensures
        r == spec_falling_watch(al),
{
    match al {
        ActiveLevel::ActiveHigh => WatchType::Falling,
        ActiveLevel::ActiveLow => WatchType::Rising,
    }
}

/// The level whose observation lets a watch fire.
pub open spec fn target_level(wt: WatchType) -> Level {
    match wt {
        WatchType::High => Level::High,
        WatchType::Low => Level::Low,
        WatchType::Rising => Level::High,
        WatchType::Falling => Level::Low,
    }
}

/// The level an edge watch must observe before its target counts; a level
/// watch has no such antecedent.
pub open spec fn antecedent_level(wt: WatchType) -> Option<Level> {
    match wt {
        WatchType::High => None,
        WatchType::Low => None,
        WatchType::Rising => Some(Level::Low),
        WatchType::Falling => Some(Level::High),
    }
}

/// The state of one observing task between samples: which condition it
/// watches, and whether the required antecedent level has been observed. A
/// level watch is armed from the start; an edge watch arms only once its
/// antecedent level is seen.
pub struct WatchTaskState {
    pub watch_type: WatchType,
    pub armed: bool,
}

impl WatchTaskState {
    pub open spec fn spec_start(wt: WatchType) -> WatchTaskState {
        WatchTaskState { watch_type: wt, armed: antecedent_level(wt) is None }
    }

    /// The task state at the start of a watch: a level watch may fire on the
    /// very first sample, an edge watch must first observe its antecedent.
    pub fn start(wt: WatchType) -> (r: WatchTaskState)
        ensures
            r == WatchTaskState::spec_start(wt),
    {
        let armed = match wt {
            WatchType::High => true,
            WatchType::Low => true,
            WatchType::Rising => false,
            WatchType::Falling => false,
        };
        WatchTaskState { watch_type: wt, armed }
    }

    /// One sample: fires iff the task is armed and the target level is
    /// observed; arming is checked against the state before this sample, so
    /// the sample that arms an edge watch can never itself fire it.
    pub open spec fn spec_step(self, level: Level) -> (WatchTaskState, bool) {
        let fired = self.armed && level == target_level(self.watch_type);
        let armed = self.armed || (match antecedent_level(self.watch_type) {
            Some(a) => level == a,
            None => true,
        });
        (WatchTaskState { watch_type: self.watch_type, armed }, fired)
    }

    /// Feeds one sampled level to the task.
    pub fn step(&mut self, level: Level) -> (fired: bool)
        ensures
            *final(self) == old(self).spec_step(level).0,
            fired == old(self).spec_step(level).1,
    {
        let fired = self.armed && level == match self.watch_type {
            WatchType::High => Level::High,
            WatchType::Low => Level::Low,
            WatchType::Rising => Level::High,
            WatchType::Falling => Level::Low,
        };
        match self.watch_type {
            WatchType::Rising => {
                if level == Level::Low {
                    self.armed = true;
                }
            },
            WatchType::Falling => {
                if level == Level::High {
                    self.armed = true;
                }
            },
            _ => {
                self.armed = true;
            },
        }
        fired
    }
}

/// The task state and whether the watch has fired after feeding a whole
/// sequence of samples, oldest first.
pub open spec fn spec_run(ts: WatchTaskState, obs: Seq<Level>) -> (WatchTaskState, bool)
    decreases obs.len(),
{
    if obs.len() == 0 {
        (ts, false)
    } else {
        let prev = spec_run(ts, obs.drop_last());
        let stepped = prev.0.spec_step(obs.last());
        (stepped.0, prev.1 || stepped.1)
    }
}

proof fn lemma_edge_run_props(wt: WatchType, a: Level, obs: Seq<Level>)
    requires
        antecedent_level(wt) == Some(a),
    ensures
        spec_run(WatchTaskState::spec_start(wt), obs).0.watch_type == wt,
        spec_run(WatchTaskState::spec_start(wt), obs).0.armed <==> exists|j: int|
            0 <= j < obs.len() && obs[j] == a,
        spec_run(WatchTaskState::spec_start(wt), obs).1 <==> exists|j: int, k: int|
            #![trigger obs[j], obs[k]]
            0 <= j < k < obs.len() && obs[j] == a && obs[k] == target_level(wt),
    decreases obs.len(),
{
    if obs.len() > 0 {
        let s = obs.drop_last();
        lemma_edge_run_props(wt, a, s);
        assert(forall|x: int| 0 <= x < s.len() ==> s[x] == obs[x]);
        let prev = spec_run(WatchTaskState::spec_start(wt), s);
        if prev.0.armed {
            let j = choose|j: int| 0 <= j < s.len() && s[j] == a;
            assert(obs[j] == a);
        }
        if prev.1 {
            let (j, k) = choose|j: int, k: int|
                #![trigger s[j], s[k]]
                0 <= j < k < s.len() && s[j] == a && s[k] == target_level(wt);
            assert(obs[j] == a && obs[k] == target_level(wt));
        }
        if spec_run(WatchTaskState::spec_start(wt), obs).1 && !prev.1 {
            assert(prev.0.armed && obs.last() == target_level(wt));
            let j = choose|j: int| 0 <= j < s.len() && s[j] == a;
            assert(obs[j] == a && obs[obs.len() - 1] == target_level(wt));
        }
        if exists|j: int, k: int|
            #![trigger obs[j], obs[k]]
            0 <= j < k < obs.len() && obs[j] == a && obs[k] == target_level(wt) {
            let (j, k) = choose|j: int, k: int|
                #![trigger obs[j], obs[k]]
                0 <= j < k < obs.len() && obs[j] == a && obs[k] == target_level(wt);
            if k < obs.len() - 1 {
                assert(s[j] == a && s[k] == target_level(wt));
            } else {
                assert(s[j] == a);
                assert(prev.0.armed);
                assert(spec_run(WatchTaskState::spec_start(wt), obs).1);
            }
        }
    }
}

/// Law: a rising-edge watch fires exactly when the line has been observed
/// low and, strictly later, high. In particular a rising-edge watch started
/// while the line is already high does not fire until the line is first
/// observed low and then high again.
pub proof fn lemma_rising_edge_needs_low_then_high(obs: Seq<Level>)
    ensures
        spec_run(WatchTaskState::spec_start(WatchType::Rising), obs).1 <==> exists|j: int, k: int|
            #![trigger obs[j], obs[k]]
            0 <= j < k < obs.len() && obs[j] == Level::Low && obs[k] == Level::High,
{
    lemma_edge_run_props(WatchType::Rising, Level::Low, obs);
}

/// Law: while only high levels are observed, a rising-edge watch never
/// fires.
pub proof fn lemma_rising_edge_idle_while_high(obs: Seq<Level>)
    requires
        forall|i: int| 0 <= i < obs.len() ==> obs[i] == Level::High,
    ensures
        !spec_run(WatchTaskState::spec_start(WatchType::Rising), obs).1,
{
    lemma_rising_edge_needs_low_then_high(obs);
}

/// Law: a level watch fires on the very first sample at its level — a
/// high-level watch started while the line is already high fires
/// immediately.
pub proof fn lemma_level_watch_fires_immediately(wt: WatchType, level: Level)
    requires
        wt == WatchType::High || wt == WatchType::Low,
    ensures
        WatchTaskState::spec_start(wt).spec_step(level).1 <==> level == target_level(wt),
{
}

} // verus!
