//! Trigger polling: a pollable wraps a trigger id, `ready` is a
//! non-blocking read, and `poll` is the non-blocking multi-readiness check a
//! caller uses to wait on many conditions at once. Blocking is the
//! embedding host's affair: it spins on `ready`, yielding its scheduling
//! quantum each iteration.

use vstd::prelude::*;
use crate::watch_event::Watcher;

verus! {

/// A handle on one trigger issued by the watch registry.
pub struct Pollable {
    pub trigger: u64,
}

impl Pollable {
    pub fn new(trigger: u64) -> (r: Self)
        ensures
            r.trigger == trigger,
    {
        Pollable { trigger }
    }

    /// Non-blocking read of the watched condition's state.
    pub fn ready(&self, watcher: &Watcher) -> (r: bool)
        ensures
            r == watcher.spec_trigger_state(self.trigger),
    {
        watcher.trigger_ready(self.trigger)
    }
}

/// The indices, in order, of the pollables whose triggers have fired.
pub open spec fn spec_ready_indices(w: Watcher, s: Seq<Pollable>) -> Seq<u32>
    decreases s.len(),
{
    if s.len() == 0 {
        Seq::empty()
    } else {
        let prefix = spec_ready_indices(w, s.drop_last());
        if w.spec_trigger_state(s.last().trigger) {
            prefix.push((s.len() - 1) as u32)
        } else {
            prefix
        }
    }
}

/// Reports which of the given pollables are ready, by index, without
/// blocking on any of them.
pub fn poll(watcher: &Watcher, pollables: &Vec<Pollable>) -> (r: Vec<u32>)
    requires
        pollables@.len() <= u32::MAX,
    ensures
        r@ == spec_ready_indices(*watcher, pollables@),
{
    let mut out: Vec<u32> = Vec::new();
    let n = pollables.len();
    let mut i: usize = 0;
    while i < n
        invariant
            n == pollables@.len(),
            n <= u32::MAX,
            i <= n,
            out@ == spec_ready_indices(*watcher, pollables@.take(i as int)),
        decreases n - i,
    {
        proof {
            assert(pollables@.take(i + 1).drop_last() =~= pollables@.take(i as int));
            assert(pollables@.take(i + 1).last() == pollables@[i as int]);
        }
        if watcher.trigger_ready(pollables[i].trigger) {
            out.push(i as u32);
        }
        i += 1;
    }
    proof {
        assert(pollables@.take(n as int) =~= pollables@);
    }
    out
}

} // verus!
