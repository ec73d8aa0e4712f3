//! The per-host GPIO context: the policy table, loaded once before any
//! request is served, and the watch registry.

use vstd::prelude::*;
use crate::policies::Policies;
use crate::watch_event::Watcher;

verus! {

pub struct WasiGpioCtx {
    pub policies: Policies,
    pub watcher: Watcher,
}

impl WasiGpioCtx {
    pub fn new(policies: Policies) -> (r: Self)
        ensures
            r.policies == policies,
            r.watcher.sessions@ =~= Seq::<crate::watch_event::WatchSession>::empty(),
            r.watcher.triggers@ =~= Seq::<bool>::empty(),
            r.watcher.spawned == 0,
            r.watcher.wf(),
    {
        Self { policies, watcher: Watcher::new() }
    }
}

} // verus!
