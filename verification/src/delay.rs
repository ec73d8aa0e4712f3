//! The delay capability. Sleeping is the embedding host's affair; the
//! library only defines the resource the capability surface names.

use vstd::prelude::*;

verus! {

/// A delay resource: its operations suspend the calling guest for a given
/// time, which the embedding host performs.
pub struct Delay {}

} // verus!
