//! Host-side GPIO capability library: policy-checked acquisition of named
//! digital and analog lines, flag validation, polarity translation, and a
//! deduplicating watch registry that shares one observing task per physical
//! condition.

pub mod analog;
pub mod ctx;
pub mod delay;
pub mod digital;
pub mod general;
pub mod hw;
pub mod impls;
pub mod policies;
pub mod poll;
pub mod table;
pub mod util;
pub mod watch_event;
