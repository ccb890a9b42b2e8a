//! A small library for a local live-reload development server: rewriting
//! served HTML to carry a reload-client script, deciding how a request path
//! maps to a file under a served directory, buffering filesystem change
//! notifications in a bounded queue, and driving the per-connection
//! live-reload session as a state machine.

use vstd::prelude::*;

pub mod errors;
pub mod inject;
pub mod serve;
pub mod session;
pub mod watcher;

verus! {

/// Capacity of the bounded queue that buffers filesystem change
/// notifications between the watch callback and a session's event loop.
pub const NOTIFY_CHANNEL_CAPACITY: usize = 5;

} // verus!
