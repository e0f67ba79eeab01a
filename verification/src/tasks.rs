//! Units of work scheduled onto the UI thread.
//!
//! Background tasks and OS callbacks may not touch UI objects directly;
//! the sole sanctioned mechanism is to hand one of these task values to
//! the UI thread, which drains them in FIFO order between native events.

use vstd::prelude::*;

verus! {

/// A scheduled closure: deferred work that the UI thread runs on a
/// future event-loop iteration.
#[derive(Clone, Copy, PartialEq, Eq, Structural, Debug)]
pub enum UiTask {
    /// Bring the singleton window up: show it, creating it first if it
    /// does not exist yet.
    OpenOrShow,
    /// Apply deferred, state-driven initialisation to the live window
    /// with the given identity; a no-op if that window is gone.
    InitFromState { window_id: u64 },
}

} // verus!
