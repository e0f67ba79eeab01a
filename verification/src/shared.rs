//! The background state holder shared with asynchronous tasks.
//!
//! One instance exists per process, guarded by an async lock owned by the
//! surrounding runtime; the lock is held only for the in-memory update
//! below, never across a hop to the UI thread. The holder keeps no strong
//! reference to the window — only its identity, a weak handle that the UI
//! thread revalidates before use.

use vstd::prelude::*;

use crate::tasks::UiTask;

verus! {

/// The mutex-protected contents: a weak handle to the current window,
/// absent until the first window is created and registered.
pub struct SharedState {
    pub ui_handle: Option<u64>,
}

impl SharedState {
    /// A fresh holder: no window registered yet.
    pub fn new() -> (s: SharedState)
        ensures
            s.ui_handle is None,
    {
        SharedState { ui_handle: None }
    }

    /// Registers the freshly created window and hands back the deferred
    /// initialisation task, to be scheduled onto the UI thread; the task
    /// carries the handle so the UI thread can recheck liveness.
    pub fn set_ui_handle(&mut self, window_id: u64) -> (t: UiTask)
        ensures
            final(self).ui_handle == Some(window_id),
            t == (UiTask::InitFromState { window_id }),
    {
        self.ui_handle = Some(window_id);
        UiTask::InitFromState { window_id }
    }

    /// The currently registered weak handle, if any.
    pub fn ui_handle(&self) -> (r: Option<u64>)
        ensures
            r == self.ui_handle,
    {
        self.ui_handle
    }
}

impl Default for SharedState {
    /// Same as [`SharedState::new`]: nothing registered yet.
    fn default() -> (s: Self)
        ensures
            s.ui_handle is None,
    {
        SharedState { ui_handle: None }
    }
}

} // verus!
