//! Singleton-window lifecycle: create once, reuse thereafter.
//!
//! The manager owns the one strong reference to the current window, in a
//! registry slot. Everyone else holds only the window's identity and must
//! go through [`WindowManager::lookup`], which hands the window back only
//! while it is still alive. All of this state belongs to the UI thread;
//! other threads reach it solely through scheduled tasks.

use vstd::prelude::*;

verus! {

/// The identity granted to the singleton window when it is created.
pub const WINDOW_ID: u64 = 1;

/// What the UI thread observes of the singleton window.
#[derive(Clone, Copy, PartialEq, Eq, Structural, Debug)]
pub struct WindowRecord {
    /// Identity, used to detect "already exists" and stale handles.
    pub id: u64,
    /// Whether the window is currently shown on screen.
    pub visible: bool,
}

/// What an open-or-show request asks the UI thread to do next.
#[derive(Clone, Copy, PartialEq, Eq, Structural, Debug)]
pub enum OpenAction {
    /// The window already exists: bring the one with this identity to
    /// front. Nothing new is constructed.
    ShowExisting(u64),
    /// No window exists yet: construct one with this identity, then
    /// report the outcome through `window_created` or
    /// `window_create_failed`.
    CreateNew(u64),
}

/// Owns the singleton-window registry slot.
pub struct WindowManager {
    /// The slot holding the one window, absent until first creation.
    pub window: Option<WindowRecord>,
    /// A creation was requested and its outcome is not yet reported.
    pub pending_create: bool,
}

impl WindowManager {
    /// A fresh manager: no window yet, none being created.
    pub fn new() -> (m: WindowManager)
        ensures
            m.window is None,
            !m.pending_create,
    {
        WindowManager { window: None, pending_create: false }
    }

    /// The action an open-or-show request decides on in this state.
    pub open spec fn open_action_of(self) -> OpenAction {
        match self.window {
            Some(w) => OpenAction::ShowExisting(w.id),
            None => OpenAction::CreateNew(WINDOW_ID),
        }
    }

    /// Open-or-show: reuse the live window, showing it again, or ask for
    /// a single new one. Never constructs a duplicate.
    pub fn open_or_show(&mut self) -> (a: OpenAction)
        requires
            !old(self).pending_create,
        ensures
            a == old(self).open_action_of(),
            old(self).window matches Some(w) ==> final(self).window
                == Some(WindowRecord { id: w.id, visible: true }),
            old(self).window matches Some(_w) ==> !final(self).pending_create,
            old(self).window is None ==> final(self).window is None
                && final(self).pending_create,
    {
        match self.window {
            Some(w) => {
                self.window = Some(WindowRecord { id: w.id, visible: true });
                OpenAction::ShowExisting(w.id)
            }
            None => {
                self.pending_create = true;
                OpenAction::CreateNew(WINDOW_ID)
            }
        }
    }

    /// The requested construction succeeded: store the window in the
    /// slot, shown, and hand back its identity for registration.
    pub fn window_created(&mut self) -> (id: u64)
        requires
            old(self).pending_create,
            old(self).window is None,
        ensures
            id == WINDOW_ID,
            final(self).window == Some(WindowRecord { id: WINDOW_ID, visible: true }),
            !final(self).pending_create,
    {
        self.pending_create = false;
        self.window = Some(WindowRecord { id: WINDOW_ID, visible: true });
        WINDOW_ID
    }

    /// The requested construction failed: a silent no-op, so the tray
    /// stays usable and a later attempt may succeed.
    pub fn window_create_failed(&mut self)
        requires
            old(self).pending_create,
        ensures
            final(self).window == old(self).window,
            !final(self).pending_create,
    {
        self.pending_create = false;
    }

    /// The user closed the window through its own chrome: it leaves the
    /// screen but the slot keeps it, ready to be re-shown.
    pub fn window_closed(&mut self)
        requires
            old(self).window is Some,
        ensures
            old(self).window matches Some(w) ==> final(self).window
                == Some(WindowRecord { id: w.id, visible: false }),
            final(self).pending_create == old(self).pending_create,
    {
        match self.window {
            Some(w) => {
                self.window = Some(WindowRecord { id: w.id, visible: false });
            }
            None => {}
        }
    }

    /// The window, if the slot holds one with this identity.
    pub open spec fn spec_lookup(self, id: u64) -> Option<WindowRecord> {
        match self.window {
            Some(w) => if w.id == id {
                Some(w)
            } else {
                None
            },
            None => None,
        }
    }

    /// Weak-handle liveness check: a handle is just an identity, and the
    /// lookup yields the window only while that identity is still alive.
    pub fn lookup(&self, id: u64) -> (r: Option<WindowRecord>)
        ensures
            r == self.spec_lookup(id),
    {
        match &self.window {
            Some(w) => if w.id == id {
                Some(*w)
            } else {
                None
            },
            None => None,
        }
    }
}

} // verus!
