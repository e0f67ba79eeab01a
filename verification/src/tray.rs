//! Tray icon and menu: the construction plan and the event decisions.
//!
//! The OS delivers tray and menu events on a thread of its own choosing,
//! and it accepts exactly one handler per event class. The controller is
//! therefore installed once per process and acts as the single internal
//! dispatcher: each OS event is reduced here to either a task to schedule
//! on the UI thread or a quit request, and everything else is ignored.

use vstd::prelude::*;

use crate::icon::IconPixels;
use crate::tasks::UiTask;

verus! {

/// Identity of the single "Close" menu item.
pub const CLOSE_MENU_ID: u64 = 1;

/// How the tray icon was activated.
#[derive(Clone, Copy, PartialEq, Eq, Structural, Debug)]
pub enum ClickKind {
    /// A primary (left) click: the one activation that shows the window.
    Primary,
    /// A secondary (right) click, usually opening the menu.
    Secondary,
    /// A middle-button click.
    Middle,
    /// A double click.
    Double,
    /// The pointer entered, moved over, or left the icon.
    Hover,
}

/// An identified, labelled, enabled entry of the tray menu.
pub struct MenuEntry {
    pub id: u64,
    pub label: String,
    pub enabled: bool,
}

/// Everything the UI thread needs to realise the OS tray icon:
/// tooltip text, icon bitmap, and the menu entries in order.
pub struct TrayPlan {
    pub tooltip: String,
    pub icon: IconPixels,
    pub entries: Vec<MenuEntry>,
}

/// Builds the tray plan once and decides what each OS event leads to.
pub struct TrayController {
    /// Whether the tray icon currently exists.
    pub installed: bool,
}

impl TrayController {
    /// A fresh controller: no tray icon yet.
    pub fn new() -> (t: TrayController)
        ensures
            !t.installed,
    {
        TrayController { installed: false }
    }

    /// Plans the tray icon: tooltip, icon bitmap, and a menu with the one
    /// identified "Close" item. Installed exactly once per process, since
    /// the OS keeps only one handler per event class.
    pub fn install(&mut self, icon: IconPixels) -> (plan: TrayPlan)
        requires
            !old(self).installed,
        ensures
            final(self).installed,
            plan.tooltip@ == "MyApp"@,
            plan.icon.rgba@ == icon.rgba@,
            plan.icon.width == icon.width,
            plan.icon.height == icon.height,
            plan.entries@.len() == 1,
            plan.entries@[0].id == CLOSE_MENU_ID,
            plan.entries@[0].label@ == "Close"@,
            plan.entries@[0].enabled,
    {
        self.installed = true;
        let mut entries: Vec<MenuEntry> = Vec::new();
        entries.push(MenuEntry { id: CLOSE_MENU_ID, label: "Close".to_owned(), enabled: true });
        TrayPlan { tooltip: "MyApp".to_owned(), icon, entries }
    }

    /// Click filtering: a primary activation yields exactly one
    /// open-or-show task; every other activation yields none.
    pub fn click_task(click: ClickKind) -> (t: Option<UiTask>)
        ensures
            t == (if click is Primary {
                Some(UiTask::OpenOrShow)
            } else {
                None::<UiTask>
            }),
    {
        match click {
            ClickKind::Primary => Some(UiTask::OpenOrShow),
            _ => None,
        }
    }

    /// Menu identity matching: only the "Close" item's identity requests
    /// quitting; unknown identities are ignored, so the menu can grow.
    pub fn menu_matches_close(id: u64) -> (r: bool)
        ensures
            r == (id == CLOSE_MENU_ID),
    {
        id == CLOSE_MENU_ID
    }

    /// Ordered teardown: destroy the tray icon, so the OS removes the
    /// glyph promptly, before the process is allowed to exit.
    pub fn destroy(&mut self)
        ensures
            !final(self).installed,
    {
        self.installed = false;
    }
}

} // verus!
