//! The top-level orchestrator of the application lifetime.
//!
//! The bridge owns the registry that the other components work against:
//! the tray controller, the singleton-window manager, and the FIFO queue
//! of tasks scheduled onto the UI thread. Its whole behaviour is pinned
//! to one mathematical transition function, [`step`], over the ghost
//! [`Model`]; the lifecycle laws are proved against that function.

use vstd::prelude::*;

use crate::icon::IconPixels;
use crate::tasks::UiTask;
use crate::tray::ClickKind;
use crate::tray::TrayController;
use crate::tray::TrayPlan;
use crate::tray::CLOSE_MENU_ID;
use crate::window::OpenAction;
use crate::window::WindowManager;
use crate::window::WindowRecord;
use crate::window::WINDOW_ID;

verus! {

/// Where the process stands in its lifetime.
#[derive(Clone, Copy, PartialEq, Eq, Structural, Debug)]
pub enum Phase {
    /// From process start until the UI event loop returns.
    Active,
    /// The event loop has returned; teardown is still owed.
    LoopExited,
    /// Teardown is done; the process may exit.
    Terminated,
}

/// One observable occurrence in the life of the application.
#[derive(Clone, Copy, PartialEq, Eq, Structural, Debug)]
pub enum Event {
    /// The tray icon and its callbacks were installed.
    TrayInstalled,
    /// The OS delivered a tray-icon activation.
    TrayClick { click: ClickKind },
    /// The OS delivered a menu-item activation.
    MenuActivated { id: u64 },
    /// A task was scheduled onto the UI thread from outside.
    Scheduled { task: UiTask },
    /// The UI thread took the next scheduled task.
    TaskDrained,
    /// The UI thread ran an open-or-show request.
    OpenRequested,
    /// A requested window construction succeeded.
    WindowCreated,
    /// A requested window construction failed.
    WindowCreateFailed,
    /// The user closed the window through its own chrome.
    WindowClosed,
    /// The UI event loop returned.
    LoopExited,
    /// The tray icon was destroyed after the loop returned.
    TornDown,
}

/// The mathematical state of the whole application.
#[verifier::ext_equal]
pub struct Model {
    pub phase: Phase,
    pub tray_installed: bool,
    pub window: Option<WindowRecord>,
    pub pending_create: bool,
    pub queue: Seq<UiTask>,
    pub quit_requested: bool,
}

/// The state at process start: nothing installed, no window, an empty
/// queue, no quit requested.
pub open spec fn init_model() -> Model {
    Model {
        phase: Phase::Active,
        tray_installed: false,
        window: None,
        pending_create: false,
        queue: Seq::empty(),
        quit_requested: false,
    }
}

/// The action an open-or-show request decides on in a given state.
pub open spec fn open_action_of(m: Model) -> OpenAction {
    match m.window {
        Some(w) => OpenAction::ShowExisting(w.id),
        None => OpenAction::CreateNew(WINDOW_ID),
    }
}

/// The window a weak handle still reaches in a given state, if any.
pub open spec fn live_window(m: Model, id: u64) -> Option<WindowRecord> {
    match m.window {
        Some(w) => if w.id == id {
            Some(w)
        } else {
            None
        },
        None => None,
    }
}

/// The transition each event makes. Total: an event that is not enabled
/// in the given state leaves it unchanged.
pub open spec fn step(m: Model, e: Event) -> Model {
    match e {
        Event::TrayInstalled => if m.phase is Active && !m.tray_installed {
            Model { tray_installed: true, ..m }
        } else {
            m
        },
        Event::TrayClick { click } => if m.phase is Active && m.tray_installed
            && click is Primary {
            Model { queue: m.queue.push(UiTask::OpenOrShow), ..m }
        } else {
            m
        },
        Event::MenuActivated { id } => if m.phase is Active && m.tray_installed
            && id == CLOSE_MENU_ID {
            Model { quit_requested: true, ..m }
        } else {
            m
        },
        Event::Scheduled { task } => if m.phase is Active {
            Model { queue: m.queue.push(task), ..m }
        } else {
            m
        },
        Event::TaskDrained => if m.phase is Active && m.queue.len() > 0 {
            Model { queue: m.queue.drop_first(), ..m }
        } else {
            m
        },
        Event::OpenRequested => if m.phase is Active && !m.pending_create {
            match m.window {
                Some(w) => Model { window: Some(WindowRecord { id: w.id, visible: true }), ..m },
                None => Model { pending_create: true, ..m },
            }
        } else {
            m
        },
        Event::WindowCreated => if m.phase is Active && m.pending_create && m.window is None {
            Model {
                window: Some(WindowRecord { id: WINDOW_ID, visible: true }),
                pending_create: false,
                ..m
            }
        } else {
            m
        },
        Event::WindowCreateFailed => if m.phase is Active && m.pending_create {
            Model { pending_create: false, ..m }
        } else {
            m
        },
        Event::WindowClosed => if m.phase is Active {
            match m.window {
                Some(w) => Model { window: Some(WindowRecord { id: w.id, visible: false }), ..m },
                None => m,
            }
        } else {
            m
        },
        Event::LoopExited => if m.phase is Active {
            Model { phase: Phase::LoopExited, ..m }
        } else {
            m
        },
        Event::TornDown => if m.phase is LoopExited {
            Model { phase: Phase::Terminated, tray_installed: false, ..m }
        } else {
            m
        },
    }
}

/// Event-loop configuration. The loop must keep running in the tray
/// after the last window closes; exiting then would strand the process
/// with no way to ever be shown again.
pub struct LoopSettings {
    pub quit_on_last_window_closed: bool,
}

/// The one sanctioned configuration of the UI backend's event loop.
pub fn loop_settings() -> (s: LoopSettings)
    ensures
        !s.quit_on_last_window_closed,
{
    LoopSettings { quit_on_last_window_closed: false }
}

/// The explicit registry of process-wide state, owned here and injected
/// into the components rather than kept in ambient globals.
pub struct Bridge {
    pub phase: Phase,
    pub tray: TrayController,
    pub windows: WindowManager,
    pub queue: Vec<UiTask>,
    pub quit_requested: bool,
}

impl View for Bridge {
    type V = Model;

    open spec fn view(&self) -> Model {
        Model {
            phase: self.phase,
            tray_installed: self.tray.installed,
            window: self.windows.window,
            pending_create: self.windows.pending_create,
            queue: self.queue@,
            quit_requested: self.quit_requested,
        }
    }
}

impl Bridge {
    /// The registry at process start.
    pub fn new() -> (b: Bridge)
        ensures
            b@ == init_model(),
    {
        let b = Bridge {
            phase: Phase::Active,
            tray: TrayController::new(),
            windows: WindowManager::new(),
            queue: Vec::new(),
            quit_requested: false,
        };
        proof {
            assert(b@ =~= init_model());
        }
        b
    }

    /// Installs the tray controller and yields the plan the UI thread
    /// realises as the OS tray icon. Failure to realise it is fatal to
    /// the process: without a tray the application can never be shown.
    pub fn install_tray(&mut self, icon: IconPixels) -> (plan: TrayPlan)
        requires
            old(self)@.phase is Active,
            !old(self)@.tray_installed,
        ensures
            final(self)@ == step(old(self)@, Event::TrayInstalled),
            final(self)@.tray_installed,
            plan.tooltip@ == "MyApp"@,
            plan.icon.rgba@ == icon.rgba@,
            plan.icon.width == icon.width,
            plan.icon.height == icon.height,
            plan.entries@.len() == 1,
            plan.entries@[0].id == CLOSE_MENU_ID,
            plan.entries@[0].label@ == "Close"@,
            plan.entries@[0].enabled,
    {
        let plan = self.tray.install(icon);
        proof {
            assert(self@ =~= step(old(self)@, Event::TrayInstalled));
        }
        plan
    }

    /// The single dispatcher for OS tray activations, called from
    /// whatever thread the OS chose: a primary click schedules exactly
    /// one open-or-show task, every other activation schedules nothing.
    pub fn on_tray_event(&mut self, click: ClickKind)
        requires
            old(self)@.phase is Active,
            old(self)@.tray_installed,
        ensures
            final(self)@ == step(old(self)@, Event::TrayClick { click }),
            click is Primary ==> final(self)@.queue == old(self)@.queue.push(
                UiTask::OpenOrShow,
            ),
            !(click is Primary) ==> final(self)@ == old(self)@,
    {
        match TrayController::click_task(click) {
            Some(task) => self.queue.push(task),
            None => {}
        }
        proof {
            assert(self@ =~= step(old(self)@, Event::TrayClick { click }));
        }
    }

    /// The single dispatcher for OS menu activations: exactly the
    /// "Close" item's identity yields a quit request, which the caller
    /// forwards to the event loop; any other identity is ignored.
    pub fn on_menu_event(&mut self, id: u64) -> (quit: bool)
        requires
            old(self)@.phase is Active,
            old(self)@.tray_installed,
        ensures
            quit == (id == CLOSE_MENU_ID),
            final(self)@ == step(old(self)@, Event::MenuActivated { id }),
            id != CLOSE_MENU_ID ==> final(self)@ == old(self)@,
    {
        let quit = TrayController::menu_matches_close(id);
        if quit {
            self.quit_requested = true;
        }
        proof {
            assert(self@ =~= step(old(self)@, Event::MenuActivated { id }));
        }
        quit
    }

    /// Schedules a task onto the UI thread, behind any already waiting.
    pub fn schedule(&mut self, task: UiTask)
        requires
            old(self)@.phase is Active,
        ensures
            final(self)@ == step(old(self)@, Event::Scheduled { task }),
            final(self)@.queue == old(self)@.queue.push(task),
    {
        self.queue.push(task);
        proof {
            assert(self@ =~= step(old(self)@, Event::Scheduled { task }));
        }
    }

    /// Takes the next scheduled task, in FIFO order relative to
    /// scheduling time; `None` when nothing is waiting.
    pub fn take_next_task(&mut self) -> (t: Option<UiTask>)
        requires
            old(self)@.phase is Active,
        ensures
            old(self)@.queue.len() == 0 ==> t is None && final(self)@ == old(self)@,
            old(self)@.queue.len() > 0 ==> t == Some(old(self)@.queue[0]) && final(self)@
                == step(old(self)@, Event::TaskDrained),
    {
        if self.queue.len() == 0 {
            None
        } else {
            let task = self.queue.remove(0);
            proof {
                assert(self@.queue =~= old(self)@.queue.drop_first());
                assert(self@ =~= step(old(self)@, Event::TaskDrained));
            }
            Some(task)
        }
    }

    /// Open-or-show, run on the UI thread: reuse the live window, shown
    /// again, or ask the caller to construct the single new one.
    pub fn open_or_show(&mut self) -> (a: OpenAction)
        requires
            old(self)@.phase is Active,
            !old(self)@.pending_create,
        ensures
            a == open_action_of(old(self)@),
            final(self)@ == step(old(self)@, Event::OpenRequested),
    {
        let a = self.windows.open_or_show();
        proof {
            assert(self@ =~= step(old(self)@, Event::OpenRequested));
        }
        a
    }

    /// The requested construction succeeded; the returned identity is
    /// what the background state holder is to be given, asynchronously.
    pub fn window_created(&mut self) -> (id: u64)
        requires
            old(self)@.phase is Active,
            old(self)@.pending_create,
            old(self)@.window is None,
        ensures
            id == WINDOW_ID,
            final(self)@ == step(old(self)@, Event::WindowCreated),
            final(self)@.window == Some(WindowRecord { id: WINDOW_ID, visible: true }),
    {
        let id = self.windows.window_created();
        proof {
            assert(self@ =~= step(old(self)@, Event::WindowCreated));
        }
        id
    }

    /// The requested construction failed: a silent no-op by design, so
    /// the tray stays usable and a later attempt may succeed.
    pub fn window_create_failed(&mut self)
        requires
            old(self)@.phase is Active,
            old(self)@.pending_create,
        ensures
            final(self)@ == step(old(self)@, Event::WindowCreateFailed),
            final(self)@.window == old(self)@.window,
            !final(self)@.pending_create,
    {
        self.windows.window_create_failed();
        proof {
            assert(self@ =~= step(old(self)@, Event::WindowCreateFailed));
        }
    }

    /// The user closed the window: it leaves the screen, the slot keeps
    /// it, and the tray stays responsive.
    pub fn window_closed(&mut self)
        requires
            old(self)@.phase is Active,
            old(self)@.window is Some,
        ensures
            final(self)@ == step(old(self)@, Event::WindowClosed),
            final(self)@.tray_installed == old(self)@.tray_installed,
    {
        self.windows.window_closed();
        proof {
            assert(self@ =~= step(old(self)@, Event::WindowClosed));
        }
    }

    /// Weak-handle revalidation on the UI thread: the deferred
    /// initialisation carried by a task runs only against the live
    /// window with the handle's identity, and is dropped otherwise.
    pub fn apply_deferred_init(&self, window_id: u64) -> (applied: bool)
        requires
            self@.phase is Active,
        ensures
            applied == (live_window(self@, window_id) is Some),
    {
        self.windows.lookup(window_id).is_some()
    }

    /// The UI event loop returned: only teardown remains.
    pub fn loop_exited(&mut self)
        requires
            old(self)@.phase is Active,
        ensures
            final(self)@ == step(old(self)@, Event::LoopExited),
            final(self)@.phase is LoopExited,
    {
        self.phase = Phase::LoopExited;
        proof {
            assert(self@ =~= step(old(self)@, Event::LoopExited));
        }
    }

    /// Ordered teardown, after the loop has returned and before the
    /// process exits: the tray icon is destroyed first, so the OS
    /// removes the glyph promptly.
    pub fn teardown(&mut self)
        requires
            old(self)@.phase is LoopExited,
        ensures
            final(self)@ == step(old(self)@, Event::TornDown),
            !final(self)@.tray_installed,
            final(self)@.phase is Terminated,
    {
        self.tray.destroy();
        self.phase = Phase::Terminated;
        proof {
            assert(self@ =~= step(old(self)@, Event::TornDown));
        }
    }

    /// Whether the tray icon still exists; after teardown this is the
    /// only tray state left to query, and it answers `false`.
    pub fn tray_alive(&self) -> (r: bool)
        ensures
            r == self@.tray_installed,
    {
        self.tray.installed
    }

    /// Whether quitting the event loop has been requested.
    pub fn wants_quit(&self) -> (r: bool)
        ensures
            r == self@.quit_requested,
    {
        self.quit_requested
    }

    /// The singleton window as currently registered, if any.
    pub fn current_window(&self) -> (r: Option<WindowRecord>)
        ensures
            r == self@.window,
    {
        self.windows.window
    }

    /// How many scheduled tasks await the UI thread.
    pub fn scheduled_count(&self) -> (r: usize)
        ensures
            r == self@.queue.len(),
    {
        self.queue.len()
    }

    /// Where the process stands in its lifetime.
    pub fn lifecycle_phase(&self) -> (r: Phase)
        ensures
            r == self@.phase,
    {
        self.phase
    }
}

} // verus!
