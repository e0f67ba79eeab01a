//! The lifecycle laws, proved once and for all against [`step`].
//!
//! Each law quantifies over states or whole event histories, so it holds
//! of every execution the bridge's contracts describe, not just of the
//! runs a test happens to exercise.

use vstd::prelude::*;

use crate::bridge::init_model;
use crate::bridge::open_action_of;
use crate::bridge::step;
use crate::bridge::Event;
use crate::bridge::Model;
use crate::tasks::UiTask;
use crate::tray::ClickKind;
use crate::tray::CLOSE_MENU_ID;
use crate::window::OpenAction;
use crate::window::WindowRecord;

verus! {

/// The state after running a sequence of events from `m`, oldest first.
pub open spec fn run_events(m: Model, es: Seq<Event>) -> Model
    decreases es.len(),
{
    if es.len() == 0 {
        m
    } else {
        run_events(step(m, es[0]), es.drop_first())
    }
}

/// Idempotent show: while the window is alive, open-or-show brings the
/// one existing window to front — twice in succession it plans a show of
/// the same window both times, never a creation, and the second request
/// changes nothing at all.
pub proof fn lemma_idempotent_show(m: Model)
    requires
        m.phase is Active,
        !m.pending_create,
        m.window is Some,
    ensures
        m.window matches Some(w) ==> ({
            let once = step(m, Event::OpenRequested);
            &&& open_action_of(m) == OpenAction::ShowExisting(w.id)
            &&& open_action_of(once) == OpenAction::ShowExisting(w.id)
            &&& once.window == Some(WindowRecord { id: w.id, visible: true })
            &&& step(once, Event::OpenRequested) == once
        }),
{
    let once = step(m, Event::OpenRequested);
    assert(step(once, Event::OpenRequested) =~= once);
}

/// Lazy creation: from process start, no window exists until the first
/// open-or-show request, whatever else happens — installing the tray,
/// clicks, menu events, scheduling and draining included.
pub proof fn lemma_lazy_creation(es: Seq<Event>)
    requires
        forall|i: int| 0 <= i < es.len() ==> !(#[trigger] es[i] is OpenRequested),
    ensures
        run_events(init_model(), es).window is None,
{
    lemma_no_open_no_window(init_model(), es);
}

/// Helper induction for [`lemma_lazy_creation`]: without open-or-show
/// requests, an empty window slot and an idle creation flag persist.
proof fn lemma_no_open_no_window(m: Model, es: Seq<Event>)
    requires
        m.window is None,
        !m.pending_create,
        forall|i: int| 0 <= i < es.len() ==> !(#[trigger] es[i] is OpenRequested),
    ensures
        run_events(m, es).window is None,
        !run_events(m, es).pending_create,
    decreases es.len(),
{
    if es.len() > 0 {
        let m1 = step(m, es[0]);
        let rest = es.drop_first();
        assert forall|i: int| 0 <= i < rest.len() implies !(#[trigger] rest[i] is OpenRequested) by {
            assert(rest[i] == es[i + 1]);
        }
        lemma_no_open_no_window(m1, rest);
    }
}

/// Click filtering: a primary tray click schedules exactly one
/// open-or-show task; a non-primary activation changes nothing.
pub proof fn lemma_click_filtering(m: Model, click: ClickKind)
    requires
        m.phase is Active,
        m.tray_installed,
    ensures
        click is Primary ==> step(m, Event::TrayClick { click }).queue == m.queue.push(
            UiTask::OpenOrShow,
        ),
        click is Primary ==> step(m, Event::TrayClick { click }).queue.len() == m.queue.len() + 1,
        !(click is Primary) ==> step(m, Event::TrayClick { click }) == m,
{
}

/// Menu identity matching: exactly the "Close" item's identity raises
/// the quit request, after which the event loop's return is enabled; any
/// other identity changes nothing.
pub proof fn lemma_menu_identity_matching(m: Model, id: u64)
    requires
        m.phase is Active,
        m.tray_installed,
    ensures
        id == CLOSE_MENU_ID ==> step(m, Event::MenuActivated { id }).quit_requested,
        id == CLOSE_MENU_ID ==> step(
            step(m, Event::MenuActivated { id }),
            Event::LoopExited,
        ).phase is LoopExited,
        id != CLOSE_MENU_ID ==> step(m, Event::MenuActivated { id }) == m,
{
}

/// Teardown ordering: in every state reachable from process start, a
/// terminated process has no tray icon left — the tray is destroyed by
/// the teardown step itself, which runs only after the loop has exited.
pub proof fn lemma_teardown_ordering(es: Seq<Event>)
    ensures
        run_events(init_model(), es).phase is Terminated ==> !run_events(
            init_model(),
            es,
        ).tray_installed,
{
    lemma_terminated_no_tray(init_model(), es);
}

/// Helper induction for [`lemma_teardown_ordering`]: every transition
/// preserves "terminated implies no tray icon".
proof fn lemma_terminated_no_tray(m: Model, es: Seq<Event>)
    requires
        m.phase is Terminated ==> !m.tray_installed,
    ensures
        run_events(m, es).phase is Terminated ==> !run_events(m, es).tray_installed,
    decreases es.len(),
{
    if es.len() > 0 {
        lemma_terminated_no_tray(step(m, es[0]), es.drop_first());
    }
}

/// Reopen after close: once the user closes the window, the tray is
/// still installed, a primary click still schedules work, and the next
/// open-or-show request makes the same single window visible again.
pub proof fn lemma_reopen_after_close(m: Model)
    requires
        m.phase is Active,
        m.tray_installed,
        !m.pending_create,
        m.window is Some,
    ensures
        m.window matches Some(w) ==> ({
            let closed = step(m, Event::WindowClosed);
            let clicked = step(closed, Event::TrayClick { click: ClickKind::Primary });
            let drained = step(clicked, Event::TaskDrained);
            let reopened = step(drained, Event::OpenRequested);
            &&& closed.window == Some(WindowRecord { id: w.id, visible: false })
            &&& closed.tray_installed
            &&& clicked.queue.len() == closed.queue.len() + 1
            &&& reopened.window == Some(WindowRecord { id: w.id, visible: true })
        }),
{
}

} // verus!
