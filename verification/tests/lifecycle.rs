use traybridge::bridge::Bridge;
use traybridge::bridge::Phase;
use traybridge::bridge::loop_settings;
use traybridge::icon::IconPixels;
use traybridge::shared::SharedState;
use traybridge::tasks::UiTask;
use traybridge::tray::ClickKind;
use traybridge::tray::CLOSE_MENU_ID;
use traybridge::window::OpenAction;
use traybridge::window::WindowRecord;
use traybridge::window::WINDOW_ID;

fn test_icon() -> IconPixels {
    IconPixels::new(vec![0u8; 4], 1, 1).expect("a 1x1 RGBA buffer is well-formed")
}

fn installed_bridge() -> Bridge {
    let mut b = Bridge::new();
    b.install_tray(test_icon());
    b
}

fn create_window(b: &mut Bridge) -> u64 {
    match b.open_or_show() {
        OpenAction::CreateNew(_) => b.window_created(),
        OpenAction::ShowExisting(_) => panic!("no window should exist yet"),
    }
}

#[test]
fn lazy_creation_no_window_until_first_open() {
    let mut b = installed_bridge();
    assert_eq!(b.current_window(), None);
    b.on_tray_event(ClickKind::Secondary);
    b.on_tray_event(ClickKind::Hover);
    b.on_menu_event(CLOSE_MENU_ID);
    b.schedule(UiTask::InitFromState { window_id: 9 });
    b.take_next_task();
    assert_eq!(b.current_window(), None);
    assert!(b.tray_alive());
}

#[test]
fn first_open_asks_for_one_new_window() {
    let mut b = installed_bridge();
    let a = b.open_or_show();
    assert_eq!(a, OpenAction::CreateNew(WINDOW_ID));
    assert_eq!(b.current_window(), None);
    let id = b.window_created();
    assert_eq!(id, WINDOW_ID);
    assert_eq!(
        b.current_window(),
        Some(WindowRecord { id: WINDOW_ID, visible: true })
    );
}

#[test]
fn idempotent_show_reuses_the_window() {
    let mut b = installed_bridge();
    create_window(&mut b);
    let a1 = b.open_or_show();
    let a2 = b.open_or_show();
    assert_eq!(a1, OpenAction::ShowExisting(WINDOW_ID));
    assert_eq!(a2, OpenAction::ShowExisting(WINDOW_ID));
    assert_eq!(
        b.current_window(),
        Some(WindowRecord { id: WINDOW_ID, visible: true })
    );
}

#[test]
fn create_failure_is_a_silent_no_op() {
    let mut b = installed_bridge();
    let a = b.open_or_show();
    assert_eq!(a, OpenAction::CreateNew(WINDOW_ID));
    b.window_create_failed();
    assert_eq!(b.current_window(), None);
    assert!(b.tray_alive());
    let again = b.open_or_show();
    assert_eq!(again, OpenAction::CreateNew(WINDOW_ID));
}

#[test]
fn non_primary_clicks_schedule_nothing() {
    let mut b = installed_bridge();
    b.on_tray_event(ClickKind::Secondary);
    b.on_tray_event(ClickKind::Middle);
    b.on_tray_event(ClickKind::Double);
    b.on_tray_event(ClickKind::Hover);
    assert_eq!(b.scheduled_count(), 0);
    assert_eq!(b.take_next_task(), None);
}

#[test]
fn primary_click_schedules_exactly_one_open() {
    let mut b = installed_bridge();
    b.on_tray_event(ClickKind::Primary);
    assert_eq!(b.scheduled_count(), 1);
    assert_eq!(b.take_next_task(), Some(UiTask::OpenOrShow));
    assert_eq!(b.take_next_task(), None);
}

#[test]
fn scheduled_tasks_drain_in_fifo_order() {
    let mut b = installed_bridge();
    b.schedule(UiTask::InitFromState { window_id: WINDOW_ID });
    b.on_tray_event(ClickKind::Primary);
    assert_eq!(
        b.take_next_task(),
        Some(UiTask::InitFromState { window_id: WINDOW_ID })
    );
    assert_eq!(b.take_next_task(), Some(UiTask::OpenOrShow));
    assert_eq!(b.take_next_task(), None);
}

#[test]
fn foreign_menu_identity_is_ignored() {
    let mut b = installed_bridge();
    let quit = b.on_menu_event(CLOSE_MENU_ID + 41);
    assert!(!quit);
    assert!(!b.wants_quit());
}

#[test]
fn close_menu_identity_requests_quit() {
    let mut b = installed_bridge();
    let quit = b.on_menu_event(CLOSE_MENU_ID);
    assert!(quit);
    assert!(b.wants_quit());
}

#[test]
fn teardown_after_loop_destroys_the_tray() {
    let mut b = installed_bridge();
    b.on_menu_event(CLOSE_MENU_ID);
    b.loop_exited();
    assert_eq!(b.lifecycle_phase(), Phase::LoopExited);
    assert!(b.tray_alive());
    b.teardown();
    assert_eq!(b.lifecycle_phase(), Phase::Terminated);
    assert!(!b.tray_alive());
}

#[test]
fn reopen_after_user_close() {
    let mut b = installed_bridge();
    create_window(&mut b);
    b.window_closed();
    assert_eq!(
        b.current_window(),
        Some(WindowRecord { id: WINDOW_ID, visible: false })
    );
    assert!(b.tray_alive());
    b.on_tray_event(ClickKind::Primary);
    assert_eq!(b.take_next_task(), Some(UiTask::OpenOrShow));
    let a = b.open_or_show();
    assert_eq!(a, OpenAction::ShowExisting(WINDOW_ID));
    assert_eq!(
        b.current_window(),
        Some(WindowRecord { id: WINDOW_ID, visible: true })
    );
}

#[test]
fn shared_state_registers_and_defers_init() {
    let mut s = SharedState::new();
    assert_eq!(s.ui_handle(), None);
    let task = s.set_ui_handle(WINDOW_ID);
    assert_eq!(task, UiTask::InitFromState { window_id: WINDOW_ID });
    assert_eq!(s.ui_handle(), Some(WINDOW_ID));
}

#[test]
fn deferred_init_runs_only_against_the_live_window() {
    let mut b = installed_bridge();
    assert!(!b.apply_deferred_init(WINDOW_ID));
    create_window(&mut b);
    assert!(b.apply_deferred_init(WINDOW_ID));
    assert!(!b.apply_deferred_init(WINDOW_ID + 1));
}

#[test]
fn tray_plan_holds_tooltip_icon_and_close_item() {
    let mut b = Bridge::new();
    let plan = b.install_tray(test_icon());
    assert_eq!(plan.tooltip, "MyApp");
    assert_eq!(plan.icon.width, 1);
    assert_eq!(plan.icon.height, 1);
    assert_eq!(plan.icon.rgba, vec![0u8; 4]);
    assert_eq!(plan.entries.len(), 1);
    assert_eq!(plan.entries[0].id, CLOSE_MENU_ID);
    assert_eq!(plan.entries[0].label, "Close");
    assert!(plan.entries[0].enabled);
    assert!(b.tray_alive());
}

#[test]
fn event_loop_must_survive_last_window_closing() {
    let s = loop_settings();
    assert!(!s.quit_on_last_window_closed);
}
