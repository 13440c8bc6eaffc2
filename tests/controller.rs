use dioxus_desktop::app::{HotReloadMsg, MenuAction, TrayIconEvent};
use dioxus_desktop::ipc::IpcMessage;
use dioxus_desktop::json::JsonValue;
use dioxus_desktop::window::{
    PendingWindow, PhysicalPosition, PhysicalSize, WindowAttributes, WindowConfig, WindowIcon,
    WindowSize,
};
use dioxus_desktop::{
    App, AppConfig, AppControlFlow, AppEvent, DefaultWindowCloseBehaviour, Effect, Platform,
    WindowCloseBehaviour,
};

fn attrs() -> WindowAttributes {
    WindowAttributes { inner_size: None, position: None, window_icon: None, visible: true }
}

fn config(close_behaviour: Option<WindowCloseBehaviour>) -> WindowConfig {
    WindowConfig { window_attributes: attrs(), close_behaviour }
}

fn app_with(default: DefaultWindowCloseBehaviour, platform: Platform) -> App {
    App::new(AppConfig {
        window: config(None),
        default_window_close_behaviour: default,
        platform,
        preserve_window_state: false,
    })
}

fn app_with_windows(default: DefaultWindowCloseBehaviour, ids: &[u64]) -> App {
    let mut app = app_with(default, Platform::Linux);
    for id in ids {
        app.insert_webview(*id, None);
    }
    app
}

fn ipc(id: u64, method: &str, params: JsonValue) -> AppEvent {
    AppEvent::Ipc { id, msg: IpcMessage::new(method.to_string(), params) }
}

fn object(members: Vec<(&str, JsonValue)>) -> JsonValue {
    JsonValue::Object(members.into_iter().map(|(k, v)| (k.to_string(), v)).collect())
}

#[test]
fn new_windows_are_created_in_queue_order() {
    let mut app = app_with(DefaultWindowCloseBehaviour::LastWindowExitsApp, Platform::Linux);
    for token in [7u64, 3, 9] {
        app.queue_window(PendingWindow { token, config: config(None) });
    }
    assert_eq!(app.pending_window_count(), 3);
    let effects = app.handle_event(AppEvent::NewWindow);
    assert_eq!(effects.len(), 4);
    let tokens: Vec<u64> = effects
        .iter()
        .filter_map(|e| match e {
            Effect::CreateWindow(p) => Some(p.token),
            _ => None,
        })
        .collect();
    assert_eq!(tokens, vec![7, 3, 9]);
    assert_eq!(effects[3], Effect::Wait);
    assert_eq!(app.pending_window_count(), 0);
    assert_eq!(app.handle_event(AppEvent::NewWindow), vec![Effect::Wait]);
}

#[test]
fn new_windows_get_default_size_and_icon() {
    let mut app = app_with(DefaultWindowCloseBehaviour::LastWindowExitsApp, Platform::Linux);
    app.queue_window(PendingWindow { token: 1, config: config(None) });
    let sized = WindowAttributes {
        inner_size: Some(WindowSize::Physical { width: 300, height: 200 }),
        window_icon: Some(WindowIcon::Supplied),
        ..attrs()
    };
    app.queue_window(PendingWindow {
        token: 2,
        config: WindowConfig { window_attributes: sized, close_behaviour: None },
    });
    let effects = app.handle_new_windows();
    match &effects[0] {
        Effect::CreateWindow(p) => {
            assert_eq!(
                p.config.window_attributes.inner_size,
                Some(WindowSize::Logical { width: 800, height: 600 })
            );
            assert_eq!(p.config.window_attributes.window_icon, Some(WindowIcon::Default));
        }
        other => panic!("unexpected {:?}", other),
    }
    match &effects[1] {
        Effect::CreateWindow(p) => assert_eq!(p.config.window_attributes, sized),
        other => panic!("unexpected {:?}", other),
    }
}

#[test]
fn mobile_windows_keep_no_size() {
    let mut app = app_with(DefaultWindowCloseBehaviour::LastWindowExitsApp, Platform::Android);
    app.queue_window(PendingWindow { token: 1, config: config(None) });
    match &app.handle_new_windows()[0] {
        Effect::CreateWindow(p) => {
            assert_eq!(p.config.window_attributes.inner_size, None);
            assert_eq!(p.config.window_attributes.window_icon, Some(WindowIcon::Default));
        }
        other => panic!("unexpected {:?}", other),
    }
}

#[test]
fn hide_override_wins_over_any_default() {
    for default in [
        DefaultWindowCloseBehaviour::LastWindowExitsApp,
        DefaultWindowCloseBehaviour::LastWindowHides,
        DefaultWindowCloseBehaviour::WindowsHides,
        DefaultWindowCloseBehaviour::WindowsCloses,
    ] {
        let mut app = app_with_windows(default, &[4]);
        app.handle_event(AppEvent::CloseBehaviour(4, Some(WindowCloseBehaviour::WindowHides)));
        let effects = app.handle_event(AppEvent::CloseRequested(4));
        assert_eq!(effects, vec![Effect::HideWindow(4), Effect::Wait]);
        assert_eq!(app.window_ids(), vec![4]);
        assert_eq!(app.control_flow(), AppControlFlow::Wait);
    }
}

#[test]
fn closes_override_removes_without_exiting() {
    let mut app = app_with_windows(DefaultWindowCloseBehaviour::LastWindowExitsApp, &[4]);
    app.change_window_close_behaviour(4, Some(WindowCloseBehaviour::WindowCloses));
    assert_eq!(app.close_behaviour_of(4), Some(Some(WindowCloseBehaviour::WindowCloses)));
    let effects = app.handle_event(AppEvent::CloseRequested(4));
    assert_eq!(effects, vec![Effect::DestroyWindow(4), Effect::Wait]);
    assert!(app.window_ids().is_empty());
}

#[test]
fn exits_app_override_ends_the_application() {
    let mut app = app_with_windows(DefaultWindowCloseBehaviour::WindowsHides, &[4, 5]);
    app.change_window_close_behaviour(5, Some(WindowCloseBehaviour::WindowExitsApp));
    assert_eq!(app.handle_event(AppEvent::CloseRequested(5)), vec![Effect::Exit]);
    assert_eq!(app.window_ids(), vec![4, 5]);
}

#[test]
fn closing_the_last_window_exits_once() {
    let mut app = app_with_windows(DefaultWindowCloseBehaviour::LastWindowExitsApp, &[1]);
    assert_eq!(
        app.handle_event(AppEvent::CloseRequested(1)),
        vec![Effect::DestroyWindow(1), Effect::Exit]
    );
    assert_eq!(app.control_flow(), AppControlFlow::Exit);
    assert!(app.window_ids().is_empty());
    assert_eq!(app.handle_event(AppEvent::CloseRequested(1)), vec![Effect::Wait]);
    assert_eq!(app.control_flow(), AppControlFlow::Wait);
    assert!(app.window_ids().is_empty());
}

#[test]
fn exit_does_not_carry_over_to_the_next_event() {
    let mut app = app_with_windows(DefaultWindowCloseBehaviour::WindowsCloses, &[1]);
    assert_eq!(app.handle_event(AppEvent::Shutdown), vec![Effect::Exit]);
    assert_eq!(app.handle_event(AppEvent::OtherWindowEvent(1)), vec![Effect::Wait]);
    assert_eq!(app.handle_event(AppEvent::Shutdown), vec![Effect::Exit]);
    assert_eq!(
        app.handle_event(ipc(1, "NotARealMethod", JsonValue::Null)),
        vec![Effect::Wait]
    );
    assert_eq!(app.control_flow(), AppControlFlow::Wait);
}

#[test]
fn created_windows_are_registered_in_queue_order() {
    let mut app = app_with_windows(DefaultWindowCloseBehaviour::LastWindowExitsApp, &[1]);
    app.queue_window(PendingWindow { token: 7, config: config(None) });
    app.queue_window(PendingWindow {
        token: 3,
        config: config(Some(WindowCloseBehaviour::WindowHides)),
    });
    let effects = app.handle_event(AppEvent::NewWindow);
    let mut next_id = 10u64;
    for effect in effects {
        if let Effect::CreateWindow(p) = effect {
            assert_eq!(
                app.window_created(next_id, p.config.close_behaviour),
                vec![Effect::SendPoll(next_id)]
            );
            next_id += 1;
        }
    }
    assert_eq!(app.window_ids(), vec![1, 10, 11]);
    assert_eq!(app.close_behaviour_of(11), Some(Some(WindowCloseBehaviour::WindowHides)));
    assert_eq!(app.pending_window_count(), 0);
}

#[test]
fn closing_an_absent_window_changes_nothing() {
    let mut app = app_with_windows(DefaultWindowCloseBehaviour::LastWindowExitsApp, &[]);
    assert_eq!(app.handle_event(AppEvent::CloseRequested(9)), vec![Effect::Wait]);
    assert_eq!(app.control_flow(), AppControlFlow::Wait);
}

#[test]
fn last_window_hides_policy() {
    let mut app = app_with_windows(DefaultWindowCloseBehaviour::LastWindowHides, &[1, 2]);
    assert_eq!(
        app.handle_event(AppEvent::CloseRequested(1)),
        vec![Effect::DestroyWindow(1), Effect::Wait]
    );
    assert_eq!(app.window_ids(), vec![2]);
    assert_eq!(
        app.handle_event(AppEvent::CloseRequested(2)),
        vec![Effect::HideWindow(2), Effect::Wait]
    );
    assert_eq!(app.window_ids(), vec![2]);
}

#[test]
fn windows_closes_policy_never_exits() {
    let mut app = app_with_windows(DefaultWindowCloseBehaviour::WindowsCloses, &[1]);
    assert_eq!(
        app.handle_event(AppEvent::CloseRequested(1)),
        vec![Effect::DestroyWindow(1), Effect::Wait]
    );
    assert!(app.window_ids().is_empty());
    assert_eq!(app.control_flow(), AppControlFlow::Wait);
}

#[test]
fn hiding_on_macos_hides_the_application() {
    let mut app = app_with(DefaultWindowCloseBehaviour::WindowsHides, Platform::MacOs);
    app.insert_webview(3, None);
    assert_eq!(
        app.handle_event(AppEvent::CloseRequested(3)),
        vec![Effect::HideApplication, Effect::Wait]
    );
}

#[test]
fn closing_persists_state_when_enabled() {
    let mut app = App::new(AppConfig {
        window: config(None),
        default_window_close_behaviour: DefaultWindowCloseBehaviour::LastWindowExitsApp,
        platform: Platform::Linux,
        preserve_window_state: true,
    });
    app.insert_webview(8, None);
    app.insert_webview(9, None);
    assert_eq!(
        app.handle_event(AppEvent::CloseRequested(9)),
        vec![Effect::PersistWindowState(8), Effect::DestroyWindow(9), Effect::Wait]
    );
    assert_eq!(
        app.handle_event(AppEvent::LoopExiting),
        vec![Effect::PersistWindowState(8), Effect::Wait]
    );
}

#[test]
fn destroyed_window_is_removed() {
    let mut app = app_with_windows(DefaultWindowCloseBehaviour::LastWindowExitsApp, &[1, 2]);
    assert_eq!(app.handle_event(AppEvent::Destroyed(1)), vec![Effect::Wait]);
    assert_eq!(app.window_ids(), vec![2]);
    assert_eq!(app.handle_event(AppEvent::Destroyed(7)), vec![Effect::Wait]);
    assert_eq!(app.handle_event(AppEvent::Destroyed(2)), vec![Effect::Exit]);
}

#[test]
fn destroyed_under_hiding_policy_does_not_exit() {
    let mut app = app_with_windows(DefaultWindowCloseBehaviour::WindowsHides, &[1]);
    assert_eq!(app.handle_event(AppEvent::Destroyed(1)), vec![Effect::Wait]);
    assert!(app.window_ids().is_empty());
}

#[test]
fn close_window_message_keeps_running_without_exit_policy() {
    let mut app = app_with_windows(DefaultWindowCloseBehaviour::WindowsCloses, &[1, 2]);
    assert_eq!(
        app.handle_event(AppEvent::CloseWindow(2)),
        vec![Effect::DestroyWindow(2), Effect::Wait]
    );
    assert_eq!(app.handle_event(AppEvent::CloseWindow(5)), vec![Effect::Wait]);
    assert_eq!(
        app.handle_event(AppEvent::CloseWindow(1)),
        vec![Effect::DestroyWindow(1), Effect::Wait]
    );
    assert!(app.window_ids().is_empty());
    assert_eq!(app.control_flow(), AppControlFlow::Wait);
}

#[test]
fn close_window_message_exits_when_empty_under_exit_policy() {
    let mut app = app_with_windows(DefaultWindowCloseBehaviour::LastWindowExitsApp, &[1, 2]);
    assert_eq!(
        app.handle_event(AppEvent::CloseWindow(2)),
        vec![Effect::DestroyWindow(2), Effect::Wait]
    );
    assert_eq!(
        app.handle_event(AppEvent::CloseWindow(1)),
        vec![Effect::DestroyWindow(1), Effect::Exit]
    );
}

#[test]
fn menu_ids_map_to_actions() {
    assert_eq!(MenuAction::from_id("dioxus-float-top"), MenuAction::FloatTop);
    assert_eq!(MenuAction::from_id("dioxus-toggle-dev-tools"), MenuAction::ToggleDevTools);
    assert_eq!(MenuAction::from_id("quit"), MenuAction::Other);
    assert_eq!(MenuAction::from_id("dioxus-float-to"), MenuAction::Other);
}

#[test]
fn shutdown_exits() {
    let mut app = app_with_windows(DefaultWindowCloseBehaviour::WindowsCloses, &[1]);
    assert_eq!(app.handle_event(AppEvent::Shutdown), vec![Effect::Exit]);
    assert_eq!(app.control_flow(), AppControlFlow::Exit);
}

#[test]
fn resize_is_forwarded_to_registered_windows_only() {
    let mut app = app_with_windows(DefaultWindowCloseBehaviour::LastWindowExitsApp, &[1]);
    let size = PhysicalSize { width: 640, height: 480 };
    assert_eq!(
        app.handle_event(AppEvent::Resized(1, size)),
        vec![Effect::SetBounds { id: 1, size }, Effect::Wait]
    );
    assert_eq!(app.handle_event(AppEvent::Resized(2, size)), vec![Effect::Wait]);
    assert_eq!(app.window_ids(), vec![1]);
}

#[test]
fn poll_reaches_registered_windows_only() {
    let mut app = app_with_windows(DefaultWindowCloseBehaviour::LastWindowExitsApp, &[1]);
    assert_eq!(app.handle_event(AppEvent::Poll(1)), vec![Effect::PollWindow(1), Effect::Wait]);
    assert_eq!(app.handle_event(AppEvent::Poll(3)), vec![Effect::Wait]);
}

#[test]
fn initialize_runs_once() {
    let mut app = app_with_windows(DefaultWindowCloseBehaviour::LastWindowExitsApp, &[1]);
    let first = app.handle_event(ipc(1, "initialize", JsonValue::Null));
    assert_eq!(
        first,
        vec![
            Effect::RebuildAndFlush(1),
            Effect::SetVisible { id: 1, visible: true },
            Effect::SendPoll(1),
            Effect::Wait,
        ]
    );
    let second = app.handle_event(ipc(1, "initialize", JsonValue::Null));
    assert_eq!(second, vec![Effect::Wait]);
    assert_eq!(app.handle_event(ipc(2, "initialize", JsonValue::Null)), vec![Effect::Wait]);
}

#[test]
fn unknown_ipc_method_is_ignored() {
    let mut app = app_with_windows(DefaultWindowCloseBehaviour::LastWindowExitsApp, &[1, 2]);
    let effects = app.handle_event(ipc(1, "NotARealMethod", object(vec![("x", JsonValue::Int(1))])));
    assert_eq!(effects, vec![Effect::Wait]);
    assert_eq!(app.window_ids(), vec![1, 2]);
    assert_eq!(app.control_flow(), AppControlFlow::Wait);
    assert_eq!(app.handle_event(ipc(1, "user_event", JsonValue::Null)), vec![Effect::Wait]);
}

#[test]
fn browser_open_opens_the_href() {
    let mut app = app_with_windows(DefaultWindowCloseBehaviour::LastWindowExitsApp, &[1]);
    let params = object(vec![("href", JsonValue::Str("https://example.com".to_string()))]);
    assert_eq!(
        app.handle_event(ipc(1, "browser_open", params)),
        vec![Effect::OpenBrowser("https://example.com".to_string()), Effect::Wait]
    );
    let bad = object(vec![("href", JsonValue::Int(3))]);
    assert_eq!(app.handle_event(ipc(1, "browser_open", bad)), vec![Effect::Wait]);
}

#[test]
fn query_answers_reach_the_window() {
    let mut app = app_with_windows(DefaultWindowCloseBehaviour::LastWindowExitsApp, &[1]);
    let params = object(vec![("id", JsonValue::Int(12)), ("data", JsonValue::Bool(true))]);
    match app.handle_event(ipc(1, "query", params)).as_slice() {
        [Effect::DeliverQuery { id: 1, query }, Effect::Wait] => {
            assert_eq!(query.id, 12);
            assert_eq!(query.data, JsonValue::Bool(true));
        }
        other => panic!("unexpected {:?}", other),
    }
    let params = object(vec![("id", JsonValue::Int(12)), ("data", JsonValue::Null)]);
    assert_eq!(app.handle_event(ipc(4, "query", params)), vec![Effect::Wait]);
    let malformed = object(vec![("data", JsonValue::Null)]);
    assert_eq!(app.handle_event(ipc(1, "query", malformed)), vec![Effect::Wait]);
}

#[test]
fn file_dialog_request_reaches_the_window() {
    let mut app = app_with_windows(DefaultWindowCloseBehaviour::LastWindowExitsApp, &[1]);
    let params = object(vec![
        ("multiple", JsonValue::Bool(true)),
        ("directory", JsonValue::Bool(false)),
        ("event", JsonValue::Str("change&input".to_string())),
        ("target", JsonValue::Int(42)),
        ("bubbles", JsonValue::Bool(true)),
    ]);
    match app.handle_event(ipc(1, "file_dialog", params)).as_slice() {
        [Effect::ShowFileDialog { id: 1, request }, Effect::Wait] => {
            assert_eq!(request.target, 42);
            assert!(request.multiple);
            assert_eq!(request.accept, None);
            assert_eq!(request.event_names(), vec!["input".to_string(), "change".to_string()]);
        }
        other => panic!("unexpected {:?}", other),
    }
    let malformed = object(vec![("event", JsonValue::Str("change".to_string()))]);
    assert_eq!(app.handle_event(ipc(1, "file_dialog", malformed)), vec![Effect::Wait]);
}

#[test]
fn float_top_menu_toggles_every_window() {
    let mut app = app_with_windows(DefaultWindowCloseBehaviour::LastWindowExitsApp, &[1, 2]);
    assert_eq!(
        app.handle_event(AppEvent::MenuEvent(MenuAction::FloatTop)),
        vec![
            Effect::SetAlwaysOnTop { id: 1, on_top: false },
            Effect::SetAlwaysOnTop { id: 2, on_top: false },
            Effect::Wait,
        ]
    );
    assert_eq!(
        app.handle_event(AppEvent::MenuEvent(MenuAction::FloatTop)),
        vec![
            Effect::SetAlwaysOnTop { id: 1, on_top: true },
            Effect::SetAlwaysOnTop { id: 2, on_top: true },
            Effect::Wait,
        ]
    );
}

#[test]
fn devtools_menu_toggles_every_window() {
    let mut app = app_with_windows(DefaultWindowCloseBehaviour::LastWindowExitsApp, &[1]);
    assert_eq!(
        app.handle_menu_event(MenuAction::ToggleDevTools),
        vec![Effect::SetDevtools { id: 1, open: true }]
    );
    assert_eq!(
        app.handle_menu_event(MenuAction::ToggleDevTools),
        vec![Effect::SetDevtools { id: 1, open: false }]
    );
    assert!(app.handle_menu_event(MenuAction::Other).is_empty());
}

#[test]
fn tray_left_click_shows_every_window() {
    let app = app_with_windows(DefaultWindowCloseBehaviour::LastWindowExitsApp, &[1, 2]);
    assert_eq!(
        app.handle_tray_icon_event(TrayIconEvent::Click { left_button: true }),
        vec![Effect::ShowAndFocus(1), Effect::ShowAndFocus(2)]
    );
    assert!(app.handle_tray_icon_event(TrayIconEvent::Click { left_button: false }).is_empty());
    assert!(app.handle_tray_icon_event(TrayIconEvent::Other).is_empty());
    assert!(app.handle_tray_menu_event().is_empty());
    assert_eq!(app.handle_global_hotkey(), vec![Effect::CallShortcutHandlers]);
}

#[test]
fn hot_reload_reaches_every_window() {
    let mut app = app_with_windows(DefaultWindowCloseBehaviour::LastWindowExitsApp, &[1, 2]);
    assert_eq!(
        app.handle_hot_reload_msg(HotReloadMsg::HotReload { assets_changed: true }),
        vec![
            Effect::ApplyHotReload(1),
            Effect::ApplyHotReload(2),
            Effect::KickStylesheets(1),
            Effect::KickStylesheets(2),
        ]
    );
    assert_eq!(
        app.handle_hot_reload_msg(HotReloadMsg::HotReload { assets_changed: false }),
        vec![Effect::ApplyHotReload(1), Effect::ApplyHotReload(2)]
    );
    assert!(app.handle_hot_reload_msg(HotReloadMsg::FullReloadStart).is_empty());
    assert_eq!(
        app.handle_event(AppEvent::HotReloadEvent(HotReloadMsg::Shutdown)),
        vec![Effect::Exit]
    );
}

#[test]
fn drag_events_reach_registered_windows_only() {
    let mut app = app_with_windows(DefaultWindowCloseBehaviour::LastWindowExitsApp, &[1]);
    assert_eq!(
        app.handle_event(AppEvent::WindowsDragOver(1, 10, -4)),
        vec![Effect::DragOver { id: 1, x: 10, y: -4 }, Effect::Wait]
    );
    assert_eq!(app.handle_event(AppEvent::WindowsDragDrop(1)), vec![Effect::DragDrop(1), Effect::Wait]);
    assert_eq!(app.handle_event(AppEvent::WindowsDragLeave(2)), vec![Effect::Wait]);
}

#[test]
fn app_resume_creates_the_hidden_first_window() {
    let window = WindowConfig {
        window_attributes: WindowAttributes {
            position: Some(PhysicalPosition { x: 5, y: 6 }),
            visible: false,
            ..attrs()
        },
        close_behaviour: None,
    };
    let mut app = App::new(AppConfig {
        window,
        default_window_close_behaviour: DefaultWindowCloseBehaviour::LastWindowExitsApp,
        platform: Platform::Windows,
        preserve_window_state: true,
    });
    let effects = app.handle_app_resume();
    match effects.as_slice() {
        [Effect::CreateInitialWindow { config, explicit_size, explicit_position, restore_state }] => {
            assert!(!config.window_attributes.visible);
            assert_eq!(
                config.window_attributes.inner_size,
                Some(WindowSize::Logical { width: 800, height: 600 })
            );
            assert!(!explicit_size);
            assert!(explicit_position);
            assert!(restore_state);
        }
        other => panic!("unexpected {:?}", other),
    }
    assert!(app.handle_app_resume().is_empty());
    app.insert_webview(1, None);
    assert_eq!(
        app.handle_initialize_msg(1),
        vec![
            Effect::RebuildAndFlush(1),
            Effect::SetVisible { id: 1, visible: false },
            Effect::SendPoll(1),
        ]
    );
}

#[test]
fn insert_replaces_a_window_with_the_same_id() {
    let mut app = app_with_windows(DefaultWindowCloseBehaviour::LastWindowExitsApp, &[1, 2]);
    app.insert_webview(1, Some(WindowCloseBehaviour::WindowHides));
    assert_eq!(app.window_ids(), vec![2, 1]);
    assert_eq!(app.close_behaviour_of(1), Some(Some(WindowCloseBehaviour::WindowHides)));
    assert_eq!(app.close_behaviour_of(3), None);
}
