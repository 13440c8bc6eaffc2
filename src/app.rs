use vstd::prelude::*;

use crate::ipc::{
    browser_href, browser_href_spec, file_dialog_spec, method_spec, query_result_spec,
    FileDialogRequest, IpcMessage, IpcMethod, QueryResult,
};
use crate::json::str_equal;
use crate::policy::{
    close_decision, close_decision_spec, CloseDecision, DefaultWindowCloseBehaviour,
    WindowCloseBehaviour,
};
use crate::window::{
    with_defaults, with_defaults_spec, PendingWindow, PhysicalSize, WindowAttributes, WindowConfig,
};

verus! {

/// Whether the native loop should wait for the next event or stop.
#[derive(Clone, Copy, Debug, PartialEq, Eq, Structural)]
pub enum AppControlFlow {
    Wait,
    Exit,
}

/// The platform the controller runs on; it decides how a window is hidden and
/// whether window geometry is preserved.
#[derive(Clone, Copy, Debug, PartialEq, Eq, Structural)]
pub enum Platform {
    Windows,
    Linux,
    MacOs,
    Ios,
    Android,
}

impl Platform {
    pub open spec fn is_mobile_spec(self) -> bool {
        self == Platform::Ios || self == Platform::Android
    }

    /// Whether this is a phone or tablet platform.
    pub fn is_mobile(self) -> (r: bool)
        ensures
            r == self.is_mobile_spec(),
    {
        match self {
            Platform::Ios | Platform::Android => true,
            _ => false,
        }
    }
}

/// One registered window: its native id, its close-behaviour override, and
/// whether its first full build has been flushed.
#[derive(Clone, Copy, Debug, PartialEq, Eq, Structural)]
pub struct WebviewEntry {
    pub id: u64,
    pub close_behaviour: Option<WindowCloseBehaviour>,
    pub initialized: bool,
}

/// A menu entry that the controller itself answers.
#[derive(Clone, Copy, Debug, PartialEq, Eq, Structural)]
pub enum MenuAction {
    /// Toggle "always on top" for every window.
    FloatTop,
    /// Toggle the developer tools of every window.
    ToggleDevTools,
    /// Any other entry; the application handles it.
    Other,
}

/// The action a menu entry id stands for.
pub open spec fn menu_action_spec(id: Seq<char>) -> MenuAction {
    if id == "dioxus-float-top"@ {
        MenuAction::FloatTop
    } else if id == "dioxus-toggle-dev-tools"@ {
        MenuAction::ToggleDevTools
    } else {
        MenuAction::Other
    }
}

impl MenuAction {
    /// The action of the menu entry with this id.
    pub fn from_id(id: &str) -> (r: MenuAction)
        ensures
            r == menu_action_spec(id@),
    {
        if str_equal(id, "dioxus-float-top") {
            MenuAction::FloatTop
        } else if str_equal(id, "dioxus-toggle-dev-tools") {
            MenuAction::ToggleDevTools
        } else {
            MenuAction::Other
        }
    }
}

/// What the tray icon reported.
#[derive(Clone, Copy, Debug, PartialEq, Eq, Structural)]
pub enum TrayIconEvent {
    /// A click, with whether it was the left button.
    Click { left_button: bool },
    /// Anything else (hover, enter, leave).
    Other,
}

/// A message from the development server.
#[derive(Clone, Copy, Debug, PartialEq, Eq, Structural)]
pub enum HotReloadMsg {
    /// New templates or code; `assets_changed` when style assets changed too.
    HotReload { assets_changed: bool },
    FullReloadCommand,
    FullReloadStart,
    FullReloadFailed,
    Shutdown,
}

/// One event for the controller: a native window event or a custom one.
#[derive(Debug, PartialEq)]
pub enum AppEvent {
    /// The native loop is about to exit.
    LoopExiting,
    CloseRequested(u64),
    Destroyed(u64),
    Resized(u64, PhysicalSize),
    /// Any other native event of a window.
    OtherWindowEvent(u64),
    /// The UI runtime of a window has work to do.
    Poll(u64),
    /// Windows have been asked for.
    NewWindow,
    CloseWindow(u64),
    Shutdown,
    GlobalHotKeyEvent,
    MenuEvent(MenuAction),
    TrayMenuEvent,
    TrayIconEvent(TrayIconEvent),
    HotReloadEvent(HotReloadMsg),
    WindowsDragDrop(u64),
    WindowsDragLeave(u64),
    WindowsDragOver(u64, i32, i32),
    Ipc { id: u64, msg: IpcMessage },
    CloseBehaviour(u64, Option<WindowCloseBehaviour>),
}

/// Work that the controller asks the embedder to do, in order.
#[derive(Debug, PartialEq)]
pub enum Effect {
    /// Create a native window and its webview, register it with
    /// `App::window_created` and carry out what that returns, then hand its
    /// service to the requester.
    CreateWindow(PendingWindow),
    /// Create the first window and register it with `App::insert_webview`; when
    /// `restore_state` is set, apply the preserved window state, leaving alone what
    /// was set explicitly.
    CreateInitialWindow {
        config: WindowConfig,
        explicit_size: bool,
        explicit_position: bool,
        restore_state: bool,
    },
    /// Post a poll-request for a window on the event channel.
    SendPoll(u64),
    /// Poll the UI runtime of a window now and flush its edits.
    PollWindow(u64),
    /// Close a native window and its webview, whose entry has left the registry.
    DestroyWindow(u64),
    /// Hide one native window.
    HideWindow(u64),
    /// Hide the whole application (macOS).
    HideApplication,
    /// Set the bounds of a window's webview: this physical size at logical (0, 0).
    SetBounds { id: u64, size: PhysicalSize },
    /// Build the full DOM of a window and flush it as one batch.
    RebuildAndFlush(u64),
    SetVisible { id: u64, visible: bool },
    /// Show a window and give it focus.
    ShowAndFocus(u64),
    SetAlwaysOnTop { id: u64, on_top: bool },
    SetDevtools { id: u64, open: bool },
    /// Record the geometry of this window in the window-state file.
    PersistWindowState(u64),
    /// Open a link in the system's browser.
    OpenBrowser(String),
    /// Hand a query answer to the query channel of a window.
    DeliverQuery { id: u64, query: QueryResult },
    /// Show a native file dialog for a window and raise the request's events on
    /// its target.
    ShowFileDialog { id: u64, request: FileDialogRequest },
    /// Run the handlers of the global shortcuts.
    CallShortcutHandlers,
    /// Apply the hot-reload changes to a window and poll it.
    ApplyHotReload(u64),
    /// Reload the style sheets of a window.
    KickStylesheets(u64),
    DragDrop(u64),
    DragLeave(u64),
    DragOver { id: u64, x: i32, y: i32 },
    /// The event is done: wait for the next one.
    Wait,
    /// The event is done: stop the native loop.
    Exit,
}

/// The controller's configuration.
#[derive(Clone, Copy, Debug, PartialEq, Eq, Structural)]
pub struct AppConfig {
    /// The first window, created when the native loop starts.
    pub window: WindowConfig,
    pub default_window_close_behaviour: DefaultWindowCloseBehaviour,
    pub platform: Platform,
    /// Whether window geometry is written on shutdown and restored on start.
    pub preserve_window_state: bool,
}

/// The creation of a queued window, with its defaults filled in.
pub open spec fn create_effect(p: PendingWindow, mobile: bool) -> Effect {
    Effect::CreateWindow(
        PendingWindow {
            config: WindowConfig {
                window_attributes: with_defaults_spec(p.config.window_attributes, mobile),
                ..p.config
            },
            ..p
        },
    )
}

/// The state of the controller, as the contracts speak of it.
pub struct AppModel {
    pub control_flow: AppControlFlow,
    pub is_visible_before_start: bool,
    pub default_window_close_behavior: DefaultWindowCloseBehaviour,
    pub webviews: Seq<WebviewEntry>,
    pub pending_windows: Seq<PendingWindow>,
    pub initial_window: Option<WindowConfig>,
    pub float_all: bool,
    pub show_devtools: bool,
    pub platform: Platform,
    pub preserve_window_state: bool,
}

pub open spec fn ids_unique(ws: Seq<WebviewEntry>) -> bool {
    forall|i: int, j: int| 0 <= i < j < ws.len() ==> ws[i].id != ws[j].id
}

pub open spec fn is_registered(ws: Seq<WebviewEntry>, id: u64) -> bool {
    exists|i: int| 0 <= i < ws.len() && ws[i].id == id
}

/// The position of a registered window.
pub open spec fn position_of(ws: Seq<WebviewEntry>, id: u64) -> int {
    choose|i: int| 0 <= i < ws.len() && ws[i].id == id
}

/// The registry without the window `id`.
pub open spec fn without(ws: Seq<WebviewEntry>, id: u64) -> Seq<WebviewEntry> {
    if is_registered(ws, id) {
        ws.remove(position_of(ws, id))
    } else {
        ws
    }
}

impl AppModel {
    pub open spec fn wf(self) -> bool {
        ids_unique(self.webviews)
    }

    pub open spec fn has(self, id: u64) -> bool {
        is_registered(self.webviews, id)
    }

    pub open spec fn entry(self, id: u64) -> WebviewEntry {
        self.webviews[position_of(self.webviews, id)]
    }

    /// The registry with a newly created window at its end, replacing any entry
    /// with the same id.
    pub open spec fn insert_spec(
        self,
        id: u64,
        close_behaviour: Option<WindowCloseBehaviour>,
    ) -> AppModel {
        self.with_webviews(
            without(self.webviews, id).push(
                WebviewEntry { id, close_behaviour, initialized: false },
            ),
        )
    }

    pub open spec fn with_webviews(self, ws: Seq<WebviewEntry>) -> AppModel {
        AppModel { webviews: ws, ..self }
    }

    pub open spec fn exiting(self) -> AppModel {
        AppModel { control_flow: AppControlFlow::Exit, ..self }
    }

    /// Removes a window; ends the application if that empties the registry and
    /// `exit_if_empty` is set.
    pub open spec fn remove_window(self, id: u64, exit_if_empty: bool) -> AppModel {
        let removed = self.with_webviews(without(self.webviews, id));
        if exit_if_empty && removed.webviews.len() == 0 {
            removed.exiting()
        } else {
            removed
        }
    }

    /// What persisting the window state asks for: the first window's geometry,
    /// when preservation is on and a window exists.
    pub open spec fn persist_effects(self) -> Seq<Effect> {
        if self.preserve_window_state && self.webviews.len() > 0 {
            seq![Effect::PersistWindowState(self.webviews[0].id)]
        } else {
            seq![]
        }
    }

    /// How the platform hides a window.
    pub open spec fn hide_effects(self, id: u64) -> Seq<Effect> {
        match self.platform {
            Platform::Windows | Platform::Linux => seq![Effect::HideWindow(id)],
            Platform::MacOs => seq![Effect::HideApplication],
            _ => seq![],
        }
    }

    pub open spec fn close_requested_spec(self, id: u64) -> (AppModel, Seq<Effect>) {
        if !self.has(id) {
            (self, seq![])
        } else {
            match close_decision_spec(
                self.entry(id).close_behaviour,
                self.default_window_close_behavior,
                self.webviews.len(),
            ) {
                CloseDecision::ExitApp => (self.exiting(), seq![]),
                CloseDecision::Hide => (self, self.hide_effects(id)),
                CloseDecision::Remove { exit_if_empty, persist_state } => (
                    self.remove_window(id, exit_if_empty),
                    if persist_state {
                        self.persist_effects().push(Effect::DestroyWindow(id))
                    } else {
                        seq![Effect::DestroyWindow(id)]
                    },
                ),
            }
        }
    }

    pub open spec fn window_destroyed_spec(self, id: u64) -> AppModel {
        if self.has(id) {
            self.remove_window(
                id,
                self.default_window_close_behavior
                    == DefaultWindowCloseBehaviour::LastWindowExitsApp,
            )
        } else {
            self
        }
    }

    pub open spec fn close_msg_spec(self, id: u64) -> (AppModel, Seq<Effect>) {
        if self.has(id) {
            (
                self.remove_window(
                    id,
                    self.default_window_close_behavior
                        == DefaultWindowCloseBehaviour::LastWindowExitsApp,
                ),
                seq![Effect::DestroyWindow(id)],
            )
        } else {
            (self, seq![])
        }
    }

    /// A registered window's effect, or nothing for an unknown id.
    pub open spec fn if_registered(self, id: u64, e: Effect) -> Seq<Effect> {
        if self.has(id) {
            seq![e]
        } else {
            seq![]
        }
    }

    pub open spec fn initialize_spec(self, id: u64) -> (AppModel, Seq<Effect>) {
        if self.has(id) && !self.entry(id).initialized {
            (
                self.with_webviews(
                    self.webviews.update(
                        position_of(self.webviews, id),
                        WebviewEntry { initialized: true, ..self.entry(id) },
                    ),
                ),
                seq![
                    Effect::RebuildAndFlush(id),
                    Effect::SetVisible { id, visible: self.is_visible_before_start },
                    Effect::SendPoll(id),
                ],
            )
        } else {
            (self, seq![])
        }
    }

    pub open spec fn change_close_behaviour_spec(
        self,
        id: u64,
        b: Option<WindowCloseBehaviour>,
    ) -> AppModel {
        if self.has(id) {
            self.with_webviews(
                self.webviews.update(
                    position_of(self.webviews, id),
                    WebviewEntry { close_behaviour: b, ..self.entry(id) },
                ),
            )
        } else {
            self
        }
    }

    pub open spec fn new_windows_spec(self) -> (AppModel, Seq<Effect>) {
        let mobile = self.platform.is_mobile_spec();
        (
            AppModel { pending_windows: seq![], ..self },
            self.pending_windows.map_values(|p: PendingWindow| create_effect(p, mobile)),
        )
    }

    pub open spec fn menu_spec(self, action: MenuAction) -> (AppModel, Seq<Effect>) {
        match action {
            MenuAction::FloatTop => (
                AppModel { float_all: !self.float_all, ..self },
                self.webviews.map_values(
                    |w: WebviewEntry| Effect::SetAlwaysOnTop { id: w.id, on_top: self.float_all },
                ),
            ),
            MenuAction::ToggleDevTools => (
                AppModel { show_devtools: !self.show_devtools, ..self },
                self.webviews.map_values(
                    |w: WebviewEntry| Effect::SetDevtools { id: w.id, open: !self.show_devtools },
                ),
            ),
            MenuAction::Other => (self, seq![]),
        }
    }

    pub open spec fn tray_icon_spec(self, e: TrayIconEvent) -> Seq<Effect> {
        if e == (TrayIconEvent::Click { left_button: true }) {
            self.webviews.map_values(|w: WebviewEntry| Effect::ShowAndFocus(w.id))
        } else {
            seq![]
        }
    }

    pub open spec fn hot_reload_spec(self, msg: HotReloadMsg) -> (AppModel, Seq<Effect>) {
        match msg {
            HotReloadMsg::HotReload { assets_changed } => (
                self,
                self.webviews.map_values(|w: WebviewEntry| Effect::ApplyHotReload(w.id))
                    + if assets_changed {
                    self.webviews.map_values(|w: WebviewEntry| Effect::KickStylesheets(w.id))
                } else {
                    seq![]
                },
            ),
            HotReloadMsg::Shutdown => (self.exiting(), seq![]),
            _ => (self, seq![]),
        }
    }

    pub open spec fn app_resume_spec(self) -> (AppModel, Seq<Effect>) {
        match self.initial_window {
            None => (self, seq![]),
            Some(cfg) => (
                AppModel {
                    initial_window: None,
                    is_visible_before_start: cfg.window_attributes.visible,
                    ..self
                },
                seq![
                    Effect::CreateInitialWindow {
                        config: WindowConfig {
                            window_attributes: with_defaults_spec(
                                WindowAttributes { visible: false, ..cfg.window_attributes },
                                self.platform.is_mobile_spec(),
                            ),
                            ..cfg
                        },
                        explicit_size: cfg.window_attributes.inner_size is Some,
                        explicit_position: cfg.window_attributes.position is Some,
                        restore_state: self.preserve_window_state
                            && !self.platform.is_mobile_spec(),
                    },
                ],
            ),
        }
    }

    pub open spec fn ipc_spec(self, id: u64, msg: IpcMessage) -> (AppModel, Seq<Effect>) {
        match method_spec(msg.method) {
            IpcMethod::Initialize => self.initialize_spec(id),
            IpcMethod::FileDialog => (
                self,
                match file_dialog_spec(msg.params) {
                    Some(request) => self.if_registered(id, Effect::ShowFileDialog { id, request }),
                    None => seq![],
                },
            ),
            IpcMethod::Query => (
                self,
                match query_result_spec(msg.params) {
                    Some(query) => self.if_registered(id, Effect::DeliverQuery { id, query }),
                    None => seq![],
                },
            ),
            IpcMethod::BrowserOpen => (
                self,
                match browser_href_spec(msg.params) {
                    Some(href) => seq![Effect::OpenBrowser(href)],
                    None => seq![],
                },
            ),
            _ => (self, seq![]),
        }
    }

    /// The state and the effects after the handler of one event, before the
    /// closing `Wait` or `Exit`.
    pub open spec fn dispatch_spec(self, event: AppEvent) -> (AppModel, Seq<Effect>) {
        match event {
            AppEvent::LoopExiting => (self, self.persist_effects()),
            AppEvent::CloseRequested(id) => self.close_requested_spec(id),
            AppEvent::Destroyed(id) => (self.window_destroyed_spec(id), seq![]),
            AppEvent::Resized(id, size) => (
                self,
                self.if_registered(id, Effect::SetBounds { id, size }),
            ),
            AppEvent::OtherWindowEvent(_) => (self, seq![]),
            AppEvent::Poll(id) => (self, self.if_registered(id, Effect::PollWindow(id))),
            AppEvent::NewWindow => self.new_windows_spec(),
            AppEvent::CloseWindow(id) => self.close_msg_spec(id),
            AppEvent::Shutdown => (self.exiting(), seq![]),
            AppEvent::GlobalHotKeyEvent => (self, seq![Effect::CallShortcutHandlers]),
            AppEvent::MenuEvent(action) => self.menu_spec(action),
            AppEvent::TrayMenuEvent => (self, seq![]),
            AppEvent::TrayIconEvent(e) => (self, self.tray_icon_spec(e)),
            AppEvent::HotReloadEvent(msg) => self.hot_reload_spec(msg),
            AppEvent::WindowsDragDrop(id) => (self, self.if_registered(id, Effect::DragDrop(id))),
            AppEvent::WindowsDragLeave(id) => (self, self.if_registered(id, Effect::DragLeave(id))),
            AppEvent::WindowsDragOver(id, x, y) => (
                self,
                self.if_registered(id, Effect::DragOver { id, x, y }),
            ),
            AppEvent::Ipc { id, msg } => self.ipc_spec(id, msg),
            AppEvent::CloseBehaviour(id, b) => (self.change_close_behaviour_spec(id, b), seq![]),
        }
    }

    /// The state as an event starts to be handled: waiting, whatever the last
    /// event decided.
    pub open spec fn waiting(self) -> AppModel {
        AppModel { control_flow: AppControlFlow::Wait, ..self }
    }

    /// One event in full: the control flow back at `Wait`, the handler, then
    /// `Exit` if the handler ended the application, else `Wait`.
    pub open spec fn step(self, event: AppEvent) -> (AppModel, Seq<Effect>) {
        let (m, effects) = self.waiting().dispatch_spec(event);
        (
            m,
            effects.push(
                if m.control_flow == AppControlFlow::Exit {
                    Effect::Exit
                } else {
                    Effect::Wait
                },
            ),
        )
    }
}


/// In a registry whose ids are unique, the window at `i` is the one `position_of`
/// picks for its id.
pub proof fn lemma_position_of_unique(ws: Seq<WebviewEntry>, i: int)
    requires
        ids_unique(ws),
        0 <= i < ws.len(),
    ensures
        is_registered(ws, ws[i].id),
        position_of(ws, ws[i].id) == i,
{
    assert(is_registered(ws, ws[i].id));
    let j = position_of(ws, ws[i].id);
    if j < i {
        assert(ws[j].id != ws[i].id);
    } else if i < j {
        assert(ws[i].id != ws[j].id);
    }
}

/// Removing a window of a registry with unique ids leaves none with its id.
pub proof fn lemma_remove_unique_drops_id(ws: Seq<WebviewEntry>, i: int)
    requires
        ids_unique(ws),
        0 <= i < ws.len(),
    ensures
        !is_registered(ws.remove(i), ws[i].id),
{
    lemma_remove_keeps_unique(ws, i);
}

proof fn lemma_remove_keeps_unique(ws: Seq<WebviewEntry>, i: int)
    requires
        ids_unique(ws),
        0 <= i < ws.len(),
    ensures
        ids_unique(ws.remove(i)),
        forall|k: int| 0 <= k < ws.remove(i).len() ==> ws.remove(i)[k].id != ws[i].id,
{
    let r = ws.remove(i);
    assert forall|a: int, b: int| 0 <= a < b < r.len() implies r[a].id != r[b].id by {
        let a2 = if a < i { a } else { a + 1 };
        let b2 = if b < i { b } else { b + 1 };
        assert(a2 < b2);
        assert(r[a] == ws[a2] && r[b] == ws[b2]);
    }
    assert forall|k: int| 0 <= k < r.len() implies r[k].id != ws[i].id by {
        let k2 = if k < i { k } else { k + 1 };
        assert(r[k] == ws[k2]);
    }
}

proof fn lemma_map_prefix_push<A, B>(s: Seq<A>, i: int, f: spec_fn(A) -> B)
    requires
        0 <= i < s.len(),
    ensures
        s.subrange(0, i + 1).map_values(f) == s.subrange(0, i).map_values(f).push(f(s[i])),
{
    assert(s.subrange(0, i + 1).map_values(f) =~= s.subrange(0, i).map_values(f).push(f(s[i])));
}

/// The process-wide controller: the registry of windows, the queue of windows
/// asked for, and the state that decides when the application ends.
pub struct App {
    control_flow: AppControlFlow,
    is_visible_before_start: bool,
    default_window_close_behavior: DefaultWindowCloseBehaviour,
    webviews: Vec<WebviewEntry>,
    pending_windows: Vec<PendingWindow>,
    initial_window: Option<WindowConfig>,
    float_all: bool,
    show_devtools: bool,
    platform: Platform,
    preserve_window_state: bool,
}

impl View for App {
    type V = AppModel;

    closed spec fn view(&self) -> AppModel {
        AppModel {
            control_flow: self.control_flow,
            is_visible_before_start: self.is_visible_before_start,
            default_window_close_behavior: self.default_window_close_behavior,
            webviews: self.webviews@,
            pending_windows: self.pending_windows@,
            initial_window: self.initial_window,
            float_all: self.float_all,
            show_devtools: self.show_devtools,
            platform: self.platform,
            preserve_window_state: self.preserve_window_state,
        }
    }
}

/// The controller as it starts: no window yet, the first one waiting for the
/// native loop to start.
pub open spec fn initial_model(cfg: AppConfig) -> AppModel {
    AppModel {
        control_flow: AppControlFlow::Wait,
        is_visible_before_start: true,
        default_window_close_behavior: cfg.default_window_close_behaviour,
        webviews: seq![],
        pending_windows: seq![],
        initial_window: Some(cfg.window),
        float_all: false,
        show_devtools: false,
        platform: cfg.platform,
        preserve_window_state: cfg.preserve_window_state,
    }
}

impl App {
    pub open spec fn wf(&self) -> bool {
        self@.wf()
    }

    pub fn new(cfg: AppConfig) -> (r: App)
        ensures
            r@ == initial_model(cfg),
            r.wf(),
    {
        App {
            control_flow: AppControlFlow::Wait,
            is_visible_before_start: true,
            default_window_close_behavior: cfg.default_window_close_behaviour,
            webviews: Vec::new(),
            pending_windows: Vec::new(),
            initial_window: Some(cfg.window),
            float_all: false,
            show_devtools: false,
            platform: cfg.platform,
            preserve_window_state: cfg.preserve_window_state,
        }
    }

    /// Where the window `id` stands in the registry, if it is registered.
    fn find(&self, id: u64) -> (r: Option<usize>)
        requires
            self.wf(),
        ensures
            r is Some == self@.has(id),
            r matches Some(i) ==> i == position_of(self@.webviews, id) && i < self@.webviews.len(),
    {
        let mut i: usize = 0;
        while i < self.webviews.len()
            invariant
                self.wf(),
                0 <= i <= self.webviews@.len(),
                forall|k: int| 0 <= k < i ==> self.webviews@[k].id != id,
            decreases self.webviews@.len() - i,
        {
            if self.webviews[i].id == id {
                proof {
                    lemma_position_of_unique(self.webviews@, i as int);
                }
                return Some(i);
            }
            i = i + 1;
        }
        None
    }

    /// Removes the window at `i`.
    fn remove_at(&mut self, i: usize)
        requires
            old(self).wf(),
            i < old(self)@.webviews.len(),
        ensures
            final(self).wf(),
            final(self)@ == old(self)@.with_webviews(old(self)@.webviews.remove(i as int)),
    {
        proof {
            lemma_remove_keeps_unique(self.webviews@, i as int);
        }
        self.webviews.remove(i);
    }

    /// The registry's window ids, in registration order.
    pub fn window_ids(&self) -> (r: Vec<u64>)
        ensures
            r@ == self@.webviews.map_values(|w: WebviewEntry| w.id),
    {
        let mut r: Vec<u64> = Vec::new();
        let mut i: usize = 0;
        while i < self.webviews.len()
            invariant
                0 <= i <= self.webviews@.len(),
                r@ == self.webviews@.subrange(0, i as int).map_values(|w: WebviewEntry| w.id),
            decreases self.webviews@.len() - i,
        {
            assert(self.webviews@.subrange(0, i as int + 1) =~= self.webviews@.subrange(
                0,
                i as int,
            ).push(self.webviews@[i as int]));
            r.push(self.webviews[i].id);
            i = i + 1;
        }
        assert(self.webviews@.subrange(0, i as int) =~= self.webviews@);
        r
    }

    /// Whether the next event loop step ends the application.
    pub fn control_flow(&self) -> (r: AppControlFlow)
        ensures
            r == self@.control_flow,
    {
        self.control_flow
    }

    /// The number of windows asked for and not yet created.
    pub fn pending_window_count(&self) -> (r: usize)
        ensures
            r == self@.pending_windows.len(),
    {
        self.pending_windows.len()
    }

    /// The close-behaviour override of a registered window.
    pub fn close_behaviour_of(&self, id: u64) -> (r: Option<Option<WindowCloseBehaviour>>)
        requires
            self.wf(),
        ensures
            r is Some == self@.has(id),
            r matches Some(b) ==> b == self@.entry(id).close_behaviour,
    {
        match self.find(id) {
            Some(i) => Some(self.webviews[i].close_behaviour),
            None => None,
        }
    }

    /// Queues a window to be created on the next new-window event.
    pub fn queue_window(&mut self, window: PendingWindow)
        ensures
            final(self)@ == (AppModel {
                pending_windows: old(self)@.pending_windows.push(window),
                ..old(self)@
            }),
    {
        self.pending_windows.push(window);
    }

    /// Registers a window created for a queued request, and asks for its first
    /// poll-request.
    pub fn window_created(
        &mut self,
        id: u64,
        close_behaviour: Option<WindowCloseBehaviour>,
    ) -> (r: Vec<Effect>)
        requires
            old(self).wf(),
        ensures
            final(self).wf(),
            final(self)@ == old(self)@.insert_spec(id, close_behaviour),
            r@ == seq![Effect::SendPoll(id)],
    {
        self.insert_webview(id, close_behaviour);
        let mut r: Vec<Effect> = Vec::new();
        r.push(Effect::SendPoll(id));
        r
    }

    /// Registers a window that was just created, replacing any entry with the same id.
    pub fn insert_webview(&mut self, id: u64, close_behaviour: Option<WindowCloseBehaviour>)
        requires
            old(self).wf(),
        ensures
            final(self).wf(),
            final(self)@ == old(self)@.insert_spec(id, close_behaviour),
    {
        match self.find(id) {
            Some(i) => {
                proof {
                    lemma_remove_keeps_unique(self.webviews@, i as int);
                }
                self.remove_at(i);
            },
            None => {},
        }
        let ghost before = self.webviews@;
        assert(forall|k: int| 0 <= k < before.len() ==> before[k].id != id) by {
            if old(self)@.has(id) {
                lemma_position_of_unique(old(self)@.webviews, position_of(old(self)@.webviews, id));
            }
        }
        self.webviews.push(WebviewEntry { id, close_behaviour, initialized: false });
    }

    /// Removes the window at `i`, and ends the application if that empties the
    /// registry and `exit_if_empty` is set.
    fn remove_window_at(&mut self, i: usize, exit_if_empty: bool)
        requires
            old(self).wf(),
            i < old(self)@.webviews.len(),
        ensures
            final(self).wf(),
            final(self)@ == old(self)@.remove_window(
                old(self)@.webviews[i as int].id,
                exit_if_empty,
            ),
    {
        proof {
            lemma_position_of_unique(self.webviews@, i as int);
        }
        self.remove_at(i);
        if exit_if_empty && self.webviews.len() == 0 {
            self.control_flow = AppControlFlow::Exit;
        }
    }

    /// What persisting the window state asks for.
    pub fn persist_window_state(&self) -> (r: Vec<Effect>)
        ensures
            r@ == self@.persist_effects(),
    {
        let mut r: Vec<Effect> = Vec::new();
        if self.preserve_window_state && self.webviews.len() > 0 {
            r.push(Effect::PersistWindowState(self.webviews[0].id));
        }
        r
    }

    /// The native loop is exiting: record the window geometry if asked to.
    pub fn handle_loop_exiting(&self) -> (r: Vec<Effect>)
        ensures
            r@ == self@.persist_effects(),
    {
        self.persist_window_state()
    }

    /// Hides a window in the way of the platform.
    pub fn hide_window(&self, id: u64) -> (r: Vec<Effect>)
        ensures
            r@ == self@.hide_effects(id),
    {
        let mut r: Vec<Effect> = Vec::new();
        match self.platform {
            Platform::Windows | Platform::Linux => r.push(Effect::HideWindow(id)),
            Platform::MacOs => r.push(Effect::HideApplication),
            _ => {},
        }
        r
    }

    /// Applies the close policy to a window that was asked to close: its override
    /// if it has one, else the default policy. An unknown id is ignored.
    pub fn handle_close_requested(&mut self, id: u64) -> (r: Vec<Effect>)
        requires
            old(self).wf(),
        ensures
            final(self).wf(),
            (final(self)@, r@) == old(self)@.close_requested_spec(id),
    {
        match self.find(id) {
            None => Vec::new(),
            Some(i) => {
                let decision = close_decision(
                    self.webviews[i].close_behaviour,
                    self.default_window_close_behavior,
                    self.webviews.len(),
                );
                match decision {
                    CloseDecision::ExitApp => {
                        self.control_flow = AppControlFlow::Exit;
                        Vec::new()
                    },
                    CloseDecision::Hide => self.hide_window(id),
                    CloseDecision::Remove { exit_if_empty, persist_state } => {
                        let mut r = if persist_state {
                            self.persist_window_state()
                        } else {
                            Vec::new()
                        };
                        self.remove_window_at(i, exit_if_empty);
                        r.push(Effect::DestroyWindow(id));
                        r
                    },
                }
            },
        }
    }

    /// The native window is gone: drop its entry, and end the application if that
    /// empties the registry under the last-window-exits policy.
    pub fn window_destroyed(&mut self, id: u64)
        requires
            old(self).wf(),
        ensures
            final(self).wf(),
            final(self)@ == old(self)@.window_destroyed_spec(id),
    {
        match self.find(id) {
            Some(i) => {
                let exit = match self.default_window_close_behavior {
                    DefaultWindowCloseBehaviour::LastWindowExitsApp => true,
                    _ => false,
                };
                self.remove_window_at(i, exit);
            },
            None => {},
        }
    }

    /// The application closed a window: drop it and destroy the native window, and
    /// end the application if that empties the registry under the last-window-exits
    /// policy.
    pub fn handle_close_msg(&mut self, id: u64) -> (r: Vec<Effect>)
        requires
            old(self).wf(),
        ensures
            final(self).wf(),
            (final(self)@, r@) == old(self)@.close_msg_spec(id),
    {
        let mut r: Vec<Effect> = Vec::new();
        match self.find(id) {
            Some(i) => {
                let exit = match self.default_window_close_behavior {
                    DefaultWindowCloseBehaviour::LastWindowExitsApp => true,
                    _ => false,
                };
                self.remove_window_at(i, exit);
                r.push(Effect::DestroyWindow(id));
            },
            None => {},
        }
        r
    }

    /// A window's single effect if it is registered, else nothing.
    fn if_registered(&self, id: u64, e: Effect) -> (r: Vec<Effect>)
        requires
            self.wf(),
        ensures
            r@ == self@.if_registered(id, e),
    {
        let mut r: Vec<Effect> = Vec::new();
        if self.find(id).is_some() {
            r.push(e);
        }
        r
    }

    /// Forwards a new native size to the window's webview.
    pub fn resize_window(&self, id: u64, size: PhysicalSize) -> (r: Vec<Effect>)
        requires
            self.wf(),
        ensures
            r@ == self@.if_registered(id, Effect::SetBounds { id, size }),
    {
        self.if_registered(id, Effect::SetBounds { id, size })
    }

    /// Polls the UI runtime of a window; an unknown id is ignored.
    pub fn poll_vdom(&self, id: u64) -> (r: Vec<Effect>)
        requires
            self.wf(),
        ensures
            r@ == self@.if_registered(id, Effect::PollWindow(id)),
    {
        self.if_registered(id, Effect::PollWindow(id))
    }

    /// The document of a window is loaded: build and flush it, reveal the window
    /// and start polling. Only the first call for a window does so.
    pub fn handle_initialize_msg(&mut self, id: u64) -> (r: Vec<Effect>)
        requires
            old(self).wf(),
        ensures
            final(self).wf(),
            (final(self)@, r@) == old(self)@.initialize_spec(id),
    {
        let mut r: Vec<Effect> = Vec::new();
        match self.find(id) {
            Some(i) => {
                if !self.webviews[i].initialized {
                    let entry = WebviewEntry { initialized: true, ..self.webviews[i] };
                    self.webviews.set(i, entry);
                    r.push(Effect::RebuildAndFlush(id));
                    r.push(Effect::SetVisible { id, visible: self.is_visible_before_start });
                    r.push(Effect::SendPoll(id));
                    assert(ids_unique(self.webviews@)) by {
                        assert(forall|k: int|
                            0 <= k < self.webviews@.len() ==> self.webviews@[k].id == old(
                                self,
                            )@.webviews[k].id);
                    }
                }
            },
            None => {},
        }
        r
    }

    /// Sets or clears the close-behaviour override of a registered window.
    pub fn change_window_close_behaviour(
        &mut self,
        id: u64,
        behaviour: Option<WindowCloseBehaviour>,
    )
        requires
            old(self).wf(),
        ensures
            final(self).wf(),
            final(self)@ == old(self)@.change_close_behaviour_spec(id, behaviour),
    {
        match self.find(id) {
            Some(i) => {
                let entry = WebviewEntry { close_behaviour: behaviour, ..self.webviews[i] };
                self.webviews.set(i, entry);
                assert(ids_unique(self.webviews@)) by {
                    assert(forall|k: int|
                        0 <= k < self.webviews@.len() ==> self.webviews@[k].id == old(
                            self,
                        )@.webviews[k].id);
                }
            },
            None => {},
        }
    }

    /// Creates every window asked for, in the order asked: one creation per queued
    /// window, each with the default size and icon filled in, and the queue left
    /// empty.
    pub fn handle_new_windows(&mut self) -> (r: Vec<Effect>)
        ensures
            (final(self)@, r@) == old(self)@.new_windows_spec(),
    {
        let mobile = self.platform.is_mobile();
        let mut r: Vec<Effect> = Vec::new();
        let mut i: usize = 0;
        while i < self.pending_windows.len()
            invariant
                0 <= i <= self.pending_windows@.len(),
                mobile == self.platform.is_mobile_spec(),
                r@ == self.pending_windows@.subrange(0, i as int).map_values(
                    |p: PendingWindow| create_effect(p, mobile),
                ),
            decreases self.pending_windows@.len() - i,
        {
            proof {
                lemma_map_prefix_push(
                    self.pending_windows@,
                    i as int,
                    |p: PendingWindow| create_effect(p, mobile),
                );
            }
            let p = self.pending_windows[i];
            let attributes = with_defaults(p.config.window_attributes, mobile);
            r.push(
                Effect::CreateWindow(
                    PendingWindow {
                        config: WindowConfig { window_attributes: attributes, ..p.config },
                        ..p
                    },
                ),
            );
            i = i + 1;
        }
        assert(self.pending_windows@.subrange(0, i as int) =~= self.pending_windows@);
        self.pending_windows = Vec::new();
        r
    }

    /// Answers the controller's own menu entries: toggling "always on top" or the
    /// developer tools of every window.
    pub fn handle_menu_event(&mut self, action: MenuAction) -> (r: Vec<Effect>)
        ensures
            (final(self)@, r@) == old(self)@.menu_spec(action),
    {
        let mut r: Vec<Effect> = Vec::new();
        match action {
            MenuAction::FloatTop => {
                let on_top = self.float_all;
                let mut i: usize = 0;
                while i < self.webviews.len()
                    invariant
                        0 <= i <= self.webviews@.len(),
                        r@ == self.webviews@.subrange(0, i as int).map_values(
                            |w: WebviewEntry| Effect::SetAlwaysOnTop { id: w.id, on_top },
                        ),
                    decreases self.webviews@.len() - i,
                {
                    proof {
                        lemma_map_prefix_push(
                            self.webviews@,
                            i as int,
                            |w: WebviewEntry| Effect::SetAlwaysOnTop { id: w.id, on_top },
                        );
                    }
                    r.push(Effect::SetAlwaysOnTop { id: self.webviews[i].id, on_top });
                    i = i + 1;
                }
                assert(self.webviews@.subrange(0, i as int) =~= self.webviews@);
                self.float_all = !self.float_all;
            },
            MenuAction::ToggleDevTools => {
                self.show_devtools = !self.show_devtools;
                let open = self.show_devtools;
                let mut i: usize = 0;
                while i < self.webviews.len()
                    invariant
                        0 <= i <= self.webviews@.len(),
                        r@ == self.webviews@.subrange(0, i as int).map_values(
                            |w: WebviewEntry| Effect::SetDevtools { id: w.id, open },
                        ),
                    decreases self.webviews@.len() - i,
                {
                    proof {
                        lemma_map_prefix_push(
                            self.webviews@,
                            i as int,
                            |w: WebviewEntry| Effect::SetDevtools { id: w.id, open },
                        );
                    }
                    r.push(Effect::SetDevtools { id: self.webviews[i].id, open });
                    i = i + 1;
                }
                assert(self.webviews@.subrange(0, i as int) =~= self.webviews@);
            },
            MenuAction::Other => {},
        }
        r
    }

    /// Tray menu entries are left to the application.
    pub fn handle_tray_menu_event(&self) -> (r: Vec<Effect>)
        ensures
            r@ == Seq::<Effect>::empty(),
    {
        Vec::new()
    }

    /// A left click on the tray icon shows and focuses every window.
    pub fn handle_tray_icon_event(&self, event: TrayIconEvent) -> (r: Vec<Effect>)
        ensures
            r@ == self@.tray_icon_spec(event),
    {
        let mut r: Vec<Effect> = Vec::new();
        if event == (TrayIconEvent::Click { left_button: true }) {
            let mut i: usize = 0;
            while i < self.webviews.len()
                invariant
                    0 <= i <= self.webviews@.len(),
                    r@ == self.webviews@.subrange(0, i as int).map_values(
                        |w: WebviewEntry| Effect::ShowAndFocus(w.id),
                    ),
                decreases self.webviews@.len() - i,
            {
                proof {
                    lemma_map_prefix_push(
                        self.webviews@,
                        i as int,
                        |w: WebviewEntry| Effect::ShowAndFocus(w.id),
                    );
                }
                r.push(Effect::ShowAndFocus(self.webviews[i].id));
                i = i + 1;
            }
            assert(self.webviews@.subrange(0, i as int) =~= self.webviews@);
        }
        r
    }

    /// A global shortcut fired: run the registered handlers.
    pub fn handle_global_hotkey(&self) -> (r: Vec<Effect>)
        ensures
            r@ == seq![Effect::CallShortcutHandlers],
    {
        let mut r: Vec<Effect> = Vec::new();
        r.push(Effect::CallShortcutHandlers);
        r
    }

    /// A message from the development server: apply hot-reload changes to every
    /// window (and reload style sheets when assets changed), or shut down.
    pub fn handle_hot_reload_msg(&mut self, msg: HotReloadMsg) -> (r: Vec<Effect>)
        ensures
            (final(self)@, r@) == old(self)@.hot_reload_spec(msg),
    {
        let mut r: Vec<Effect> = Vec::new();
        match msg {
            HotReloadMsg::HotReload { assets_changed } => {
                let mut i: usize = 0;
                while i < self.webviews.len()
                    invariant
                        0 <= i <= self.webviews@.len(),
                        r@ == self.webviews@.subrange(0, i as int).map_values(
                            |w: WebviewEntry| Effect::ApplyHotReload(w.id),
                        ),
                    decreases self.webviews@.len() - i,
                {
                    proof {
                        lemma_map_prefix_push(
                            self.webviews@,
                            i as int,
                            |w: WebviewEntry| Effect::ApplyHotReload(w.id),
                        );
                    }
                    r.push(Effect::ApplyHotReload(self.webviews[i].id));
                    i = i + 1;
                }
                assert(self.webviews@.subrange(0, i as int) =~= self.webviews@);
                let ghost applied = r@;
                if assets_changed {
                    let mut j: usize = 0;
                    while j < self.webviews.len()
                        invariant
                            0 <= j <= self.webviews@.len(),
                            applied == self.webviews@.map_values(
                                |w: WebviewEntry| Effect::ApplyHotReload(w.id),
                            ),
                            r@ == applied + self.webviews@.subrange(0, j as int).map_values(
                                |w: WebviewEntry| Effect::KickStylesheets(w.id),
                            ),
                        decreases self.webviews@.len() - j,
                    {
                        proof {
                            lemma_map_prefix_push(
                                self.webviews@,
                                j as int,
                                |w: WebviewEntry| Effect::KickStylesheets(w.id),
                            );
                        }
                        r.push(Effect::KickStylesheets(self.webviews[j].id));
                        j = j + 1;
                    }
                    assert(self.webviews@.subrange(0, j as int) =~= self.webviews@);
                } else {
                    assert(r@ =~= applied + Seq::<Effect>::empty());
                }
            },
            HotReloadMsg::Shutdown => {
                self.control_flow = AppControlFlow::Exit;
            },
            _ => {},
        }
        r
    }

    /// The native loop started: create the first window, hidden until its document
    /// is built, and remember whether it should then be shown.
    pub fn handle_app_resume(&mut self) -> (r: Vec<Effect>)
        ensures
            (final(self)@, r@) == old(self)@.app_resume_spec(),
    {
        let mut r: Vec<Effect> = Vec::new();
        match self.initial_window.take() {
            None => {},
            Some(cfg) => {
                self.is_visible_before_start = cfg.window_attributes.visible;
                let mobile = self.platform.is_mobile();
                let attributes = with_defaults(
                    WindowAttributes { visible: false, ..cfg.window_attributes },
                    mobile,
                );
                r.push(
                    Effect::CreateInitialWindow {
                        config: WindowConfig { window_attributes: attributes, ..cfg },
                        explicit_size: cfg.window_attributes.inner_size.is_some(),
                        explicit_position: cfg.window_attributes.position.is_some(),
                        restore_state: self.preserve_window_state && !mobile,
                    },
                );
            },
        }
        r
    }

    /// Opens the link a browser-open message names; a message without one is
    /// dropped.
    pub fn handle_browser_open(&self, msg: IpcMessage) -> (r: Vec<Effect>)
        ensures
            r@ == (match browser_href_spec(msg.params) {
                Some(href) => seq![Effect::OpenBrowser(href)],
                None => seq![],
            }),
    {
        let mut r: Vec<Effect> = Vec::new();
        match browser_href(&msg.params) {
            Some(href) => r.push(Effect::OpenBrowser(href)),
            None => {},
        }
        r
    }

    /// Hands a query answer to the window's query channel; a malformed answer or
    /// an unknown window is ignored.
    pub fn handle_query_msg(&self, msg: IpcMessage, id: u64) -> (r: Vec<Effect>)
        requires
            self.wf(),
        ensures
            r@ == (match query_result_spec(msg.params) {
                Some(query) => self@.if_registered(id, Effect::DeliverQuery { id, query }),
                None => seq![],
            }),
    {
        match QueryResult::from_json(msg.params) {
            Some(query) => self.if_registered(id, Effect::DeliverQuery { id, query }),
            None => Vec::new(),
        }
    }

    /// Asks for a native file dialog on behalf of a file input; a malformed
    /// request or an unknown window is ignored.
    pub fn handle_file_dialog_msg(&self, msg: IpcMessage, window: u64) -> (r: Vec<Effect>)
        requires
            self.wf(),
        ensures
            r@ == (match file_dialog_spec(msg.params) {
                Some(request) => self@.if_registered(
                    window,
                    Effect::ShowFileDialog { id: window, request },
                ),
                None => seq![],
            }),
    {
        match FileDialogRequest::from_json(&msg.params) {
            Some(request) => self.if_registered(
                window,
                Effect::ShowFileDialog { id: window, request },
            ),
            None => Vec::new(),
        }
    }

    /// Dispatches a message from the embedded engine by its method; unknown
    /// methods are ignored.
    pub fn handle_ipc(&mut self, id: u64, msg: IpcMessage) -> (r: Vec<Effect>)
        requires
            old(self).wf(),
        ensures
            final(self).wf(),
            (final(self)@, r@) == old(self)@.ipc_spec(id, msg),
    {
        match msg.method() {
            IpcMethod::Initialize => self.handle_initialize_msg(id),
            IpcMethod::FileDialog => self.handle_file_dialog_msg(msg, id),
            IpcMethod::UserEvent => Vec::new(),
            IpcMethod::Query => self.handle_query_msg(msg, id),
            IpcMethod::BrowserOpen => self.handle_browser_open(msg),
            IpcMethod::Other(_) => Vec::new(),
        }
    }

    /// Handles one event: sets the control flow back to `Wait`, runs the event's
    /// handler, then ends with `Exit` if the handler ended the application, else
    /// with `Wait`.
    pub fn handle_event(&mut self, event: AppEvent) -> (r: Vec<Effect>)
        requires
            old(self).wf(),
        ensures
            final(self).wf(),
            (final(self)@, r@) == old(self)@.step(event),
    {
        self.control_flow = AppControlFlow::Wait;
        let mut r = match event {
            AppEvent::LoopExiting => self.handle_loop_exiting(),
            AppEvent::CloseRequested(id) => self.handle_close_requested(id),
            AppEvent::Destroyed(id) => {
                self.window_destroyed(id);
                Vec::new()
            },
            AppEvent::Resized(id, size) => self.resize_window(id, size),
            AppEvent::OtherWindowEvent(_) => Vec::new(),
            AppEvent::Poll(id) => self.poll_vdom(id),
            AppEvent::NewWindow => self.handle_new_windows(),
            AppEvent::CloseWindow(id) => self.handle_close_msg(id),
            AppEvent::Shutdown => {
                self.control_flow = AppControlFlow::Exit;
                Vec::new()
            },
            AppEvent::GlobalHotKeyEvent => self.handle_global_hotkey(),
            AppEvent::MenuEvent(action) => self.handle_menu_event(action),
            AppEvent::TrayMenuEvent => self.handle_tray_menu_event(),
            AppEvent::TrayIconEvent(e) => self.handle_tray_icon_event(e),
            AppEvent::HotReloadEvent(msg) => self.handle_hot_reload_msg(msg),
            AppEvent::WindowsDragDrop(id) => self.if_registered(id, Effect::DragDrop(id)),
            AppEvent::WindowsDragLeave(id) => self.if_registered(id, Effect::DragLeave(id)),
            AppEvent::WindowsDragOver(id, x, y) => self.if_registered(
                id,
                Effect::DragOver { id, x, y },
            ),
            AppEvent::Ipc { id, msg } => self.handle_ipc(id, msg),
            AppEvent::CloseBehaviour(id, behaviour) => {
                self.change_window_close_behaviour(id, behaviour);
                Vec::new()
            },
        };
        match self.control_flow {
            AppControlFlow::Exit => r.push(Effect::Exit),
            AppControlFlow::Wait => r.push(Effect::Wait),
        }
        r
    }
}

} // verus!