use vstd::prelude::*;

use crate::app::{create_effect, AppControlFlow, AppEvent, AppModel, Effect, WebviewEntry};
use crate::window::PendingWindow;
use crate::ipc::{method_spec, IpcMessage, IpcMethod};
use crate::policy::{DefaultWindowCloseBehaviour, WindowCloseBehaviour};

verus! {

/// A new-window event creates every queued window, in the order in which they were
/// queued, each with its own token and configuration (defaults filled in), and
/// leaves the queue empty.
pub proof fn lemma_new_windows_in_queue_order(m: AppModel)
    ensures
        ({
            let (after, effects) = m.step(AppEvent::NewWindow);
            &&& after.pending_windows.len() == 0
            &&& after.webviews == m.webviews
            &&& effects.len() == m.pending_windows.len() + 1
            &&& forall|i: int|
                0 <= i < m.pending_windows.len() ==> effects[i] == create_effect(
                    m.pending_windows[i],
                    m.platform.is_mobile_spec(),
                )
            &&& forall|i: int|
                0 <= i < m.pending_windows.len() ==> (#[trigger] effects[i] matches
                    Effect::CreateWindow(w) && w.token == m.pending_windows[i].token)
            &&& effects.last() == Effect::Wait
        }),
{
}

/// The controller after the embedder registered the windows created for `windows`,
/// in order, under the native ids `ids`.
pub open spec fn register_all(m: AppModel, ids: Seq<u64>, windows: Seq<PendingWindow>) -> AppModel
    decreases ids.len(),
{
    if ids.len() == 0 || windows.len() == 0 {
        m
    } else {
        register_all(m, ids.drop_last(), windows.drop_last()).insert_spec(
            ids.last(),
            windows.last().config.close_behaviour,
        )
    }
}

/// The entries that registering `windows` under `ids` appends, in order.
pub open spec fn created_entries(ids: Seq<u64>, windows: Seq<PendingWindow>) -> Seq<WebviewEntry> {
    Seq::new(
        ids.len(),
        |i: int|
            WebviewEntry {
                id: ids[i],
                close_behaviour: windows[i].config.close_behaviour,
                initialized: false,
            },
    )
}

proof fn lemma_register_all_appends(m: AppModel, ids: Seq<u64>, windows: Seq<PendingWindow>)
    requires
        m.wf(),
        ids.len() == windows.len(),
        forall|i: int, j: int| 0 <= i < j < ids.len() ==> ids[i] != ids[j],
        forall|i: int| 0 <= i < ids.len() ==> !m.has(#[trigger] ids[i]),
    ensures
        register_all(m, ids, windows).wf(),
        register_all(m, ids, windows).webviews == m.webviews + created_entries(ids, windows),
        register_all(m, ids, windows).pending_windows == m.pending_windows,
        register_all(m, ids, windows).control_flow == m.control_flow,
    decreases ids.len(),
{
    if ids.len() == 0 {
        assert(m.webviews + created_entries(ids, windows) =~= m.webviews);
    } else {
        let (ids0, ws0) = (ids.drop_last(), windows.drop_last());
        assert forall|i: int| 0 <= i < ids0.len() implies !m.has(#[trigger] ids0[i]) by {
            assert(ids0[i] == ids[i]);
        }
        lemma_register_all_appends(m, ids0, ws0);
        let prev = register_all(m, ids0, ws0);
        let id = ids.last();
        assert(!m.has(id));
        assert(!prev.has(id)) by {
            if prev.has(id) {
                let k = choose|k: int| 0 <= k < prev.webviews.len() && prev.webviews[k].id == id;
                if k < m.webviews.len() {
                    assert(prev.webviews[k] == m.webviews[k]);
                } else {
                    let j = k - m.webviews.len();
                    assert(prev.webviews[k] == created_entries(ids0, ws0)[j]);
                    assert(ids0[j] == ids[j]);
                }
            }
        }
        let e = WebviewEntry {
            id,
            close_behaviour: windows.last().config.close_behaviour,
            initialized: false,
        };
        assert(prev.webviews.push(e) =~= m.webviews + created_entries(ids, windows));
        assert forall|a: int, b: int|
            0 <= a < b < prev.webviews.push(e).len() implies prev.webviews.push(e)[a].id
            != prev.webviews.push(e)[b].id by {
            if b == prev.webviews.len() {
                assert(prev.webviews[a].id != id);
            }
        }
    }
}

/// Windows created for a new-window event and registered by the embedder in the
/// order of the creations, under fresh distinct ids, follow the existing windows in
/// the registry in queue order: the registry grows by the queue's length, the
/// windows already there are kept, and the queue is left empty.
pub proof fn lemma_created_windows_registered_in_queue_order(m: AppModel, ids: Seq<u64>)
    requires
        m.wf(),
        ids.len() == m.pending_windows.len(),
        forall|i: int, j: int| 0 <= i < j < ids.len() ==> ids[i] != ids[j],
        forall|i: int| 0 <= i < ids.len() ==> !m.has(#[trigger] ids[i]),
    ensures
        ({
            let (after, effects) = m.step(AppEvent::NewWindow);
            let registered = register_all(after, ids, m.pending_windows);
            &&& registered.wf()
            &&& registered.webviews == m.webviews + created_entries(ids, m.pending_windows)
            &&& registered.webviews.len() == m.webviews.len() + m.pending_windows.len()
            &&& registered.pending_windows.len() == 0
        }),
{
    let (after, effects) = m.step(AppEvent::NewWindow);
    assert forall|i: int| 0 <= i < ids.len() implies !after.has(#[trigger] ids[i]) by {
        assert(!m.has(ids[i]));
    }
    lemma_register_all_appends(after, ids, m.pending_windows);
}

/// A window whose override is to hide is hidden when asked to close, and nothing
/// else changes, whatever the default policy is.
pub proof fn lemma_hide_override_ignores_default(
    m: AppModel,
    id: u64,
    default: DefaultWindowCloseBehaviour,
)
    requires
        m.wf(),
        m.has(id),
        m.entry(id).close_behaviour == Some(WindowCloseBehaviour::WindowHides),
    ensures
        m.close_requested_spec(id) == (m, m.hide_effects(id)),
        (AppModel { default_window_close_behavior: default, ..m }).close_requested_spec(id) == (
            AppModel { default_window_close_behavior: default, ..m },
            m.hide_effects(id),
        ),
{
}

/// Under the last-window-exits policy, closing the only window removes it and ends
/// the application; a later close request for a window that is not registered
/// changes nothing and ends with `Wait`, so exit is asked for once.
pub proof fn lemma_last_window_exits_once(m: AppModel, id: u64, other: u64)
    requires
        m.wf(),
        m.default_window_close_behavior == DefaultWindowCloseBehaviour::LastWindowExitsApp,
        m.webviews.len() == 1,
        m.webviews[0].id == id,
        m.webviews[0].close_behaviour is None,
    ensures
        ({
            let (after, effects) = m.step(AppEvent::CloseRequested(id));
            &&& after.control_flow == AppControlFlow::Exit
            &&& after.webviews.len() == 0
            &&& effects.last() == Effect::Exit
            &&& after.step(AppEvent::CloseRequested(other)) == (after.waiting(), seq![Effect::Wait])
            &&& after.waiting().webviews.len() == 0
        }),
        !m.has(other) ==> m.close_requested_spec(other) == (m, Seq::<Effect>::empty()),
{
    assert(m.has(id));
    crate::app::lemma_position_of_unique(m.webviews, 0);
    let (after, effects) = m.step(AppEvent::CloseRequested(id));
    assert(!after.waiting().has(other));
    assert(Seq::<Effect>::empty().push(Effect::Wait) =~= seq![Effect::Wait]);
}

/// The initialize message builds, flushes and reveals a window once: a second one
/// for the same window does nothing.
pub proof fn lemma_initialize_once(m: AppModel, id: u64, first: IpcMessage, second: IpcMessage)
    requires
        m.wf(),
        m.has(id),
        !m.entry(id).initialized,
        first.method@ == "initialize"@,
        second.method@ == "initialize"@,
    ensures
        ({
            let (m1, e1) = m.ipc_spec(id, first);
            let (m2, e2) = m1.ipc_spec(id, second);
            &&& e1 == seq![
                Effect::RebuildAndFlush(id),
                Effect::SetVisible { id, visible: m.is_visible_before_start },
                Effect::SendPoll(id),
            ]
            &&& e2 == Seq::<Effect>::empty()
            &&& m2 == m1
            &&& m1.webviews.len() == m.webviews.len()
        }),
{
    let (m1, e1) = m.ipc_spec(id, first);
    let i = crate::app::position_of(m.webviews, id);
    assert(m1.webviews[i].id == id);
    assert(m1.has(id));
    crate::app::lemma_position_of_unique(m1.webviews, i);
    assert(m1.entry(id).initialized);
}

/// A message whose method is not known changes nothing and asks for nothing: the
/// controller waits for the next event.
pub proof fn lemma_unknown_method_ignored(m: AppModel, id: u64, msg: IpcMessage)
    requires
        method_spec(msg.method) is Other,
    ensures
        m.step(AppEvent::Ipc { id, msg }) == (m.waiting(), seq![Effect::Wait]),
{
    assert(m.waiting().ipc_spec(id, msg) == (m.waiting(), Seq::<Effect>::empty()));
    assert(seq![Effect::Wait] =~= Seq::<Effect>::empty().push(Effect::Wait));
}

/// A close-window message removes the window and destroys it on screen; it ends
/// the application only under the last-window-exits policy, and only when no window
/// is left. Under any other policy the control flow is unchanged.
pub proof fn lemma_close_message_exits_only_when_policy_says(m: AppModel, id: u64)
    requires
        m.wf(),
        m.has(id),
    ensures
        ({
            let (after, effects) = m.close_msg_spec(id);
            &&& effects == seq![Effect::DestroyWindow(id)]
            &&& !after.has(id)
            &&& after.webviews.len() == m.webviews.len() - 1
            &&& after.control_flow == (if m.default_window_close_behavior
                == DefaultWindowCloseBehaviour::LastWindowExitsApp && m.webviews.len() == 1 {
                AppControlFlow::Exit
            } else {
                m.control_flow
            })
        }),
{
    let i = crate::app::position_of(m.webviews, id);
    crate::app::lemma_position_of_unique(m.webviews, i);
    crate::app::lemma_remove_unique_drops_id(m.webviews, i);
}

/// A resize of a registered window sets that window's webview bounds once, to the
/// new size; a resize of an unknown window sets none. Nothing else changes.
pub proof fn lemma_resize_forwarded(m: AppModel, id: u64, size: crate::window::PhysicalSize)
    ensures
        m.step(AppEvent::Resized(id, size)) == (
            m.waiting(),
            if m.has(id) {
                seq![Effect::SetBounds { id, size }, Effect::Wait]
            } else {
                seq![Effect::Wait]
            },
        ),
{
    if m.has(id) {
        assert(m.waiting().has(id));
        assert(seq![Effect::SetBounds { id, size }].push(Effect::Wait) =~= seq![
            Effect::SetBounds { id, size },
            Effect::Wait,
        ]);
    } else {
        assert(!m.waiting().has(id));
        assert(Seq::<Effect>::empty().push(Effect::Wait) =~= seq![Effect::Wait]);
    }
}

/// An exit decided by an earlier event does not carry over: a native window event
/// that the controller ignores ends with `Wait`, whatever the control flow was.
pub proof fn lemma_exit_does_not_carry_over(m: AppModel, id: u64)
    ensures
        m.step(AppEvent::OtherWindowEvent(id)) == (m.waiting(), seq![Effect::Wait]),
        m.waiting().control_flow == AppControlFlow::Wait,
{
    assert(Seq::<Effect>::empty().push(Effect::Wait) =~= seq![Effect::Wait]);
}

} // verus!
