use vstd::prelude::*;

verus! {

/// What happens to one window when it is asked to close, if that window carries
/// its own override.
#[derive(Clone, Copy, Debug, PartialEq, Eq, Structural)]
pub enum WindowCloseBehaviour {
    /// Closing this window ends the whole application.
    WindowExitsApp,
    /// Closing this window only hides it; it stays registered.
    WindowHides,
    /// Closing this window removes it from the registry.
    WindowCloses,
}

/// The process-wide close policy, used for every window without an override.
#[derive(Clone, Copy, Debug, PartialEq, Eq, Structural)]
pub enum DefaultWindowCloseBehaviour {
    /// Remove the window; once no window is left, end the application.
    LastWindowExitsApp,
    /// Hide the last window, remove any other.
    LastWindowHides,
    /// Always hide the window.
    WindowsHides,
    /// Always remove the window and never end the application on that account.
    WindowsCloses,
}

/// What the controller does with a window that received a close request.
#[derive(Clone, Copy, Debug, PartialEq, Eq, Structural)]
pub enum CloseDecision {
    /// End the application; the window stays registered.
    ExitApp,
    /// Hide the native window; the window stays registered.
    Hide,
    /// Remove the window from the registry, and end the application when that
    /// leaves the registry empty and `exit_if_empty` is set. With `persist_state`
    /// the window geometry is recorded first.
    Remove { exit_if_empty: bool, persist_state: bool },
}

/// The decision for a close request on a registered window, given its override,
/// the default policy and the number of registered windows (the window included).
/// An override decides alone: the default is read only when there is none.
pub open spec fn close_decision_spec(
    over: Option<WindowCloseBehaviour>,
    default: DefaultWindowCloseBehaviour,
    registered: nat,
) -> CloseDecision {
    match over {
        Some(WindowCloseBehaviour::WindowExitsApp) => CloseDecision::ExitApp,
        Some(WindowCloseBehaviour::WindowHides) => CloseDecision::Hide,
        Some(WindowCloseBehaviour::WindowCloses) => CloseDecision::Remove {
            exit_if_empty: false,
            persist_state: true,
        },
        None => match default {
            DefaultWindowCloseBehaviour::LastWindowExitsApp => CloseDecision::Remove {
                exit_if_empty: true,
                persist_state: true,
            },
            DefaultWindowCloseBehaviour::LastWindowHides => if registered > 1 {
                CloseDecision::Remove { exit_if_empty: false, persist_state: false }
            } else {
                CloseDecision::Hide
            },
            DefaultWindowCloseBehaviour::WindowsHides => CloseDecision::Hide,
            DefaultWindowCloseBehaviour::WindowsCloses => CloseDecision::Remove {
                exit_if_empty: false,
                persist_state: false,
            },
        },
    }
}

/// Decides what a close request does to a registered window.
pub fn close_decision(
    over: Option<WindowCloseBehaviour>,
    default: DefaultWindowCloseBehaviour,
    registered: usize,
) -> (r: CloseDecision)
    ensures
        r == close_decision_spec(over, default, registered as nat),
{
    match over {
        Some(WindowCloseBehaviour::WindowExitsApp) => CloseDecision::ExitApp,
        Some(WindowCloseBehaviour::WindowHides) => CloseDecision::Hide,
        Some(WindowCloseBehaviour::WindowCloses) => CloseDecision::Remove {
            exit_if_empty: false,
            persist_state: true,
        },
        None => match default {
            DefaultWindowCloseBehaviour::LastWindowExitsApp => CloseDecision::Remove {
                exit_if_empty: true,
                persist_state: true,
            },
            DefaultWindowCloseBehaviour::LastWindowHides => {
                if registered > 1 {
                    CloseDecision::Remove { exit_if_empty: false, persist_state: false }
                } else {
                    CloseDecision::Hide
                }
            },
            DefaultWindowCloseBehaviour::WindowsHides => CloseDecision::Hide,
            DefaultWindowCloseBehaviour::WindowsCloses => CloseDecision::Remove {
                exit_if_empty: false,
                persist_state: false,
            },
        },
    }
}

/// A per-window override takes precedence over the default policy: whatever the
/// default, a window whose override is to hide is hidden, and with any override at
/// all the decision does not depend on the default.
pub proof fn lemma_override_takes_precedence(
    over: WindowCloseBehaviour,
    default_a: DefaultWindowCloseBehaviour,
    default_b: DefaultWindowCloseBehaviour,
    registered: nat,
)
    ensures
        close_decision_spec(Some(over), default_a, registered) == close_decision_spec(
            Some(over),
            default_b,
            registered,
        ),
        over == WindowCloseBehaviour::WindowHides ==> close_decision_spec(
            Some(over),
            default_a,
            registered,
        ) == CloseDecision::Hide,
{
}

} // verus!
