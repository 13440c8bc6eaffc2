//! The controller of a desktop runtime for a reactive UI framework: it owns the
//! registry of windows, routes native and custom events to them, applies the
//! window close policy, decodes messages from the embedded web engine, and keeps
//! the window geometry between runs. What it decides comes out as a sequence of
//! effects that the embedder performs on the native windows and webviews.
use vstd::prelude::*;

pub mod app;
pub mod cli;
pub mod ipc;
pub mod json;
pub mod laws;
pub mod policy;
pub mod window;
pub mod window_state;

pub use app::{App, AppConfig, AppControlFlow, AppEvent, Effect, Platform};
pub use policy::{DefaultWindowCloseBehaviour, WindowCloseBehaviour};
pub use window::{default_icon, DefaultIcon};

verus! {

} // verus!
