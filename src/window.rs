use vstd::prelude::*;

use crate::policy::WindowCloseBehaviour;

verus! {

/// A position in physical pixels.
#[derive(Clone, Copy, Debug, PartialEq, Eq, Structural)]
pub struct PhysicalPosition {
    pub x: i32,
    pub y: i32,
}

/// A size in physical pixels.
#[derive(Clone, Copy, Debug, PartialEq, Eq, Structural)]
pub struct PhysicalSize {
    pub width: u32,
    pub height: u32,
}

/// A window size, in logical or physical pixels.
#[derive(Clone, Copy, Debug, PartialEq, Eq, Structural)]
pub enum WindowSize {
    Logical { width: u32, height: u32 },
    Physical { width: u32, height: u32 },
}

/// The icon a window shows.
#[derive(Clone, Copy, Debug, PartialEq, Eq, Structural)]
pub enum WindowIcon {
    /// The framework's own icon.
    Default,
    /// An icon that the application supplied with the window's configuration.
    Supplied,
}

/// An icon type that has a default value for windows, menus and tray icons.
pub trait DefaultIcon {
    /// The default icon of this type.
    spec fn default_spec() -> Self where Self: Sized;

    fn get_icon() -> (r: Self) where Self: Sized
        ensures
            r == Self::default_spec(),
    ;
}

impl DefaultIcon for WindowIcon {
    open spec fn default_spec() -> Self {
        WindowIcon::Default
    }

    fn get_icon() -> (r: Self) {
        WindowIcon::Default
    }
}

/// Provides the default icon of the app.
pub fn default_icon<T: DefaultIcon>() -> (r: T)
    ensures
        r == T::default_spec(),
{
    T::get_icon()
}

/// The width of a window created without a size on a desktop platform.
pub const DEFAULT_WINDOW_WIDTH: u32 = 800;

/// The height of a window created without a size on a desktop platform.
pub const DEFAULT_WINDOW_HEIGHT: u32 = 600;

/// The attributes that a new native window is created with.
#[derive(Clone, Copy, Debug, PartialEq, Eq, Structural)]
pub struct WindowAttributes {
    pub inner_size: Option<WindowSize>,
    pub position: Option<PhysicalPosition>,
    pub window_icon: Option<WindowIcon>,
    pub visible: bool,
}

/// The configuration of a window that has been asked for.
#[derive(Clone, Copy, Debug, PartialEq, Eq, Structural)]
pub struct WindowConfig {
    pub window_attributes: WindowAttributes,
    /// The close behaviour of this window, overriding the default policy.
    pub close_behaviour: Option<WindowCloseBehaviour>,
}

/// A window that has been asked for and not yet created. `token` identifies the
/// UI runtime instance and the completion notifier that the embedder keeps for it.
#[derive(Clone, Copy, Debug, PartialEq, Eq, Structural)]
pub struct PendingWindow {
    pub token: u64,
    pub config: WindowConfig,
}

/// The attributes a window is created with: a desktop window without a size gets
/// the default logical size, and a window without an icon gets the default icon.
pub open spec fn with_defaults_spec(a: WindowAttributes, mobile: bool) -> WindowAttributes {
    WindowAttributes {
        inner_size: if a.inner_size is None && !mobile {
            Some(WindowSize::Logical { width: DEFAULT_WINDOW_WIDTH, height: DEFAULT_WINDOW_HEIGHT })
        } else {
            a.inner_size
        },
        window_icon: if a.window_icon is None {
            Some(WindowIcon::Default)
        } else {
            a.window_icon
        },
        ..a
    }
}

/// Fills in what a window needs before it is created. On mobile platforms a window
/// without a size is left to fill the screen.
pub fn with_defaults(a: WindowAttributes, mobile: bool) -> (r: WindowAttributes)
    ensures
        r == with_defaults_spec(a, mobile),
{
    let mut r = a;
    if r.inner_size.is_none() && !mobile {
        r.inner_size = Some(
            WindowSize::Logical { width: DEFAULT_WINDOW_WIDTH, height: DEFAULT_WINDOW_HEIGHT },
        );
    }
    if r.window_icon.is_none() {
        r.window_icon = Some(default_icon());
    }
    r
}

} // verus!
