use vstd::prelude::*;

use crate::json::{field_spec, i32_of, lemma_key_position_first, string_of, u32_of, JsonValue};
use crate::window::{PhysicalPosition, PhysicalSize};

verus! {

/// The smallest width or height that is written to, or restored from, the
/// window-state file.
pub const MIN_PRESERVED_EXTENT: u32 = 200;

/// How much taller than its content a decorated window reports itself on macOS.
pub const MACOS_TITLE_BAR_HEIGHT: u32 = 56;

/// Where and how large the main window was when the application last shut down.
#[derive(Debug)]
pub struct PreservedWindowState {
    pub x: i32,
    pub y: i32,
    pub width: u32,
    pub height: u32,
    pub monitor: String,
}

/// What to apply to a freshly created window on start, from a preserved state.
#[derive(Clone, Copy, Debug, PartialEq, Eq, Structural)]
pub struct RestorePlan {
    /// The physical outer position to move the window to, if any.
    pub outer_position: Option<PhysicalPosition>,
    /// The physical inner size to ask for, if any.
    pub inner_size: Option<PhysicalSize>,
}

pub open spec fn at_least_min(v: u32) -> u32 {
    if v < MIN_PRESERVED_EXTENT {
        MIN_PRESERVED_EXTENT
    } else {
        v
    }
}

pub open spec fn saturating_sub_spec(a: u32, b: u32) -> u32 {
    if a < b {
        0
    } else {
        (a - b) as u32
    }
}

/// The plan for a window whose size or position the caller may already have set.
pub open spec fn restore_plan_spec(
    s: PreservedWindowState,
    explicit_size: bool,
    explicit_position: bool,
) -> RestorePlan {
    RestorePlan {
        outer_position: if explicit_position {
            None
        } else {
            Some(PhysicalPosition { x: s.x, y: s.y })
        },
        inner_size: if explicit_size {
            None
        } else {
            Some(PhysicalSize { width: at_least_min(s.width), height: at_least_min(s.height) })
        },
    }
}

/// `v` is the JSON object that records `s`: its members are `x`, `y`, `width`,
/// `height` and `monitor`, in that order.
pub open spec fn encodes(v: JsonValue, s: PreservedWindowState) -> bool {
    match v {
        JsonValue::Object(m) => {
            &&& m@.len() == 5
            &&& m@[0].0@ == "x"@ && m@[0].1 == JsonValue::Int(s.x as i128)
            &&& m@[1].0@ == "y"@ && m@[1].1 == JsonValue::Int(s.y as i128)
            &&& m@[2].0@ == "width"@ && m@[2].1 == JsonValue::Int(s.width as i128)
            &&& m@[3].0@ == "height"@ && m@[3].1 == JsonValue::Int(s.height as i128)
            &&& m@[4].0@ == "monitor"@ && m@[4].1 == JsonValue::Str(s.monitor)
        },
        _ => false,
    }
}

/// The state that a JSON value records: an object with the five members, each of
/// the right kind and in range; other members are ignored.
pub open spec fn decode_spec(v: JsonValue) -> Option<PreservedWindowState> {
    let x = i32_of(field_spec(v, "x"@));
    let y = i32_of(field_spec(v, "y"@));
    let w = u32_of(field_spec(v, "width"@));
    let h = u32_of(field_spec(v, "height"@));
    let m = string_of(field_spec(v, "monitor"@));
    if x is Some && y is Some && w is Some && h is Some && m is Some {
        Some(PreservedWindowState { x: x->0, y: y->0, width: w->0, height: h->0, monitor: m->0 })
    } else {
        None
    }
}

impl PreservedWindowState {
    /// Records the geometry of a window: its outer position and size, with the
    /// macOS title bar taken off the height of a decorated window, and each extent
    /// raised to at least the minimum.
    pub fn capture(
        x: i32,
        y: i32,
        outer_width: u32,
        outer_height: u32,
        decorated: bool,
        on_macos: bool,
        monitor: String,
    ) -> (r: PreservedWindowState)
        ensures
            r.x == x,
            r.y == y,
            r.width == at_least_min(outer_width),
            r.height == at_least_min(
                saturating_sub_spec(
                    outer_height,
                    if decorated && on_macos {
                        MACOS_TITLE_BAR_HEIGHT
                    } else {
                        0
                    },
                ),
            ),
            r.monitor == monitor,
    {
        let adjustment: u32 = if decorated && on_macos {
            MACOS_TITLE_BAR_HEIGHT
        } else {
            0
        };
        let height: u32 = outer_height.saturating_sub(adjustment);
        PreservedWindowState {
            x,
            y,
            width: if outer_width < MIN_PRESERVED_EXTENT {
                MIN_PRESERVED_EXTENT
            } else {
                outer_width
            },
            height: if height < MIN_PRESERVED_EXTENT {
                MIN_PRESERVED_EXTENT
            } else {
                height
            },
            monitor,
        }
    }

    /// The JSON object that records this state.
    pub fn to_json(&self) -> (r: JsonValue)
        ensures
            encodes(r, *self),
    {
        let mut m: Vec<(String, JsonValue)> = Vec::new();
        m.push((String::from_str("x"), JsonValue::Int(self.x as i128)));
        m.push((String::from_str("y"), JsonValue::Int(self.y as i128)));
        m.push((String::from_str("width"), JsonValue::Int(self.width as i128)));
        m.push((String::from_str("height"), JsonValue::Int(self.height as i128)));
        m.push((String::from_str("monitor"), JsonValue::Str(self.monitor.clone())));
        JsonValue::Object(m)
    }

    /// Reads a state back from JSON; `None` when a member is missing, of the wrong
    /// kind or out of range.
    pub fn from_json(v: &JsonValue) -> (r: Option<PreservedWindowState>)
        ensures
            r == decode_spec(*v),
    {
        let x = match v.get("x") {
            Some(n) => n.as_i32(),
            None => None,
        };
        let y = match v.get("y") {
            Some(n) => n.as_i32(),
            None => None,
        };
        let width = match v.get("width") {
            Some(n) => n.as_u32(),
            None => None,
        };
        let height = match v.get("height") {
            Some(n) => n.as_u32(),
            None => None,
        };
        let monitor = match v.get("monitor") {
            Some(s) => match s.as_str() {
                Some(t) => Some(t.clone()),
                None => None,
            },
            None => None,
        };
        match (x, y, width, height, monitor) {
            (Some(x), Some(y), Some(width), Some(height), Some(monitor)) => Some(
                PreservedWindowState { x, y, width, height, monitor },
            ),
            _ => None,
        }
    }

    /// What to apply to a new window: the position unless one was set
    /// explicitly, and the size, raised to at least the minimum, unless one was
    /// set explicitly.
    pub fn restore_plan(&self, explicit_size: bool, explicit_position: bool) -> (r: RestorePlan)
        ensures
            r == restore_plan_spec(*self, explicit_size, explicit_position),
    {
        RestorePlan {
            outer_position: if explicit_position {
                None
            } else {
                Some(PhysicalPosition { x: self.x, y: self.y })
            },
            inner_size: if explicit_size {
                None
            } else {
                Some(
                    PhysicalSize {
                        width: if self.width < MIN_PRESERVED_EXTENT {
                            MIN_PRESERVED_EXTENT
                        } else {
                            self.width
                        },
                        height: if self.height < MIN_PRESERVED_EXTENT {
                            MIN_PRESERVED_EXTENT
                        } else {
                            self.height
                        },
                    },
                )
            },
        }
    }
}

/// Writing a state and reading it back gives the same state, and a window started
/// from it with neither size nor position given is placed at the recorded outer
/// position with the recorded size, each extent raised to at least the minimum.
pub proof fn lemma_window_state_round_trip(s: PreservedWindowState, v: JsonValue)
    requires
        encodes(v, s),
    ensures
        decode_spec(v) == Some(s),
        restore_plan_spec(s, false, false) == (RestorePlan {
            outer_position: Some(PhysicalPosition { x: s.x, y: s.y }),
            inner_size: Some(
                PhysicalSize { width: at_least_min(s.width), height: at_least_min(s.height) },
            ),
        }),
{
    reveal_strlit("x");
    reveal_strlit("y");
    reveal_strlit("width");
    reveal_strlit("height");
    reveal_strlit("monitor");
    let m = v->Object_0@;
    assert("x"@[0] != "y"@[0]);
    assert("x"@.len() == 1 && "y"@.len() == 1 && "width"@.len() == 5);
    assert("height"@.len() == 6 && "monitor"@.len() == 7);
    assert("width"@[0] != "height"@[0]);
    lemma_key_position_first(m, "x"@, 0);
    lemma_key_position_first(m, "y"@, 1);
    lemma_key_position_first(m, "width"@, 2);
    lemma_key_position_first(m, "height"@, 3);
    lemma_key_position_first(m, "monitor"@, 4);
}

} // verus!
