//! The mathematical model of the window registry.
//!
//! A registry is a `Map` from a window label (a character sequence) to a
//! `WindowModel`, the abstract state of one live window. Each façade
//! operation has a spec-level transition function here; the executable
//! façade's contracts tie its behaviour to these functions, and the laws
//! are proved about them.

use vstd::prelude::*;

verus! {

/// The abstract state of one live window.
pub ghost struct WindowModel {
    /// The window's title text.
    pub title: Seq<char>,
    /// The navigation target the window was created with.
    pub url: Seq<char>,
    /// Inner width in logical pixels.
    pub width: u32,
    /// Inner height in logical pixels.
    pub height: u32,
    /// Whether the window is shown.
    pub visible: bool,
    /// Whether the window has keyboard focus.
    pub focused: bool,
    /// Whether the window is minimized.
    pub minimized: bool,
    /// Whether the window is maximized.
    pub maximized: bool,
}

/// The abstract content of a window-creation request.
pub ghost struct OptionsModel {
    /// Unique key of the window to create or reveal.
    pub label: Seq<char>,
    /// Navigation target for a newly built window.
    pub url: Seq<char>,
    /// Requested title; `None` asks for the default.
    pub title: Option<Seq<char>>,
    /// Requested inner width; `None` asks for the default.
    pub width: Option<u32>,
    /// Requested inner height; `None` asks for the default.
    pub height: Option<u32>,
}

/// A registry: at most one live window per label.
pub type RegistryModel = Map<Seq<char>, WindowModel>;

/// Default inner width of a newly created window, in logical pixels.
pub const DEFAULT_WIDTH: u32 = 850;

/// Default inner height of a newly created window, in logical pixels.
pub const DEFAULT_HEIGHT: u32 = 530;

/// Default title of a newly created window.
pub open spec fn default_title() -> Seq<char> {
    "Ren Flow"@
}

/// The title a creation request resolves to.
pub open spec fn resolved_title(o: OptionsModel) -> Seq<char> {
    match o.title {
        Option::Some(t) => t,
        Option::None => default_title(),
    }
}

/// The inner width a creation request resolves to.
pub open spec fn resolved_width(o: OptionsModel) -> u32 {
    match o.width {
        Option::Some(w) => w,
        Option::None => DEFAULT_WIDTH,
    }
}

/// The inner height a creation request resolves to.
pub open spec fn resolved_height(o: OptionsModel) -> u32 {
    match o.height {
        Option::Some(h) => h,
        Option::None => DEFAULT_HEIGHT,
    }
}

/// The state of a window freshly built from a creation request:
/// shown and focused, neither minimized nor maximized.
pub open spec fn new_window(o: OptionsModel) -> WindowModel {
    WindowModel {
        title: resolved_title(o),
        url: o.url,
        width: resolved_width(o),
        height: resolved_height(o),
        visible: true,
        focused: true,
        minimized: false,
        maximized: false,
    }
}

/// The reveal sequence applied to an existing window in place of
/// reconstruction: unminimize, then focus, then show.
pub open spec fn revealed(w: WindowModel) -> WindowModel {
    WindowModel { minimized: false, focused: true, visible: true, ..w }
}

/// A window after it is shown and focused.
pub open spec fn shown(w: WindowModel) -> WindowModel {
    WindowModel { visible: true, focused: true, ..w }
}

/// A window after it is hidden.
pub open spec fn hidden(w: WindowModel) -> WindowModel {
    WindowModel { visible: false, ..w }
}

/// A window after it is minimized.
pub open spec fn minimized(w: WindowModel) -> WindowModel {
    WindowModel { minimized: true, ..w }
}

/// A window with its maximized flag set to `b`.
pub open spec fn with_maximized(w: WindowModel, b: bool) -> WindowModel {
    WindowModel { maximized: b, ..w }
}

/// Registry after a create-or-show request: a fresh label gains a newly
/// built window; an existing label keeps its window, revealed.
pub open spec fn create_or_show_next(m: RegistryModel, o: OptionsModel) -> RegistryModel {
    if m.contains_key(o.label) {
        m.insert(o.label, revealed(m[o.label]))
    } else {
        m.insert(o.label, new_window(o))
    }
}

/// Status string of a create-or-show request.
pub open spec fn create_or_show_status(m: RegistryModel, o: OptionsModel) -> Seq<char> {
    if m.contains_key(o.label) {
        "existing"@
    } else {
        "created"@
    }
}

/// Registry after a window under a present label is closed.
pub open spec fn close_next(m: RegistryModel, label: Seq<char>) -> RegistryModel {
    m.remove(label)
}

/// Registry after a window under a present label is shown.
pub open spec fn show_next(m: RegistryModel, label: Seq<char>) -> RegistryModel {
    m.insert(label, shown(m[label]))
}

/// Registry after a window under a present label is hidden.
pub open spec fn hide_next(m: RegistryModel, label: Seq<char>) -> RegistryModel {
    m.insert(label, hidden(m[label]))
}

/// Registry after a window under a present label is minimized.
pub open spec fn minimize_next(m: RegistryModel, label: Seq<char>) -> RegistryModel {
    m.insert(label, minimized(m[label]))
}

/// Registry after a window under a present label is maximized.
pub open spec fn maximize_next(m: RegistryModel, label: Seq<char>) -> RegistryModel {
    m.insert(label, with_maximized(m[label], true))
}

/// Registry after a window under a present label is unmaximized.
pub open spec fn unmaximize_next(m: RegistryModel, label: Seq<char>) -> RegistryModel {
    m.insert(label, with_maximized(m[label], false))
}

/// Registry after the maximized state of a window under a present label
/// is toggled.
pub open spec fn toggle_maximize_next(m: RegistryModel, label: Seq<char>) -> RegistryModel {
    m.insert(label, with_maximized(m[label], !m[label].maximized))
}

/// Status string of a toggle on a window under a present label: the name
/// of the state the window ends in.
pub open spec fn toggle_maximize_status(m: RegistryModel, label: Seq<char>) -> Seq<char> {
    if m[label].maximized {
        "unmaximized"@
    } else {
        "maximized"@
    }
}

/// The error text for a label with no live window.
pub open spec fn not_found_msg(label: Seq<char>) -> Seq<char> {
    "window not found: "@ + label
}

/// The error text for a drag request that names no window.
pub open spec fn label_required_msg() -> Seq<char> {
    "label is required"@
}

} // verus!
