//! The platform-conditional construction plan for a new window.
//!
//! Building a window applies a platform-dependent set of decorations on
//! top of the request's resolved title and size. `build_plan` is the pure
//! decision: it fixes every builder setting from the request and the
//! target platform, and a host adapter only has to carry the settings
//! onto the real window builder.

use vstd::prelude::*;
use vstd::string::StringExecFns;
use crate::model::DEFAULT_HEIGHT;
use crate::model::DEFAULT_WIDTH;
use crate::model::resolved_height;
use crate::model::resolved_title;
use crate::model::resolved_width;
use crate::registry::CreateWindowOptions;

verus! {

/// The platform family a window is built for.
pub enum Platform {
    /// The overlay-titlebar platform: macOS.
    MacOs,
    /// The borderless-by-default platform: Linux.
    Linux,
    /// The platform with the translucent mica backdrop: Windows.
    Windows,
}

/// Every setting a host window builder needs for one creation request.
pub struct WindowPlan {
    /// Unique key of the window.
    pub label: String,
    /// Navigation target of the window.
    pub url: String,
    /// Resolved title.
    pub title: String,
    /// Resolved inner width in logical pixels.
    pub width: u32,
    /// Resolved inner height in logical pixels.
    pub height: u32,
    /// Drag-and-drop handling is switched off on every platform.
    pub drag_drop_disabled: bool,
    /// Background transparency is on on every platform.
    pub transparent: bool,
    /// Whether the window keeps system decorations.
    pub decorations: bool,
    /// Whether the title bar is drawn as an overlay.
    pub overlay_title_bar: bool,
    /// Whether the title text is hidden.
    pub hidden_title: bool,
    /// Background color as red, green, blue and alpha, where the
    /// platform wants one set explicitly.
    pub background_color: Option<(u8, u8, u8, u8)>,
    /// Position of the traffic-light controls in logical pixels, where
    /// the platform has them.
    pub traffic_light_position: Option<(u32, u32)>,
    /// Whether the first mouse click is delivered to the window.
    pub accept_first_mouse: bool,
    /// Whether the menu-style visual effect is applied.
    pub menu_effect: bool,
    /// Whether a translucent mica backdrop is applied after the build.
    /// The application of the backdrop is best-effort: its failure must
    /// be discarded, never propagated to the creation request.
    pub apply_mica_after_build: bool,
}

/// Fix every builder setting from the creation request and the platform.
pub fn build_plan(platform: Platform, options: CreateWindowOptions) -> (p: WindowPlan)
    ensures
        p.label@ == options@.label,
        p.url@ == options@.url,
        p.title@ == resolved_title(options@),
        p.width == resolved_width(options@),
        p.height == resolved_height(options@),
        p.drag_drop_disabled,
        p.transparent,
        p.decorations == !(platform is Linux),
        p.overlay_title_bar == (platform is MacOs),
        p.hidden_title == (platform is MacOs),
        p.background_color == (if platform is MacOs {
            Option::Some((0u8, 0u8, 0u8, 1u8))
        } else {
            Option::<(u8, u8, u8, u8)>::None
        }),
        p.traffic_light_position == (if platform is MacOs {
            Option::Some((20u32, 30u32))
        } else {
            Option::<(u32, u32)>::None
        }),
        p.accept_first_mouse == (platform is MacOs),
        p.menu_effect == (platform is MacOs),
        p.apply_mica_after_build == (platform is Windows),
{
    let CreateWindowOptions { label, url, title, width, height } = options;
    let title = match title {
        Option::Some(t) => t,
        Option::None => String::from_str("Ren Flow"),
    };
    let width = match width {
        Option::Some(w) => w,
        Option::None => DEFAULT_WIDTH,
    };
    let height = match height {
        Option::Some(h) => h,
        Option::None => DEFAULT_HEIGHT,
    };
    match platform {
        Platform::MacOs => WindowPlan {
            label,
            url,
            title,
            width,
            height,
            drag_drop_disabled: true,
            transparent: true,
            decorations: true,
            overlay_title_bar: true,
            hidden_title: true,
            background_color: Option::Some((0u8, 0u8, 0u8, 1u8)),
            traffic_light_position: Option::Some((20u32, 30u32)),
            accept_first_mouse: true,
            menu_effect: true,
            apply_mica_after_build: false,
        },
        Platform::Linux => WindowPlan {
            label,
            url,
            title,
            width,
            height,
            drag_drop_disabled: true,
            transparent: true,
            decorations: false,
            overlay_title_bar: false,
            hidden_title: false,
            background_color: Option::None,
            traffic_light_position: Option::None,
            accept_first_mouse: false,
            menu_effect: false,
            apply_mica_after_build: false,
        },
        Platform::Windows => WindowPlan {
            label,
            url,
            title,
            width,
            height,
            drag_drop_disabled: true,
            transparent: true,
            decorations: true,
            overlay_title_bar: false,
            hidden_title: false,
            background_color: Option::None,
            traffic_light_position: Option::None,
            accept_first_mouse: false,
            menu_effect: false,
            apply_mica_after_build: true,
        },
    }
}

} // verus!
