//! The dock: the first apps as icons, and the overview button.
use vstd::prelude::*;
use crate::app_state::AppEntry;
use crate::app_tile::{AppInfo, shows_entry};
use crate::color::{Color, rgb};
use crate::focus::{FocusKey, dock_app_focus_key};
use crate::shell::SurfaceLayer;
use crate::text::str_eq;

verus! {

/// How many apps the dock shows.
pub const DOCKED_APP_COUNT: usize = 3;

/// An app icon in the dock.
pub struct DockIcon {
    pub app: AppInfo,
    pub focus_key: FocusKey,
    pub preferred_focus: bool,
    pub interactions_disabled: bool,
    pub is_hidden_for_launch: bool,
}

/// The dock.
pub struct Dock {
    /// No icon takes input (a launch is running).
    pub interactions_disabled: bool,
    /// The app whose icon is hidden while its launch overlay stands in for it.
    pub hidden_app_id: Option<String>,
    /// The key of the icon that takes focus first.
    pub preferred_focus_key: Option<FocusKey>,
    /// Whether the overview is shown.
    pub overview_is_active: bool,
}

/// `icon` is the dock icon of the app `entry` in `dock`.
pub open spec fn docks_entry(icon: DockIcon, entry: AppEntry, dock: Dock) -> bool {
    &&& shows_entry(icon.app, entry)
    &&& icon.focus_key@ == "dock-"@ + entry.id@
    &&& icon.preferred_focus == (dock.preferred_focus_key is Some
        && dock.preferred_focus_key->0@ == icon.focus_key@)
    &&& icon.interactions_disabled == dock.interactions_disabled
    &&& icon.is_hidden_for_launch == (dock.hidden_app_id is Some && dock.hidden_app_id->0@
        == entry.id@)
}

impl Dock {
    /// The icons of the first apps, in order.
    pub fn icons(&self, apps: &Vec<AppEntry>) -> (icons: Vec<DockIcon>)
        ensures
            icons@.len() == (if apps@.len() < DOCKED_APP_COUNT {
                apps@.len() as int
            } else {
                DOCKED_APP_COUNT as int
            }),
            forall|i: int| 0 <= i < icons@.len() ==> docks_entry(#[trigger] icons@[i], apps@[i], *self),
    {
        let count = if apps.len() < DOCKED_APP_COUNT {
            apps.len()
        } else {
            DOCKED_APP_COUNT
        };
        let mut icons: Vec<DockIcon> = Vec::new();
        let mut i: usize = 0;
        while i < count
            invariant
                0 <= i <= count <= apps@.len(),
                icons@.len() == i,
                forall|k: int| 0 <= k < i ==> docks_entry(#[trigger] icons@[k], apps@[k], *self),
            decreases count - i,
        {
            let app = &apps[i];
            let focus_key = dock_app_focus_key(app.id());
            let preferred_focus = match &self.preferred_focus_key {
                Some(preferred) => preferred.same_as(&focus_key),
                None => false,
            };
            let is_hidden_for_launch = match &self.hidden_app_id {
                Some(hidden) => str_eq(hidden.as_str(), app.id()),
                None => false,
            };
            let ghost before = icons@;
            icons.push(
                DockIcon {
                    app: AppInfo::new(app),
                    focus_key,
                    preferred_focus,
                    interactions_disabled: self.interactions_disabled,
                    is_hidden_for_launch,
                },
            );
            assert(forall|k: int| 0 <= k < i ==> icons@[k] == before[k]);
            i = i + 1;
        }
        icons
    }
}

/// The size of the overview button's glyph.
pub fn overview_glyph_size() -> (size: usize)
    ensures
        size == 40,
{
    40
}

/// The colour of the overview button's glyph.
pub fn overview_glyph_color(is_active: bool) -> (c: Color)
    ensures
        c == (if is_active {
            rgb(246, 249, 252)
        } else {
            rgb(210, 220, 230)
        }),
{
    if is_active {
        Color::from_rgb(246, 249, 252)
    } else {
        Color::from_rgb(210, 220, 230)
    }
}

/// The accent colour of the overview button.
pub fn overview_accent_color(is_active: bool) -> (c: Color)
    ensures
        c == (if is_active {
            rgb(126, 176, 224)
        } else {
            rgb(88, 112, 138)
        }),
{
    if is_active {
        Color::from_rgb(126, 176, 224)
    } else {
        Color::from_rgb(88, 112, 138)
    }
}

/// The layer that the layer toggle asks for after `current`: the top layer
/// from the background, the background from any other layer.
pub fn next_toggled_layer(current: SurfaceLayer) -> (next: SurfaceLayer)
    ensures
        next == (if current == SurfaceLayer::Background {
            SurfaceLayer::Top
        } else {
            SurfaceLayer::Background
        }),
{
    match current {
        SurfaceLayer::Background => SurfaceLayer::Top,
        SurfaceLayer::Top => SurfaceLayer::Background,
        SurfaceLayer::Bottom | SurfaceLayer::Overlay => SurfaceLayer::Background,
    }
}

/// The layer toggle's label.
pub fn layer_toggle_label(is_top: bool) -> (label: &'static str)
    ensures
        label@ == (if is_top {
            "TOP"@
        } else {
            "BG"@
        }),
{
    if is_top {
        "TOP"
    } else {
        "BG"
    }
}

/// The layer toggle's background colour.
pub fn layer_toggle_background(is_top: bool, is_highlighted: bool) -> (c: Color)
    ensures
        c == (if is_top {
            if is_highlighted {
                rgb(216, 126, 74)
            } else {
                rgb(186, 101, 54)
            }
        } else {
            if is_highlighted {
                rgb(76, 108, 150)
            } else {
                rgb(52, 78, 112)
            }
        }),
{
    match (is_top, is_highlighted) {
        (true, true) => Color::from_rgb(216, 126, 74),
        (true, false) => Color::from_rgb(186, 101, 54),
        (false, true) => Color::from_rgb(76, 108, 150),
        (false, false) => Color::from_rgb(52, 78, 112),
    }
}

} // verus!
