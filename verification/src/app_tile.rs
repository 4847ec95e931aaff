//! App tiles and dock icons: what they show and what activating them does.
use vstd::prelude::*;
use crate::app_state::{AppCommand, AppEntry};
use crate::color::{Color, rgb, transparent};
use crate::launch::{LaunchControllerRequest, LaunchRequest, LaunchRestoreFocus};

verus! {

/// What a tile shows of its app.
pub struct AppInfo {
    pub name: String,
    pub id: String,
    /// Path of the app's icon file, when it has one.
    pub icon: Option<String>,
    pub accent: Color,
}

/// `info` shows the app `entry`.
pub open spec fn shows_entry(info: AppInfo, entry: AppEntry) -> bool {
    &&& info.name@ == entry.name@
    &&& info.id@ == entry.id@
    &&& info.icon.is_some() == entry.icon.is_some()
    &&& (info.icon is Some ==> info.icon->0@ == entry.icon->0@)
    &&& info.accent == entry.accent
}

impl AppInfo {
    /// What a tile shows of the app `entry`.
    pub fn new(entry: &AppEntry) -> (info: Self)
        ensures
            shows_entry(info, *entry),
    {
        let icon = match &entry.icon {
            Some(path) => Some(path.clone()),
            None => None,
        };
        Self { name: entry.name.clone(), id: entry.id.clone(), icon, accent: entry.accent }
    }

    /// The app's identifier.
    pub fn id(&self) -> (id: &str)
        ensures
            id@ == self.id@,
    {
        self.id.as_str()
    }
}

/// The surface colour of a hovered tile.
pub fn tile_surface_hover_color() -> (c: Color)
    ensures
        c == rgb(18, 23, 32),
{
    Color::from_rgb(18, 23, 32)
}

/// The surface colour of a focused tile.
pub fn tile_surface_focus_color() -> (c: Color)
    ensures
        c == rgb(20, 25, 35),
{
    Color::from_rgb(20, 25, 35)
}

/// The border colour of a hovered tile.
pub fn tile_border_hover_color() -> (c: Color)
    ensures
        c == rgb(98, 112, 140),
{
    Color::from_rgb(98, 112, 140)
}

/// The colour of a tile's title.
pub fn tile_title_color() -> (c: Color)
    ensures
        c == rgb(240, 245, 255),
{
    Color::from_rgb(240, 245, 255)
}

/// The surface and border colours of an app button: a grid tile, or the
/// overview's apps button.
#[derive(Clone, Copy, PartialEq, Eq, Structural, Debug)]
pub struct AppButtonSurfaceColors {
    pub background: Color,
    pub border: Color,
}

/// The colours of an app button with the given accent: focus wins over
/// hover; a resting button is a dim surface without a border.
pub fn app_button_surface_colors(accent: Color, is_hovering: bool, is_focus_visible: bool) -> (colors:
    AppButtonSurfaceColors)
    ensures
        colors.background == (if is_focus_visible {
            rgb(20, 25, 35)
        } else if is_hovering {
            rgb(18, 23, 32)
        } else {
            Color { r: 0, g: 0, b: 0, a: 70 }
        }),
        colors.border == (if is_focus_visible {
            accent
        } else if is_hovering {
            rgb(98, 112, 140)
        } else {
            transparent()
        }),
{
    let background = if is_focus_visible {
        tile_surface_focus_color()
    } else if is_hovering {
        tile_surface_hover_color()
    } else {
        Color::from_rgba(0, 0, 0, 70)
    };
    let border = if is_focus_visible {
        accent
    } else if is_hovering {
        tile_border_hover_color()
    } else {
        Color::transparent()
    };
    AppButtonSurfaceColors { background, border }
}

/// The accent of the overview's apps button.
pub fn overview_apps_button_accent() -> (c: Color)
    ensures
        c == rgb(88, 112, 138),
{
    Color::from_rgb(88, 112, 138)
}

/// The colour of the overview apps button's icon.
pub fn overview_apps_button_icon_color() -> (c: Color)
    ensures
        c == rgb(210, 220, 230),
{
    Color::from_rgb(210, 220, 230)
}

/// What a tile or dock icon does in a frame.
#[derive(Clone, Copy, PartialEq, Eq, Structural, Debug)]
pub enum TileResponse {
    /// It stands empty while the launch overlay stands in for it.
    Hidden,
    /// It launches its app, and shows itself.
    Launch,
    /// It shows itself.
    Show,
}

/// A tile hidden for a launch only holds its place; otherwise an activated
/// tile whose position is known launches its app.
pub open spec fn tile_response_of(
    is_hidden_for_launch: bool,
    just_activated: bool,
    has_layout: bool,
) -> TileResponse {
    if is_hidden_for_launch {
        TileResponse::Hidden
    } else if just_activated && has_layout {
        TileResponse::Launch
    } else {
        TileResponse::Show
    }
}

/// What a tile or dock icon does in a frame.
pub fn tile_response(is_hidden_for_launch: bool, just_activated: bool, has_layout: bool) -> (response:
    TileResponse)
    ensures
        response == tile_response_of(is_hidden_for_launch, just_activated, has_layout),
{
    if is_hidden_for_launch {
        TileResponse::Hidden
    } else if just_activated && has_layout {
        TileResponse::Launch
    } else {
        TileResponse::Show
    }
}

/// The command that asks the launcher to start the app of a tile.
pub fn launch_command(app: &AppInfo) -> (command: AppCommand)
    ensures
        command matches AppCommand::LaunchApp(id) && id@ == app.id@,
{
    AppCommand::LaunchApp(app.id.clone())
}

/// The request that starts the launch transition from a tile whose on-screen
/// geometry is `geometry`; focus goes back to `restore_focus` if the launch
/// is undone.
pub fn launch_animation_request<G>(
    app: &AppInfo,
    restore_focus: LaunchRestoreFocus,
    geometry: G,
) -> (request: LaunchControllerRequest<G>)
    ensures
        request matches LaunchControllerRequest::BeginLaunchAnimation(r) && r.app_id@ == app.id@
            && r.restore_focus == restore_focus && r.geometry == geometry,
{
    LaunchControllerRequest::BeginLaunchAnimation(
        LaunchRequest { app_id: app.id.clone(), restore_focus, geometry },
    )
}

} // verus!
