//! The home screen: its root component, its view requests, the clock and
//! the settings menu trigger.
use vstd::prelude::*;
use crate::app_grid::AppGrid;
use crate::color::{Color, rgb, transparent};
use crate::dock::Dock;
use crate::launch::LaunchControllerOutput;
use crate::shell::HomeView;
use crate::text::{chars_of, string_from_chars, trim_chars, trimmed};
use vstd::string::StringExecFns;

verus! {

/// The home screen.
#[derive(Clone, Copy, PartialEq, Eq, Structural, Debug)]
pub struct Home {
    live_clock: bool,
}

impl Home {
    /// Whether the clock follows the system time.
    pub closed spec fn has_live_clock(self) -> bool {
        self.live_clock
    }

    /// The home screen, with a clock that follows the system time.
    pub fn new() -> (home: Self)
        ensures
            home.has_live_clock(),
    {
        Self { live_clock: true }
    }

    /// The home screen with a still clock, for tests.
    pub fn for_testing() -> (home: Self)
        ensures
            !home.has_live_clock(),
    {
        Self { live_clock: false }
    }

    /// Whether the clock follows the system time.
    pub fn live_clock(&self) -> (live: bool)
        ensures
            live == self.has_live_clock(),
    {
        self.live_clock
    }

    /// Whether the clock's updater is to be started: the clock is live and
    /// the updater has not been started yet.
    pub fn should_start_clock(&self, clock_started: bool) -> (start: bool)
        ensures
            start == (self.has_live_clock() && !clock_started),
    {
        self.live_clock && !clock_started
    }
}

/// The page indicator of the app grid.
#[derive(Clone, Copy, PartialEq, Eq, Structural, Debug)]
pub struct PageDots;

/// The view the home screen shows after a frame: the first view requested in
/// the frame, or the current one when none was requested.
pub fn next_home_view(current: HomeView, requests: &Vec<HomeView>) -> (view: HomeView)
    ensures
        view == (if requests@.len() > 0 {
            requests@[0]
        } else {
            current
        }),
{
    if requests.len() > 0 {
        requests[0]
    } else {
        current
    }
}

/// The request of the overview when Cancel or Back reaches it: back to the
/// apps view.
pub fn overview_exit_request(cancel_captured: bool) -> (request: Option<HomeView>)
    ensures
        request == (if cancel_captured {
            Some(HomeView::Apps)
        } else {
            None
        }),
{
    if cancel_captured {
        Some(HomeView::Apps)
    } else {
        None
    }
}

/// The clock's text from the output of the system's time command: the output
/// without surrounding white space, or `--:--` when there is no output or it
/// is blank.
pub fn clock_text(output: Option<&str>) -> (text: String)
    ensures
        text@ == match output {
            Some(raw) => if trimmed(raw@).len() > 0 {
                trimmed(raw@)
            } else {
                "--:--"@
            },
            None => "--:--"@,
        },
{
    match output {
        Some(raw) => {
            let chars = chars_of(raw);
            let time = trim_chars(&chars);
            if time.len() > 0 {
                string_from_chars(&time)
            } else {
                String::from_str("--:--")
            }
        },
        None => String::from_str("--:--"),
    }
}

/// How a header button is being used.
#[derive(Clone, Copy, PartialEq, Eq, Structural, Debug)]
pub struct HeaderButtonState {
    pub is_active: bool,
    pub is_pressed: bool,
    pub is_hovered: bool,
    pub is_focused: bool,
}

/// The surface and border colours of a header button.
#[derive(Clone, Copy, PartialEq, Eq, Structural, Debug)]
pub struct HeaderButtonColors {
    pub background: Color,
    pub border: Color,
}

/// The colours of a header button. A button that paints no surface stays
/// clear; a pressed one darkens; an active, hovered or focused one lifts
/// and gains a light border.
pub fn header_button_colors(state: HeaderButtonState, paint_surface: bool) -> (colors:
    HeaderButtonColors)
    ensures
        colors.background == (if !paint_surface {
            transparent()
        } else if state.is_pressed {
            rgb(204, 210, 216)
        } else if state.is_active || state.is_hovered || state.is_focused {
            rgb(236, 240, 243)
        } else {
            transparent()
        }),
        colors.border == (if paint_surface && (state.is_active || state.is_hovered
            || state.is_focused) {
            Color { r: 255, g: 255, b: 255, a: 172 }
        } else {
            transparent()
        }),
{
    let is_lifted = state.is_hovered || state.is_focused;
    let background = if !paint_surface {
        Color::transparent()
    } else if state.is_pressed {
        Color::from_rgb(204, 210, 216)
    } else if state.is_active || is_lifted {
        Color::from_rgb(236, 240, 243)
    } else {
        Color::transparent()
    };
    let border = if paint_surface && (state.is_active || is_lifted) {
        Color::from_rgba(255, 255, 255, 172)
    } else {
        Color::transparent()
    };
    HeaderButtonColors { background, border }
}

/// The colour of the clock's text: dark on a pressed, hovered or focused
/// chip, light otherwise.
pub fn clock_text_color(state: HeaderButtonState) -> (c: Color)
    ensures
        c == (if state.is_pressed || state.is_hovered || state.is_focused {
            rgb(10, 13, 18)
        } else {
            rgb(232, 238, 250)
        }),
{
    if state.is_pressed || state.is_hovered || state.is_focused {
        Color::from_rgb(10, 13, 18)
    } else {
        Color::from_rgb(232, 238, 250)
    }
}

/// The part of the settings menu that is shown.
#[derive(Clone, Copy, PartialEq, Eq, Structural, Debug)]
pub enum SettingsMenuView {
    Main,
    Bluetooth,
    Other,
}

/// The state of the settings menu, as its triggers see it.
#[derive(Clone, Copy, PartialEq, Eq, Structural, Debug)]
pub struct SettingsMenuState {
    pub is_open: bool,
    pub just_opened: bool,
    pub opened_from_trigger_press: bool,
    pub is_animating: bool,
    pub just_started_closing: bool,
    pub active_view: SettingsMenuView,
}

/// The clock chip's memory: whether it gave focus away to the settings menu.
#[derive(Clone, Copy, PartialEq, Eq, Structural, Debug)]
pub struct ClockChipState {
    pub lost_focus_due_to_settings_menu_open: bool,
}

/// What the clock chip decides in a frame.
#[derive(Clone, Copy, PartialEq, Eq, Structural, Debug)]
pub struct ClockChipFrame {
    pub state: ClockChipState,
    pub menu: SettingsMenuState,
    /// Take focus back, programmatically.
    pub restore_focus: bool,
    /// Stop looking for Bluetooth devices.
    pub stop_bluetooth_discovery: bool,
}

/// The clock chip opens and closes the settings menu. It takes focus back
/// when the menu it opened starts closing. Activating it toggles the menu,
/// unless the menu is still animating its opening; closing the menu from its
/// Bluetooth page stops the device search, and the menu always reopens on its
/// main page.
pub open spec fn clock_chip_frame_of(
    state: ClockChipState,
    menu: SettingsMenuState,
    just_activated: bool,
) -> ClockChipFrame {
    let restore_focus = menu.just_started_closing && state.lost_focus_due_to_settings_menu_open;
    let toggles = just_activated && (menu.is_open || !menu.is_animating);
    let next_is_open = !menu.is_open;
    ClockChipFrame {
        state: ClockChipState {
            lost_focus_due_to_settings_menu_open: if just_activated {
                true
            } else if restore_focus {
                false
            } else {
                state.lost_focus_due_to_settings_menu_open
            },
        },
        menu: if toggles {
            SettingsMenuState {
                is_open: next_is_open,
                just_opened: next_is_open,
                opened_from_trigger_press: next_is_open,
                is_animating: true,
                active_view: SettingsMenuView::Main,
                ..menu
            }
        } else {
            menu
        },
        restore_focus,
        stop_bluetooth_discovery: toggles && !next_is_open && menu.active_view
            == SettingsMenuView::Bluetooth,
    }
}

/// What the clock chip decides in a frame.
pub fn clock_chip_frame(state: ClockChipState, menu: SettingsMenuState, just_activated: bool) -> (frame:
    ClockChipFrame)
    ensures
        frame == clock_chip_frame_of(state, menu, just_activated),
{
    let mut state = state;
    let mut menu = menu;
    let restore_focus = menu.just_started_closing && state.lost_focus_due_to_settings_menu_open;
    if restore_focus {
        state.lost_focus_due_to_settings_menu_open = false;
    }
    let mut stop_bluetooth_discovery = false;
    if just_activated {
        state.lost_focus_due_to_settings_menu_open = true;
        if menu.is_open || !menu.is_animating {
            let next_is_open = !menu.is_open;
            if !next_is_open && menu.active_view == SettingsMenuView::Bluetooth {
                stop_bluetooth_discovery = true;
            }
            menu.is_open = next_is_open;
            menu.just_opened = next_is_open;
            menu.opened_from_trigger_press = next_is_open;
            menu.is_animating = true;
            menu.active_view = SettingsMenuView::Main;
        }
    }
    ClockChipFrame { state, menu, restore_focus, stop_bluetooth_discovery }
}

/// The app grid and the dock of the home screen during a frame: while a
/// launch runs neither takes input and the launched app's tile and icon are
/// hidden; after an undone launch, focus goes back to the app's tile or dock
/// icon, and without a dock icon to go back to, the grid prefers its first
/// tile.
pub fn home_grid_and_dock(launch: LaunchControllerOutput, overview_is_active: bool) -> (parts: (
    AppGrid,
    Dock,
))
    ensures
        parts.0.interactions_disabled == launch.launch_is_active,
        parts.0.hidden_app_id == launch.launched_app_id,
        parts.0.preferred_focus_app_id == launch.preferred_focus_app_id,
        parts.0.prefer_first_tile == (launch.preferred_dock_focus_key is None),
        parts.1.interactions_disabled == launch.launch_is_active,
        parts.1.hidden_app_id == launch.launched_app_id,
        parts.1.preferred_focus_key.is_some() == launch.preferred_dock_focus_key.is_some(),
        parts.1.preferred_focus_key is Some ==> parts.1.preferred_focus_key->0@
            == launch.preferred_dock_focus_key->0@,
        parts.1.overview_is_active == overview_is_active,
{
    let LaunchControllerOutput {
        launch_is_active,
        launched_app_id,
        preferred_focus_app_id,
        preferred_dock_focus_key,
    } = launch;
    let hidden_for_dock = match &launched_app_id {
        Some(id) => Some(id.clone()),
        None => None,
    };
    let prefer_first_tile = preferred_dock_focus_key.is_none();
    let grid = AppGrid {
        interactions_disabled: launch_is_active,
        hidden_app_id: launched_app_id,
        preferred_focus_app_id,
        prefer_first_tile,
    };
    let dock = Dock {
        interactions_disabled: launch_is_active,
        hidden_app_id: hidden_for_dock,
        preferred_focus_key: preferred_dock_focus_key,
        overview_is_active,
    };
    (grid, dock)
}

} // verus!
