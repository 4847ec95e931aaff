//! Laws of the home screen's tiles and clock chip.
use vstd::prelude::*;
use crate::app_tile::{TileResponse, tile_response_of};
use crate::home::{ClockChipState, SettingsMenuState, SettingsMenuView, clock_chip_frame_of};

verus! {

/// A tile launches its app only in the frame in which it was activated, only
/// when its place on screen is known, and never while it is hidden for a
/// launch; an activated, visible, laid-out tile always launches.
pub proof fn law_only_an_activated_tile_launches(
    is_hidden_for_launch: bool,
    just_activated: bool,
    has_layout: bool,
)
    ensures
        tile_response_of(is_hidden_for_launch, just_activated, has_layout) == TileResponse::Launch
            <==> (just_activated && has_layout && !is_hidden_for_launch),
        is_hidden_for_launch ==> tile_response_of(is_hidden_for_launch, just_activated, has_layout)
            == TileResponse::Hidden,
        !is_hidden_for_launch ==> tile_response_of(is_hidden_for_launch, just_activated, has_layout)
            != TileResponse::Hidden,
{
}

/// The clock chip takes focus back only from a menu that took it: only when
/// it lost focus to the settings menu and that menu starts closing; and then
/// it always does.
pub proof fn law_clock_chip_restores_only_the_focus_it_lost(
    state: ClockChipState,
    menu: SettingsMenuState,
    just_activated: bool,
)
    ensures
        clock_chip_frame_of(state, menu, just_activated).restore_focus
            ==> state.lost_focus_due_to_settings_menu_open,
        clock_chip_frame_of(state, menu, just_activated).restore_focus ==> menu.just_started_closing,
        state.lost_focus_due_to_settings_menu_open && menu.just_started_closing
            ==> clock_chip_frame_of(state, menu, just_activated).restore_focus,
{
}

/// Focus goes back once per opening: after the chip took focus back, without
/// being activated again, it does not take it back in the next frame.
pub proof fn law_clock_chip_restores_focus_once(
    state: ClockChipState,
    menu: SettingsMenuState,
    next_menu: SettingsMenuState,
    next_activated: bool,
)
    requires
        clock_chip_frame_of(state, menu, false).restore_focus,
    ensures
        !clock_chip_frame_of(clock_chip_frame_of(state, menu, false).state, next_menu, next_activated)
            .restore_focus,
{
}

/// Activating the clock chip opens a closed menu (unless it is still
/// animating) and closes an open one, always on the main page; closing the
/// menu from its Bluetooth page stops the device search; the chip then
/// counts as having lost focus to the menu. Without activation the menu is
/// left alone and no search is stopped.
pub proof fn law_clock_chip_toggles_the_menu(
    state: ClockChipState,
    menu: SettingsMenuState,
    just_activated: bool,
)
    ensures
        ({
            let frame = clock_chip_frame_of(state, menu, just_activated);
            &&& !just_activated ==> frame.menu == menu && !frame.stop_bluetooth_discovery
            &&& just_activated ==> frame.state.lost_focus_due_to_settings_menu_open
            &&& just_activated && menu.is_open ==> !frame.menu.is_open && frame.menu.is_animating
                && frame.menu.active_view == SettingsMenuView::Main
            &&& just_activated && !menu.is_open && !menu.is_animating ==> frame.menu.is_open
                && frame.menu.just_opened && frame.menu.is_animating && frame.menu.active_view
                == SettingsMenuView::Main
            &&& just_activated && !menu.is_open && menu.is_animating ==> frame.menu == menu
            &&& frame.stop_bluetooth_discovery <==> (just_activated && menu.is_open
                && menu.active_view == SettingsMenuView::Bluetooth)
        }),
{
}

} // verus!
