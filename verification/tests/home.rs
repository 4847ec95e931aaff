use momo_ui::app_grid::AppGrid;
use momo_ui::app_state::{
    AppCommand, AppEntry, AppGridBenchmarkApp, AppOpResult, AppsState, LaunchError,
    benchmark_apps, launch_failed,
};
use momo_ui::app_tile::{
    AppInfo, TileResponse, launch_animation_request, launch_command, tile_border_hover_color,
    tile_response, tile_surface_focus_color, tile_surface_hover_color, tile_title_color,
};
use momo_ui::color::{Color, color, default_app_accent};
use momo_ui::dock::{
    Dock, layer_toggle_background, layer_toggle_label, next_toggled_layer, overview_accent_color,
    overview_glyph_color, overview_glyph_size,
};
use momo_ui::focus::{
    apps_grid_page_tag, dock_app_tag, launch_overlay_app_tag, overview_card_item_tag,
    page_dot_visual_tag,
    FocusKey, dock_app_focus_key, home_top_row_apps_focus_key, home_top_row_settings_focus_key,
    page_dot_focus_key,
};
use momo_ui::home::{
    ClockChipState, Home, PageDots, SettingsMenuState, SettingsMenuView, clock_chip_frame,
    clock_text, home_grid_and_dock, next_home_view, overview_exit_request,
};
use momo_ui::launch::{LaunchControllerOutput, LaunchControllerRequest, LaunchRestoreFocus};
use momo_ui::model::{AppIcon, BuiltInAppIcon, MockAppSpec, app_text, default_app_entries, mock_app_specs};
use momo_ui::shell::{HomeView, SurfaceLayer};
use momo_ui::system_status::{
    BatteryChargingState, BatterySystemState, FeatureState, UiBatteryState, UiVolumeState,
    VolumeSystemState, build_battery_state, build_volume_state,
};
use momo_ui::text::{joined, str_eq, with_decimal_suffix};

fn entry(id: &str) -> AppEntry {
    AppEntry {
        id: id.to_string(),
        name: format!("{id} name"),
        icon: Some(format!("/icons/{id}.svg")),
        accent: Color::from_rgb(1, 2, 3),
    }
}

#[test]
fn home_constructors() {
    assert!(Home::new().live_clock());
    assert!(!Home::for_testing().live_clock());
    assert!(Home::new().should_start_clock(false));
    assert!(!Home::new().should_start_clock(true));
    assert!(!Home::for_testing().should_start_clock(false));
    assert_eq!(PageDots, PageDots);
}

#[test]
fn home_view_requests() {
    assert_eq!(next_home_view(HomeView::Apps, &vec![]), HomeView::Apps);
    assert_eq!(
        next_home_view(HomeView::Apps, &vec![HomeView::Overview, HomeView::Apps]),
        HomeView::Overview
    );
    assert_eq!(HomeView::default(), HomeView::Apps);
    assert_eq!(overview_exit_request(true), Some(HomeView::Apps));
    assert_eq!(overview_exit_request(false), None);
}

#[test]
fn clock_text_trims_or_falls_back() {
    assert_eq!(clock_text(Some("12:34\n")), "12:34");
    assert_eq!(clock_text(Some("  \n")), "--:--");
    assert_eq!(clock_text(None), "--:--");
}

#[test]
fn clock_chip_toggles_the_settings_menu() {
    let closed = SettingsMenuState {
        is_open: false,
        just_opened: false,
        opened_from_trigger_press: false,
        is_animating: false,
        just_started_closing: false,
        active_view: SettingsMenuView::Other,
    };
    let opened = clock_chip_frame(ClockChipState { lost_focus_due_to_settings_menu_open: false }, closed, true);
    assert!(opened.menu.is_open && opened.menu.just_opened && opened.menu.is_animating);
    assert_eq!(opened.menu.active_view, SettingsMenuView::Main);
    assert!(opened.state.lost_focus_due_to_settings_menu_open);
    assert!(!opened.stop_bluetooth_discovery);

    let animating = SettingsMenuState { is_animating: true, ..closed };
    let ignored = clock_chip_frame(ClockChipState { lost_focus_due_to_settings_menu_open: false }, animating, true);
    assert_eq!(ignored.menu, animating);

    let on_bluetooth = SettingsMenuState {
        is_open: true,
        is_animating: true,
        active_view: SettingsMenuView::Bluetooth,
        ..closed
    };
    let closing = clock_chip_frame(ClockChipState { lost_focus_due_to_settings_menu_open: true }, on_bluetooth, true);
    assert!(!closing.menu.is_open);
    assert!(closing.stop_bluetooth_discovery);

    let started_closing = SettingsMenuState { just_started_closing: true, ..closed };
    let restored = clock_chip_frame(ClockChipState { lost_focus_due_to_settings_menu_open: true }, started_closing, false);
    assert!(restored.restore_focus);
    assert!(!restored.state.lost_focus_due_to_settings_menu_open);
}

#[test]
fn home_grid_and_dock_follow_the_launch() {
    let (grid, dock) = home_grid_and_dock(
        LaunchControllerOutput {
            launch_is_active: true,
            launched_app_id: Some("movies".to_string()),
            preferred_focus_app_id: None,
            preferred_dock_focus_key: Some(FocusKey::new("dock-music")),
        },
        true,
    );
    assert!(grid.interactions_disabled && dock.interactions_disabled);
    assert_eq!(grid.hidden_app_id.as_deref(), Some("movies"));
    assert_eq!(dock.hidden_app_id.as_deref(), Some("movies"));
    assert!(!grid.prefer_first_tile);
    assert_eq!(dock.preferred_focus_key.unwrap().name(), "dock-music");
    assert!(dock.overview_is_active);
}

#[test]
fn apps_state_and_launch_results() {
    let spawned = AppOpResult::LaunchSpawned("movies".to_string());
    let failed = AppOpResult::LaunchFailed(
        "music".to_string(),
        LaunchError { error: "no such file".to_string(), launch_command_entry: "music".to_string() },
    );
    assert!(spawned.is_for_app("movies"));
    assert!(!spawned.is_for_app("music"));
    assert!(failed.is_for_app("music"));
    assert!(launch_failed(&vec![spawned, failed], "music"));

    let mut state = AppsState::default();
    assert!(state.is_loading);
    state.set_app_entries(vec![entry("a")]);
    assert!(!state.is_loading);
    state.record_launch_result("a".to_string(), Ok(()));
    state.record_launch_result(
        "a".to_string(),
        Err(LaunchError { error: "e".to_string(), launch_command_entry: "c".to_string() }),
    );
    assert!(!launch_failed(&state.app_ops_results, "a"));
    let drained = state.drain_results();
    assert_eq!(drained.len(), 2);
    assert!(state.app_ops_results.is_empty());
    assert!(matches!(drained[1], AppOpResult::LaunchFailed(_, _)));
    match &drained[1] {
        AppOpResult::LaunchFailed(id, error) => {
            assert_eq!(id, "a");
            assert_eq!(error.error, "e");
            assert_eq!(error.launch_command_entry, "c");
        }
        AppOpResult::LaunchSpawned(_) => panic!("expected a failed launch"),
    }
}

#[test]
fn benchmark_apps_are_numbered() {
    let benchmark = AppGridBenchmarkApp::new(12);
    assert_eq!(benchmark.app_count(), 12);
    assert_eq!(AppGridBenchmarkApp::default().app_count(), 72);
    let state = benchmark.initial_apps_state();
    assert_eq!(state.app_entries.len(), 12);
    assert_eq!(state.app_entries[0].id, "benchmark-app-0");
    assert_eq!(state.app_entries[11].name, "benchmark-app-11");
    assert!(state.app_entries[3].icon.is_none());
    assert_eq!(state.app_entries[3].accent, Color::from_rgb(0, 125, 215));
    assert!(!state.is_loading);
    assert!(benchmark_apps(0).is_empty());
}

#[test]
fn tiles_info_and_launch_requests() {
    let info = AppInfo::new(&entry("movies"));
    assert_eq!(info.id(), "movies");
    assert_eq!(info.name, "movies name");
    assert_eq!(info.icon.as_deref(), Some("/icons/movies.svg"));
    assert_eq!(info.accent, Color::from_rgb(1, 2, 3));
    assert!(matches!(launch_command(&info), AppCommand::LaunchApp(id) if id == "movies"));
    match launch_animation_request(&info, LaunchRestoreFocus::AppGrid, 7u8) {
        LaunchControllerRequest::BeginLaunchAnimation(request) => {
            assert_eq!(request.app_id, "movies");
            assert_eq!(request.geometry, 7);
        }
        LaunchControllerRequest::ReverseLaunchAnimation => panic!("expected a begin request"),
    }
    assert_eq!(tile_response(true, true, true), TileResponse::Hidden);
    assert_eq!(tile_response(false, true, true), TileResponse::Launch);
    assert_eq!(tile_response(false, true, false), TileResponse::Show);
    assert_eq!(tile_surface_hover_color(), Color::from_rgb(18, 23, 32));
    assert_eq!(tile_surface_focus_color(), Color::from_rgb(20, 25, 35));
    assert_eq!(tile_border_hover_color(), Color::from_rgb(98, 112, 140));
    assert_eq!(tile_title_color(), Color::from_rgb(240, 245, 255));
}

#[test]
fn dock_shows_the_first_three_apps() {
    let apps = vec![entry("a"), entry("b"), entry("c"), entry("d")];
    let dock = Dock {
        interactions_disabled: false,
        hidden_app_id: Some("b".to_string()),
        preferred_focus_key: Some(FocusKey::new("dock-c")),
        overview_is_active: false,
    };
    let icons = dock.icons(&apps);
    assert_eq!(icons.len(), 3);
    assert_eq!(icons[0].focus_key.name(), "dock-a");
    assert!(icons[1].is_hidden_for_launch);
    assert!(icons[2].preferred_focus);
    assert!(!icons[0].preferred_focus && !icons[0].is_hidden_for_launch);
    assert_eq!(dock.icons(&vec![entry("x")]).len(), 1);
}

#[test]
fn dock_buttons_and_layer_toggle() {
    assert_eq!(overview_glyph_size(), 40);
    assert_eq!(overview_glyph_color(true), Color::from_rgb(246, 249, 252));
    assert_eq!(overview_glyph_color(false), Color::from_rgb(210, 220, 230));
    assert_eq!(overview_accent_color(true), Color::from_rgb(126, 176, 224));
    assert_eq!(overview_accent_color(false), Color::from_rgb(88, 112, 138));
    assert_eq!(next_toggled_layer(SurfaceLayer::Background), SurfaceLayer::Top);
    assert_eq!(next_toggled_layer(SurfaceLayer::Top), SurfaceLayer::Background);
    assert_eq!(next_toggled_layer(SurfaceLayer::Overlay), SurfaceLayer::Background);
    assert_eq!(layer_toggle_label(true), "TOP");
    assert_eq!(layer_toggle_label(false), "BG");
    assert_eq!(layer_toggle_background(true, true), Color::from_rgb(216, 126, 74));
    assert_eq!(layer_toggle_background(false, false), Color::from_rgb(52, 78, 112));
}

#[test]
fn focus_keys() {
    assert_eq!(home_top_row_apps_focus_key().name(), "momo_home_top_row_apps");
    assert_eq!(home_top_row_settings_focus_key().name(), "momo_home_top_row_settings");
    assert_eq!(dock_app_focus_key("movies").name(), "dock-movies");
    assert_eq!(page_dot_focus_key(0).name(), "apps-grid-page-dot-0");
    assert_eq!(page_dot_focus_key(1203).name(), "apps-grid-page-dot-1203");
    assert!(FocusKey::new("a").same_as(&FocusKey::new("a")));
    assert!(!FocusKey::new("a").same_as(&FocusKey::new("b")));
    assert_eq!(FocusKey::from_string("x".to_string()).duplicate().name(), "x");
}

#[test]
fn text_helpers() {
    assert!(str_eq("héllo", "héllo"));
    assert!(!str_eq("hello", "hell"));
    assert!(!str_eq("abc", "abd"));
    assert_eq!(joined("dock-", "x"), "dock-x");
    assert_eq!(with_decimal_suffix("n", usize::MAX), format!("n{}", usize::MAX));
    assert_eq!(with_decimal_suffix("", 10), "10");
}

#[test]
fn colours() {
    assert_eq!(color([9, 8, 7]), Color::from_rgb(9, 8, 7));
    assert_eq!(Color::from_rgb(9, 8, 7).a, 255);
    assert_eq!(default_app_accent(), Color::from_rgb(0, 125, 215));
    assert_eq!(Color::transparent().a, 0);
}

#[test]
fn mock_catalogue() {
    let specs = mock_app_specs();
    assert_eq!(specs.len(), 28);
    assert_eq!(specs[0].id, "live-tv");
    assert_eq!(specs[27].name, "Security");
    assert_eq!(specs[1].accent, [255, 110, 64]);
    let entries = default_app_entries();
    assert_eq!(entries.len(), 28);
    assert_eq!(entries[5].id.as_str(), "settings");
    assert!(matches!(entries[5].icon, AppIcon::BuiltIn(BuiltInAppIcon::Settings)));
    let spec = MockAppSpec { id: "x", name: "X", icon: BuiltInAppIcon::Radio, accent: [1, 2, 3] };
    assert_eq!(spec.to_entry().name.as_str(), "X");
    assert_eq!(app_text("hi").as_str(), "hi");
}

#[test]
fn system_status() {
    assert_eq!(UiVolumeState::default().output_percentage, 40);
    assert_eq!(build_volume_state(&FeatureState::Ready(VolumeSystemState { output_percentage: 73 })).output_percentage, 73);
    assert_eq!(build_volume_state(&FeatureState::Loading).output_percentage, 40);
    let battery = build_battery_state(&FeatureState::Ready(BatterySystemState {
        percentage: 55,
        charging_state: BatteryChargingState::Charging,
    }));
    assert_eq!(battery.percentage, Some(55));
    assert_eq!(battery.charging_state, Some(BatteryChargingState::Charging));
    assert_eq!(build_battery_state(&FeatureState::Unsupported("x".to_string())), UiBatteryState::default());
}

#[test]
fn grid_struct_can_be_built() {
    let grid = AppGrid {
        interactions_disabled: false,
        hidden_app_id: None,
        preferred_focus_app_id: None,
        prefer_first_tile: true,
    };
    assert!(grid.prefer_first_tile);
}

#[test]
fn element_tags_name_pages_cards_and_overlays() {
    assert_eq!(apps_grid_page_tag(2), "apps-grid-page-2");
    assert_eq!(page_dot_visual_tag(0), "apps-grid-page-dot-visual-0");
    assert_eq!(overview_card_item_tag(11), "overview-card-item-11");
    assert_eq!(launch_overlay_app_tag("movies"), "launch-overlay-app-movies");
    assert_eq!(dock_app_tag("music"), "dock-app-music");
}
