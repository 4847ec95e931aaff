use momo_ui::overview::WindowSwitchRequest;
use momo_ui::shell::{
    FocusEvent, HomeView, Key, KeyEvent, KeyState, KeyboardInteractivity, ShellEffect,
    ShellFrameInput, ShortcutAction, SurfaceLayer, SurfaceLayerControllerState,
    VisibilityTransition, WindowEventKind, alt_release_event, focus_was_lost, keyboard_summary,
    latest_focus_event, shortcut_action, shortcut_counts, surface_layer_frame,
    window_switch_navigation_request,
};

fn quiet(current_home_view: HomeView, launch_is_active: bool) -> ShellFrameInput {
    ShellFrameInput {
        current_home_view,
        launch_is_active,
        toggle_count: 0,
        window_switch_count: 0,
        alt_was_released: false,
        previous_arrow_count: 0,
        next_arrow_count: 0,
        latest_focus_event: None,
        hide_shell_requested: false,
    }
}

#[test]
fn shell_focus_gain_moves_the_shell_to_the_top_layer() {
    let frame = surface_layer_frame(
        SurfaceLayerControllerState::default(),
        SurfaceLayer::Background,
        ShellFrameInput { latest_focus_event: Some(FocusEvent::Gained), ..quiet(HomeView::Apps, false) },
    );
    assert_eq!(frame.effects, vec![ShellEffect::SetSurfaceLayer(SurfaceLayer::Top)]);
    assert_eq!(frame.current_layer, SurfaceLayer::Top);
}

#[test]
fn shell_stays_during_launch_until_focus_is_lost() {
    let launching = surface_layer_frame(
        SurfaceLayerControllerState::default(),
        SurfaceLayer::Top,
        quiet(HomeView::Apps, true),
    );
    assert!(launching.effects.is_empty());
    assert_eq!(launching.current_layer, SurfaceLayer::Top);

    let lost = surface_layer_frame(
        launching.state,
        launching.current_layer,
        ShellFrameInput { latest_focus_event: Some(FocusEvent::Lost), ..quiet(HomeView::Apps, true) },
    );
    assert_eq!(
        lost.effects,
        vec![ShellEffect::FocusLost, ShellEffect::SetSurfaceLayer(SurfaceLayer::Background)]
    );
    assert_eq!(lost.current_layer, SurfaceLayer::Background);

    let idle_loss = surface_layer_frame(
        SurfaceLayerControllerState::default(),
        SurfaceLayer::Top,
        ShellFrameInput { latest_focus_event: Some(FocusEvent::Lost), ..quiet(HomeView::Apps, false) },
    );
    assert!(idle_loss.effects.is_empty());
}

#[test]
fn showing_shell_hands_keyboard_back_once_focus_arrives() {
    let state = SurfaceLayerControllerState {
        visibility_transition: VisibilityTransition::Showing,
        overview_visit: None,
        window_switch_is_active: false,
    };
    let frame = surface_layer_frame(
        state,
        SurfaceLayer::Top,
        ShellFrameInput { latest_focus_event: Some(FocusEvent::Gained), ..quiet(HomeView::Apps, false) },
    );
    assert_eq!(
        frame.effects,
        vec![
            ShellEffect::SetSurfaceLayer(SurfaceLayer::Top),
            ShellEffect::SetKeyboardInteractivity(KeyboardInteractivity::OnDemand),
        ]
    );
    assert_eq!(frame.state.visibility_transition, VisibilityTransition::Stable);
}

#[test]
fn overview_toggle_twice_restores_the_shell() {
    let first = surface_layer_frame(
        SurfaceLayerControllerState::default(),
        SurfaceLayer::Background,
        ShellFrameInput { toggle_count: 1, ..quiet(HomeView::Apps, false) },
    );
    assert_eq!(
        first.effects,
        vec![
            ShellEffect::RequestHomeView(HomeView::Overview),
            ShellEffect::SetSurfaceLayer(SurfaceLayer::Top),
            ShellEffect::SetKeyboardInteractivity(KeyboardInteractivity::Exclusive),
        ]
    );
    assert!(first.state.overview_visit.is_some());
    let second = surface_layer_frame(
        first.state,
        first.current_layer,
        ShellFrameInput { toggle_count: 3, ..quiet(HomeView::Overview, false) },
    );
    assert_eq!(
        second.effects,
        vec![
            ShellEffect::RequestHomeView(HomeView::Apps),
            ShellEffect::SetKeyboardInteractivity(KeyboardInteractivity::Disabled),
            ShellEffect::SetSurfaceLayer(SurfaceLayer::Background),
        ]
    );
    assert_eq!(second.current_layer, SurfaceLayer::Background);
    assert!(second.state.overview_visit.is_none());
}

#[test]
fn overview_toggle_on_visible_overview_hides_the_shell() {
    let frame = surface_layer_frame(
        SurfaceLayerControllerState::default(),
        SurfaceLayer::Top,
        ShellFrameInput { toggle_count: 1, ..quiet(HomeView::Overview, false) },
    );
    assert_eq!(frame.current_layer, SurfaceLayer::Background);
    assert_eq!(frame.state.visibility_transition, VisibilityTransition::Hiding);
    let even = surface_layer_frame(
        SurfaceLayerControllerState::default(),
        SurfaceLayer::Top,
        ShellFrameInput { toggle_count: 2, ..quiet(HomeView::Overview, false) },
    );
    assert!(even.effects.is_empty());
}

#[test]
fn overview_toggle_during_launch_reverses_it() {
    let frame = surface_layer_frame(
        SurfaceLayerControllerState::default(),
        SurfaceLayer::Background,
        ShellFrameInput { toggle_count: 1, ..quiet(HomeView::Apps, true) },
    );
    assert_eq!(
        frame.effects,
        vec![
            ShellEffect::ReverseLaunchAnimation,
            ShellEffect::RequestHomeView(HomeView::Overview),
            ShellEffect::SetSurfaceLayer(SurfaceLayer::Top),
            ShellEffect::SetKeyboardInteractivity(KeyboardInteractivity::Exclusive),
        ]
    );
    let visit = frame.state.overview_visit.unwrap();
    assert_eq!(visit.previous_home_view, HomeView::Apps);
    assert_eq!(visit.previous_surface_layer, SurfaceLayer::Background);
}

#[test]
fn window_switch_session_begins_cycles_and_commits() {
    let started = surface_layer_frame(
        SurfaceLayerControllerState::default(),
        SurfaceLayer::Background,
        ShellFrameInput { window_switch_count: 3, ..quiet(HomeView::Apps, false) },
    );
    assert_eq!(
        started.effects,
        vec![
            ShellEffect::RequestHomeView(HomeView::Overview),
            ShellEffect::SetSurfaceLayer(SurfaceLayer::Top),
            ShellEffect::SetKeyboardInteractivity(KeyboardInteractivity::Exclusive),
            ShellEffect::WindowSwitch(WindowSwitchRequest::Begin),
            ShellEffect::WindowSwitch(WindowSwitchRequest::CycleNext),
            ShellEffect::WindowSwitch(WindowSwitchRequest::CycleNext),
        ]
    );
    assert!(started.state.window_switch_is_active);

    let arrows = surface_layer_frame(
        started.state,
        started.current_layer,
        ShellFrameInput {
            previous_arrow_count: 1,
            next_arrow_count: 2,
            alt_was_released: true,
            ..quiet(HomeView::Overview, false)
        },
    );
    assert_eq!(
        arrows.effects,
        vec![
            ShellEffect::WindowSwitch(WindowSwitchRequest::CyclePrevious),
            ShellEffect::WindowSwitch(WindowSwitchRequest::CycleNext),
            ShellEffect::WindowSwitch(WindowSwitchRequest::CycleNext),
            ShellEffect::WindowSwitch(WindowSwitchRequest::Commit),
            ShellEffect::SetKeyboardInteractivity(KeyboardInteractivity::OnDemand),
        ]
    );
    assert!(!arrows.state.window_switch_is_active);
}

#[test]
fn hide_request_sends_the_shell_away_but_not_during_launch() {
    let hidden = surface_layer_frame(
        SurfaceLayerControllerState { window_switch_is_active: true, ..SurfaceLayerControllerState::default() },
        SurfaceLayer::Top,
        ShellFrameInput { hide_shell_requested: true, toggle_count: 1, window_switch_count: 1, ..quiet(HomeView::Overview, false) },
    );
    assert_eq!(
        hidden.effects,
        vec![
            ShellEffect::SetKeyboardInteractivity(KeyboardInteractivity::Disabled),
            ShellEffect::SetSurfaceLayer(SurfaceLayer::Background),
        ]
    );
    assert!(!hidden.state.window_switch_is_active);
    let launching = surface_layer_frame(
        SurfaceLayerControllerState::default(),
        SurfaceLayer::Top,
        ShellFrameInput { hide_shell_requested: true, ..quiet(HomeView::Overview, true) },
    );
    assert!(launching.effects.is_empty());
}

#[test]
fn keyboard_and_window_events_are_summarised() {
    let events = vec![
        KeyEvent { key: Key::ArrowLeft, state: KeyState::Pressed },
        KeyEvent { key: Key::ArrowRight, state: KeyState::Pressed },
        KeyEvent { key: Key::ArrowRight, state: KeyState::Released },
        KeyEvent { key: Key::ArrowRight, state: KeyState::Pressed },
        KeyEvent { key: Key::AltLeft, state: KeyState::Released },
    ];
    let summary = keyboard_summary(&events);
    assert!(summary.alt_was_released);
    assert_eq!(summary.previous_arrow_count, 1);
    assert_eq!(summary.next_arrow_count, 2);
    assert!(!keyboard_summary(&vec![KeyEvent { key: Key::Alt, state: KeyState::Pressed }]).alt_was_released);
    assert!(alt_release_event(KeyEvent { key: Key::AltGraph, state: KeyState::Released }));
    assert!(!alt_release_event(KeyEvent { key: Key::Other, state: KeyState::Released }));
    assert_eq!(
        window_switch_navigation_request(KeyEvent { key: Key::ArrowLeft, state: KeyState::Pressed }),
        Some(WindowSwitchRequest::CyclePrevious)
    );
    assert_eq!(
        window_switch_navigation_request(KeyEvent { key: Key::Other, state: KeyState::Pressed }),
        None
    );

    let window_events = vec![
        WindowEventKind::FocusLost,
        WindowEventKind::FocusGained,
        WindowEventKind::Other,
    ];
    assert_eq!(latest_focus_event(&window_events), Some(FocusEvent::Gained));
    assert_eq!(latest_focus_event(&vec![WindowEventKind::Other]), None);
    assert!(focus_was_lost(&window_events));
    assert!(!focus_was_lost(&vec![WindowEventKind::FocusGained]));
}

#[test]
fn shortcuts_are_classified_and_counted() {
    assert_eq!(
        shortcut_action("toggle-overview", "toggle-overview", "window-switch"),
        Some(ShortcutAction::ToggleOverview)
    );
    assert_eq!(
        shortcut_action("window-switch", "toggle-overview", "window-switch"),
        Some(ShortcutAction::WindowSwitch)
    );
    assert_eq!(shortcut_action("other", "toggle-overview", "window-switch"), None);
    let counts = shortcut_counts(&vec![
        ShortcutAction::ToggleOverview,
        ShortcutAction::WindowSwitch,
        ShortcutAction::ToggleOverview,
    ]);
    assert_eq!(counts, (2, 1));
}

#[test]
fn overview_toggle_round_trip_on_a_visible_layer_keeps_the_layer() {
    let first = surface_layer_frame(
        SurfaceLayerControllerState::default(),
        SurfaceLayer::Top,
        ShellFrameInput { toggle_count: 1, ..quiet(HomeView::Apps, false) },
    );
    assert_eq!(first.effects, vec![ShellEffect::RequestHomeView(HomeView::Overview)]);
    assert_eq!(first.current_layer, SurfaceLayer::Top);
    let second = surface_layer_frame(
        first.state,
        first.current_layer,
        ShellFrameInput { toggle_count: 1, ..quiet(HomeView::Overview, false) },
    );
    assert_eq!(second.effects, vec![ShellEffect::RequestHomeView(HomeView::Apps)]);
    assert_eq!(second.current_layer, SurfaceLayer::Top);
    assert!(second.state.overview_visit.is_none());
}
