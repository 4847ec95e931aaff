use momo_ui::app_state::{AppOpResult, LaunchError};
use momo_ui::focus::FocusKey;
use momo_ui::launch::{
    LaunchAnimationCommand, LaunchAnimationProgress, LaunchControllerRequest,
    LaunchControllerState, LaunchEffect, LaunchFrameInput, LaunchOverlayAnimationState,
    LaunchOverlayEvent, LaunchPhase, LaunchRequest, LaunchRestoreFocus, LaunchStateExtension,
    LaunchTransitionState, finish_launch_animation, launch_controller_frame,
    start_launch_animation,
};

fn request(app_id: &str, restore_focus: LaunchRestoreFocus) -> LaunchRequest<(i32, i32)> {
    LaunchRequest { app_id: app_id.to_string(), restore_focus, geometry: (10, 20) }
}

fn input(requests: Vec<LaunchControllerRequest<(i32, i32)>>) -> LaunchFrameInput<(i32, i32)> {
    LaunchFrameInput {
        requests,
        overlay_events: vec![],
        cancel_pressed: false,
        window_focus_lost: false,
        launch_results: vec![],
        is_focused: true,
        is_engaged: true,
    }
}

fn phase(state: &LaunchControllerState<(i32, i32)>) -> Option<LaunchPhase> {
    state.launch.as_ref().map(|launch| launch.phase)
}

fn expanded(app_id: &str) -> LaunchOverlayEvent {
    LaunchOverlayEvent::Expanded { app_id: app_id.to_string() }
}

fn contracted(app_id: &str) -> LaunchOverlayEvent {
    LaunchOverlayEvent::Contracted { app_id: app_id.to_string() }
}

fn started(app_id: &str, restore_focus: LaunchRestoreFocus) -> LaunchControllerState<(i32, i32)> {
    let frame = launch_controller_frame(
        LaunchControllerState::new(),
        input(vec![LaunchControllerRequest::BeginLaunchAnimation(request(app_id, restore_focus))]),
    );
    frame.state
}

#[test]
fn launch_request_starts_expanding_and_takes_focus() {
    let frame = launch_controller_frame(
        LaunchControllerState::new(),
        LaunchFrameInput {
            is_focused: false,
            is_engaged: false,
            ..input(vec![
                LaunchControllerRequest::BeginLaunchAnimation(request("music", LaunchRestoreFocus::AppGrid)),
                LaunchControllerRequest::BeginLaunchAnimation(request("movies", LaunchRestoreFocus::AppGrid)),
            ])
        },
    );
    assert_eq!(phase(&frame.state), Some(LaunchPhase::Expanding));
    assert_eq!(frame.state.launch.as_ref().unwrap().request.app_id, "movies");
    assert_eq!(frame.state.launch.as_ref().unwrap().request.geometry, (10, 20));
    assert_eq!(
        frame.effects,
        vec![
            LaunchEffect::CaptureNavigation(true),
            LaunchEffect::RequestFocus,
            LaunchEffect::Engage,
            LaunchEffect::RequestFocus,
            LaunchEffect::Engage,
        ]
    );
    let output = frame.state.output();
    assert!(output.launch_is_active);
    assert_eq!(output.launched_app_id.as_deref(), Some("movies"));
}

#[test]
fn launch_cancel_contracts_and_restores_tile_focus() {
    let state = started("movies", LaunchRestoreFocus::AppGrid);
    let expanded_frame = launch_controller_frame(
        state,
        LaunchFrameInput { overlay_events: vec![expanded("movies")], ..input(vec![]) },
    );
    assert_eq!(phase(&expanded_frame.state), Some(LaunchPhase::WaitingForSurface));

    let cancelled = launch_controller_frame(
        expanded_frame.state,
        LaunchFrameInput { cancel_pressed: true, ..input(vec![]) },
    );
    assert_eq!(phase(&cancelled.state), Some(LaunchPhase::Contracting));

    let other_app = launch_controller_frame(
        cancelled.state,
        LaunchFrameInput { overlay_events: vec![contracted("music")], ..input(vec![]) },
    );
    assert_eq!(phase(&other_app.state), Some(LaunchPhase::Contracting));

    let done = launch_controller_frame(
        other_app.state,
        LaunchFrameInput { overlay_events: vec![contracted("movies")], ..input(vec![]) },
    );
    assert!(done.state.launch.is_none());
    assert_eq!(done.state.restore_focus_app_id.as_deref(), Some("movies"));
    assert!(done.state.restore_dock_focus.is_none());
    assert_eq!(
        done.effects,
        vec![
            LaunchEffect::CaptureNavigation(true),
            LaunchEffect::Disengage,
            LaunchEffect::ClearFocus,
            LaunchEffect::RestoreScopeFocus,
        ]
    );
}

#[test]
fn launch_from_dock_gives_focus_back_to_the_dock_icon() {
    let state = started("music", LaunchRestoreFocus::Dock(FocusKey::new("dock-music")));
    let reversed = launch_controller_frame(
        state,
        input(vec![LaunchControllerRequest::ReverseLaunchAnimation]),
    );
    assert_eq!(phase(&reversed.state), Some(LaunchPhase::Contracting));
    let done = launch_controller_frame(
        reversed.state,
        LaunchFrameInput { overlay_events: vec![contracted("music")], ..input(vec![]) },
    );
    let (app, key) = done.state.restore_dock_focus.as_ref().unwrap();
    assert_eq!(app, "music");
    assert_eq!(key.name(), "dock-music");
    assert!(done.state.restore_focus_app_id.is_none());
    let output = done.state.output();
    assert_eq!(output.preferred_dock_focus_key.unwrap().name(), "dock-music");
}

#[test]
fn launch_window_focus_loss_reverses_and_drops_new_requests() {
    let state = started("movies", LaunchRestoreFocus::AppGrid);
    let frame = launch_controller_frame(
        state,
        LaunchFrameInput {
            window_focus_lost: true,
            ..input(vec![LaunchControllerRequest::BeginLaunchAnimation(request(
                "music",
                LaunchRestoreFocus::AppGrid,
            ))])
        },
    );
    assert_eq!(phase(&frame.state), Some(LaunchPhase::Contracting));
    assert_eq!(frame.state.launch.as_ref().unwrap().request.app_id, "movies");
}

#[test]
fn launch_failure_reverses_only_for_the_running_app() {
    let failure = |app: &str| AppOpResult::LaunchFailed(
        app.to_string(),
        LaunchError { error: "not found".to_string(), launch_command_entry: "movies %U".to_string() },
    );
    let state = started("movies", LaunchRestoreFocus::AppGrid);
    let unrelated = launch_controller_frame(
        state,
        LaunchFrameInput { launch_results: vec![failure("music")], ..input(vec![]) },
    );
    assert_eq!(phase(&unrelated.state), Some(LaunchPhase::Expanding));
    let spawned_first = launch_controller_frame(
        unrelated.state,
        LaunchFrameInput {
            launch_results: vec![AppOpResult::LaunchSpawned("movies".to_string()), failure("movies")],
            ..input(vec![])
        },
    );
    assert_eq!(phase(&spawned_first.state), Some(LaunchPhase::Expanding));
    let failed = launch_controller_frame(
        spawned_first.state,
        LaunchFrameInput { launch_results: vec![failure("movies")], ..input(vec![]) },
    );
    assert_eq!(phase(&failed.state), Some(LaunchPhase::Contracting));
}

#[test]
fn launch_idle_frame_does_nothing_but_release_navigation() {
    let frame = launch_controller_frame(LaunchControllerState::<(i32, i32)>::new(), input(vec![]));
    assert!(frame.state.launch.is_none());
    assert_eq!(frame.effects, vec![LaunchEffect::CaptureNavigation(false)]);
}

#[test]
fn launch_state_extension_sets_the_phase_of_a_held_launch() {
    let mut held = Some(LaunchTransitionState {
        request: request("movies", LaunchRestoreFocus::AppGrid),
        phase: LaunchPhase::Expanding,
    });
    held.set_phase(LaunchPhase::Contracting);
    assert_eq!(held.as_ref().unwrap().phase, LaunchPhase::Contracting);
    let mut empty: Option<LaunchTransitionState<(i32, i32)>> = None;
    empty.set_phase(LaunchPhase::Contracting);
    assert!(empty.is_none());
}

#[test]
fn overlay_animation_follows_app_and_phase_changes() {
    let app = "movies".to_string();
    let (state, command) =
        start_launch_animation(LaunchOverlayAnimationState::new(), &app, LaunchPhase::Expanding);
    assert_eq!(command, Some(LaunchAnimationCommand::RestartForward));
    let (state, command) = start_launch_animation(state, &app, LaunchPhase::Expanding);
    assert_eq!(command, None);
    let at_end = LaunchAnimationProgress { is_running: false, at_end: true, at_start: false };
    let (state, event) = finish_launch_animation(state, &app, LaunchPhase::Expanding, at_end);
    assert!(matches!(event, Some(LaunchOverlayEvent::Expanded { ref app_id }) if app_id == "movies"));
    let (state, event) = finish_launch_animation(state, &app, LaunchPhase::Expanding, at_end);
    assert!(event.is_none());
    let (state, command) = start_launch_animation(state, &app, LaunchPhase::WaitingForSurface);
    assert_eq!(command, Some(LaunchAnimationCommand::JumpToEnd));
    let (state, command) = start_launch_animation(state, &app, LaunchPhase::Contracting);
    assert_eq!(command, Some(LaunchAnimationCommand::PlayBackward));
    let running = LaunchAnimationProgress { is_running: true, at_end: false, at_start: true };
    let (state, event) = finish_launch_animation(state, &app, LaunchPhase::Contracting, running);
    assert!(event.is_none());
    let at_start = LaunchAnimationProgress { is_running: false, at_end: false, at_start: true };
    let (state, event) = finish_launch_animation(state, &app, LaunchPhase::Contracting, at_start);
    assert!(matches!(event, Some(LaunchOverlayEvent::Contracted { .. })));
    assert!(state.contracted_event_sent);
    let other = "music".to_string();
    let (state, command) = start_launch_animation(state, &other, LaunchPhase::Contracting);
    assert_eq!(command, Some(LaunchAnimationCommand::RestartForward));
    assert!(!state.expanded_event_sent && !state.contracted_event_sent);
    assert_eq!(state.current_app_id.as_deref(), Some("music"));
}

fn overlay_frame(
    state: LaunchOverlayAnimationState,
    app: &String,
    phase: LaunchPhase,
    progress: LaunchAnimationProgress,
) -> (LaunchOverlayAnimationState, Option<LaunchOverlayEvent>) {
    let (started, _) = start_launch_animation(state, app, phase);
    finish_launch_animation(started, app, phase, progress)
}

#[test]
fn overlay_reports_again_only_after_a_new_phase_entry() {
    let app = "movies".to_string();
    let running = LaunchAnimationProgress { is_running: true, at_end: false, at_start: false };
    let at_end = LaunchAnimationProgress { is_running: false, at_end: true, at_start: false };
    let at_start = LaunchAnimationProgress { is_running: false, at_end: false, at_start: true };
    let mut reports = Vec::new();
    let mut state = LaunchOverlayAnimationState::new();
    let frames = [
        (LaunchPhase::Expanding, running),
        (LaunchPhase::Expanding, at_end),
        (LaunchPhase::Expanding, at_end),
        (LaunchPhase::Contracting, at_start),
        (LaunchPhase::Contracting, at_start),
        (LaunchPhase::Expanding, at_end),
        (LaunchPhase::Contracting, at_start),
    ];
    for (phase, progress) in frames {
        let (next, report) = overlay_frame(state, &app, phase, progress);
        state = next;
        reports.push(match report {
            Some(LaunchOverlayEvent::Expanded { .. }) => Some(true),
            Some(LaunchOverlayEvent::Contracted { .. }) => Some(false),
            None => None,
        });
    }
    assert_eq!(reports, vec![None, Some(true), None, Some(false), None, Some(true), Some(false)]);
}
