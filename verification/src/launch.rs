//! The launch transition: an app tile grows into the launching app's surface,
//! waits for the app's window, and shrinks back when the launch is cancelled,
//! fails or is handed over.
use vstd::prelude::*;
use crate::app_state::{AppOpResult, first_result_failed, launch_failed};
use crate::focus::FocusKey;
use crate::text::str_eq;

verus! {

/// The stage of a launch transition.
#[derive(Clone, Copy, PartialEq, Eq, Structural, Debug)]
pub enum LaunchPhase {
    /// The tile grows to fill the screen.
    Expanding,
    /// The overlay fills the screen until the app's window takes over.
    WaitingForSurface,
    /// The overlay shrinks back into the tile.
    Contracting,
}

/// Where focus goes back to once a launch is undone.
pub enum LaunchRestoreFocus {
    /// To the app's tile in the grid.
    AppGrid,
    /// To the dock icon with this key.
    Dock(FocusKey),
}

/// A request to launch an app, started from one of its tiles. `G` is the
/// on-screen geometry of the tile, which the transition carries along.
pub struct LaunchRequest<G> {
    pub app_id: String,
    pub restore_focus: LaunchRestoreFocus,
    pub geometry: G,
}

/// A launch in progress.
pub struct LaunchTransitionState<G> {
    pub request: LaunchRequest<G>,
    pub phase: LaunchPhase,
}

/// A request to the launch controller.
pub enum LaunchControllerRequest<G> {
    /// Start the transition for a new launch.
    BeginLaunchAnimation(LaunchRequest<G>),
    /// Undo the running transition.
    ReverseLaunchAnimation,
}

/// What the launch overlay reports back.
pub enum LaunchOverlayEvent {
    /// The overlay finished growing for the app.
    Expanded { app_id: String },
    /// The overlay finished shrinking for the app.
    Contracted { app_id: String },
}

/// Sets the phase of the launch held in a state slot, if there is one.
pub trait LaunchStateExtension {
    /// The phase of the held launch.
    spec fn held_phase(&self) -> Option<LaunchPhase>;

    /// Sets the phase of the held launch; an empty slot stays empty.
    fn set_phase(&mut self, phase: LaunchPhase)
        ensures
            final(self).held_phase() == (if old(self).held_phase() is Some {
                Some(phase)
            } else {
                None
            }),
    ;
}

impl<G> LaunchStateExtension for Option<LaunchTransitionState<G>> {
    open spec fn held_phase(&self) -> Option<LaunchPhase> {
        match self {
            Some(state) => Some(state.phase),
            None => None,
        }
    }

    fn set_phase(&mut self, phase: LaunchPhase)
        ensures
            match (*old(self), *final(self)) {
                (Some(before), Some(after)) => after.request == before.request && after.phase
                    == phase,
                (None, None) => true,
                _ => false,
            },
    {
        if let Some(state) = self {
            state.phase = phase;
        }
    }
}

/// The last launch that `requests` begin.
pub open spec fn last_begin<G>(requests: Seq<LaunchControllerRequest<G>>) -> Option<
    LaunchRequest<G>,
>
    decreases requests.len(),
{
    if requests.len() == 0 {
        None
    } else {
        match requests.last() {
            LaunchControllerRequest::BeginLaunchAnimation(request) => Some(request),
            LaunchControllerRequest::ReverseLaunchAnimation => last_begin(requests.drop_last()),
        }
    }
}

/// Whether one of `requests` asks to undo the transition.
pub open spec fn reverse_requested<G>(requests: Seq<LaunchControllerRequest<G>>) -> bool {
    exists|i: int| 0 <= i < requests.len() && #[trigger] requests[i] is ReverseLaunchAnimation
}

/// The app of the last `Expanded` report among `events`.
pub open spec fn last_expanded(events: Seq<LaunchOverlayEvent>) -> Option<Seq<char>>
    decreases events.len(),
{
    if events.len() == 0 {
        None
    } else {
        match events.last() {
            LaunchOverlayEvent::Expanded { app_id } => Some(app_id@),
            LaunchOverlayEvent::Contracted { .. } => last_expanded(events.drop_last()),
        }
    }
}

/// The app of the last `Contracted` report among `events`.
pub open spec fn last_contracted(events: Seq<LaunchOverlayEvent>) -> Option<Seq<char>>
    decreases events.len(),
{
    if events.len() == 0 {
        None
    } else {
        match events.last() {
            LaunchOverlayEvent::Contracted { app_id } => Some(app_id@),
            LaunchOverlayEvent::Expanded { .. } => last_contracted(events.drop_last()),
        }
    }
}

/// What the launch controller keeps between frames.
pub struct LaunchControllerState<G> {
    /// The launch in progress.
    pub launch: Option<LaunchTransitionState<G>>,
    /// The app whose tile takes focus back after an undone launch.
    pub restore_focus_app_id: Option<String>,
    /// The app and the dock key that take focus back after an undone launch.
    pub restore_dock_focus: Option<(String, FocusKey)>,
}

impl<G> LaunchControllerState<G> {
    /// No launch, nothing to give focus back to.
    pub fn new() -> (state: Self)
        ensures
            state.launch is None,
            state.restore_focus_app_id is None,
            state.restore_dock_focus is None,
    {
        LaunchControllerState { launch: None, restore_focus_app_id: None, restore_dock_focus: None }
    }
}

/// What happened since the last frame, as the launch controller sees it.
pub struct LaunchFrameInput<G> {
    pub requests: Vec<LaunchControllerRequest<G>>,
    pub overlay_events: Vec<LaunchOverlayEvent>,
    /// Cancel or Back was pressed.
    pub cancel_pressed: bool,
    /// The shell's window lost focus, to the launched app.
    pub window_focus_lost: bool,
    /// The launcher's answers since the last frame.
    pub launch_results: Vec<AppOpResult>,
    /// Whether the home screen holds focus.
    pub is_focused: bool,
    /// Whether the home screen captures navigation.
    pub is_engaged: bool,
}

/// Something the launch controller asks of the home screen's focus handling.
#[derive(Clone, Copy, PartialEq, Eq, Structural, Debug)]
pub enum LaunchEffect {
    /// Capture Cancel and Back on the home screen, or stop doing so.
    CaptureNavigation(bool),
    /// Take focus programmatically.
    RequestFocus,
    /// Capture navigation input.
    Engage,
    /// Stop capturing navigation input.
    Disengage,
    /// Drop focus.
    ClearFocus,
    /// Let the home screen give focus back by navigation.
    RestoreScopeFocus,
}

/// Whether the launch in progress failed, by the launcher's first answer about
/// its app.
pub open spec fn launch_failed_in<G>(state: LaunchControllerState<G>, results: Seq<AppOpResult>) -> bool {
    state.launch is Some && first_result_failed(results, state.launch->0.request.app_id@)
}

/// Whether the running launch is to be handed back: it failed, or the shell
/// lost focus.
pub open spec fn handed_back<G>(
    state: LaunchControllerState<G>,
    results: Seq<AppOpResult>,
    window_focus_lost: bool,
) -> bool {
    state.launch is Some && (launch_failed_in(state, results) || window_focus_lost)
}

/// The launch that starts this frame.
pub open spec fn starting_request<G>(
    state: LaunchControllerState<G>,
    requests: Seq<LaunchControllerRequest<G>>,
    results: Seq<AppOpResult>,
    window_focus_lost: bool,
) -> Option<LaunchRequest<G>> {
    if handed_back(state, results, window_focus_lost) {
        None
    } else {
        last_begin(requests)
    }
}

/// Whether the transition is to be undone this frame.
pub open spec fn reversing<G>(
    state: LaunchControllerState<G>,
    requests: Seq<LaunchControllerRequest<G>>,
    cancel_pressed: bool,
    results: Seq<AppOpResult>,
    window_focus_lost: bool,
) -> bool {
    cancel_pressed || reverse_requested(requests) || handed_back(state, results, window_focus_lost)
}

/// The state once a new launch, if any, has started.
pub open spec fn started<G>(
    state: LaunchControllerState<G>,
    request: Option<LaunchRequest<G>>,
) -> LaunchControllerState<G> {
    match request {
        Some(request) => LaunchControllerState {
            launch: Some(LaunchTransitionState { request, phase: LaunchPhase::Expanding }),
            restore_focus_app_id: None,
            restore_dock_focus: None,
        },
        None => state,
    }
}

/// Whether a contracting launch finishes this frame.
pub open spec fn finishing<G>(state: LaunchControllerState<G>, contracted: Option<Seq<char>>) -> bool {
    state.launch is Some && state.launch->0.phase == LaunchPhase::Contracting && contracted
        == Some(state.launch->0.request.app_id@)
}

/// The state after the launch advanced by one phase: growing or waiting
/// launches shrink when undone, a grown launch waits for its window, and a
/// shrunk launch ends, remembering where focus goes back to.
pub open spec fn advanced<G>(
    state: LaunchControllerState<G>,
    reverse: bool,
    expanded: Option<Seq<char>>,
    contracted: Option<Seq<char>>,
) -> LaunchControllerState<G> {
    match state.launch {
        None => state,
        Some(launch) => match launch.phase {
            LaunchPhase::Expanding => if reverse {
                LaunchControllerState {
                    launch: Some(LaunchTransitionState { phase: LaunchPhase::Contracting, ..launch }),
                    ..state
                }
            } else if expanded == Some(launch.request.app_id@) {
                LaunchControllerState {
                    launch: Some(
                        LaunchTransitionState { phase: LaunchPhase::WaitingForSurface, ..launch },
                    ),
                    ..state
                }
            } else {
                state
            },
            LaunchPhase::WaitingForSurface => if reverse {
                LaunchControllerState {
                    launch: Some(LaunchTransitionState { phase: LaunchPhase::Contracting, ..launch }),
                    ..state
                }
            } else {
                state
            },
            LaunchPhase::Contracting => if contracted == Some(launch.request.app_id@) {
                match launch.request.restore_focus {
                    LaunchRestoreFocus::AppGrid => LaunchControllerState {
                        launch: None,
                        restore_focus_app_id: Some(launch.request.app_id),
                        restore_dock_focus: None,
                    },
                    LaunchRestoreFocus::Dock(key) => LaunchControllerState {
                        launch: None,
                        restore_focus_app_id: None,
                        restore_dock_focus: Some((launch.request.app_id, key)),
                    },
                }
            } else {
                state
            },
        },
    }
}

/// The launch controller's state after one frame.
pub open spec fn launch_state_after<G>(
    state: LaunchControllerState<G>,
    input: LaunchFrameInput<G>,
) -> LaunchControllerState<G> {
    let request = starting_request(
        state,
        input.requests@,
        input.launch_results@,
        input.window_focus_lost,
    );
    advanced(
        started(state, request),
        reversing(
            state,
            input.requests@,
            input.cancel_pressed,
            input.launch_results@,
            input.window_focus_lost,
        ),
        last_expanded(input.overlay_events@),
        last_contracted(input.overlay_events@),
    )
}

/// The launch controller's effects during one frame, in order.
pub open spec fn launch_effects_of<G>(
    state: LaunchControllerState<G>,
    input: LaunchFrameInput<G>,
) -> Seq<LaunchEffect> {
    let request = starting_request(
        state,
        input.requests@,
        input.launch_results@,
        input.window_focus_lost,
    );
    let after = launch_state_after(state, input);
    let capture = seq![
        LaunchEffect::CaptureNavigation(
            state.launch is Some || last_begin(input.requests@) is Some,
        ),
    ];
    let begin = if request is Some {
        seq![LaunchEffect::RequestFocus, LaunchEffect::Engage]
    } else {
        Seq::empty()
    };
    let finish = if finishing(started(state, request), last_contracted(input.overlay_events@)) {
        seq![LaunchEffect::Disengage, LaunchEffect::ClearFocus, LaunchEffect::RestoreScopeFocus]
    } else {
        Seq::empty()
    };
    let keep_focus = if after.launch is Some && !input.is_focused {
        seq![LaunchEffect::RequestFocus]
    } else {
        Seq::empty()
    };
    let keep_engaged = if after.launch is Some && !input.is_engaged {
        seq![LaunchEffect::Engage]
    } else {
        Seq::empty()
    };
    capture + begin + finish + keep_focus + keep_engaged
}

/// The launch controller's state and effects after one frame.
pub struct LaunchFrame<G> {
    pub state: LaunchControllerState<G>,
    pub effects: Vec<LaunchEffect>,
}

fn take_last_begin<G>(requests: Vec<LaunchControllerRequest<G>>) -> (r: (
    Option<LaunchRequest<G>>,
    bool,
))
    ensures
        r.0 == last_begin(requests@),
        r.1 == reverse_requested(requests@),
{
    let ghost all = requests@;
    let mut rest = requests;
    let mut found: Option<LaunchRequest<G>> = None;
    let mut reverse = false;
    while rest.len() > 0
        invariant
            all.len() >= rest@.len(),
            rest@ == all.take(rest@.len() as int),
            last_begin(all) == (if found is Some {
                found
            } else {
                last_begin(rest@)
            }),
            reverse_requested(all) == (reverse || reverse_requested(rest@)),
        decreases rest@.len(),
    {
        let ghost before = rest@;
        let request = rest.pop().unwrap();
        assert(rest@ =~= before.drop_last());
        assert(rest@ == all.take(rest@.len() as int));
        proof {
            if reverse_requested(before) {
                let i = choose|i: int| 0 <= i < before.len() && #[trigger] before[i] is ReverseLaunchAnimation;
                if i < rest@.len() {
                    assert(rest@[i] == before[i]);
                }
            }
            if reverse_requested(rest@) {
                let i = choose|i: int| 0 <= i < rest@.len() && #[trigger] rest@[i] is ReverseLaunchAnimation;
                assert(before[i] == rest@[i]);
            }
        }
        match request {
            LaunchControllerRequest::BeginLaunchAnimation(request) => {
                if found.is_none() {
                    found = Some(request);
                }
            },
            LaunchControllerRequest::ReverseLaunchAnimation => {
                reverse = true;
            },
        }
    }
    (found, reverse)
}

fn last_overlay_report(events: &Vec<LaunchOverlayEvent>, expanded: bool) -> (r: Option<String>)
    ensures
        expanded ==> match r {
            Some(app_id) => last_expanded(events@) == Some(app_id@),
            None => last_expanded(events@) is None,
        },
        !expanded ==> match r {
            Some(app_id) => last_contracted(events@) == Some(app_id@),
            None => last_contracted(events@) is None,
        },
{
    let mut i: usize = events.len();
    assert(events@.take(i as int) =~= events@);
    while i > 0
        invariant
            0 <= i <= events.len(),
            expanded ==> last_expanded(events@) == last_expanded(events@.take(i as int)),
            !expanded ==> last_contracted(events@) == last_contracted(events@.take(i as int)),
        decreases i,
    {
        assert(events@.take(i as int).drop_last() =~= events@.take(i - 1));
        match &events[i - 1] {
            LaunchOverlayEvent::Expanded { app_id } => {
                if expanded {
                    return Some(app_id.clone());
                }
            },
            LaunchOverlayEvent::Contracted { app_id } => {
                if !expanded {
                    return Some(app_id.clone());
                }
            },
        }
        i = i - 1;
    }
    None
}

fn same_app(report: &Option<String>, app_id: &String) -> (same: bool)
    ensures
        same == match report {
            Some(reported) => reported@ == app_id@,
            None => false,
        },
{
    match report {
        Some(reported) => str_eq(reported.as_str(), app_id.as_str()),
        None => false,
    }
}

/// Runs the launch controller for one frame: starts the last requested
/// launch; undoes the running one when Cancel or Back is pressed, when undoing
/// is requested, when the launcher reports that it failed or when the shell
/// loses focus to the launched app (those last two also drop a launch
/// requested in the same frame); advances the transition by the overlay's
/// reports; and says how focus is to be handled.
pub fn launch_controller_frame<G>(
    state: LaunchControllerState<G>,
    input: LaunchFrameInput<G>,
) -> (frame: LaunchFrame<G>)
    ensures
        frame.state == launch_state_after(state, input),
        frame.effects@ == launch_effects_of(state, input),
{
    let ghost old_state = state;
    let ghost old_input = input;
    let LaunchFrameInput {
        requests,
        overlay_events,
        cancel_pressed,
        window_focus_lost,
        launch_results,
        is_focused,
        is_engaged,
    } = input;
    let (next_launch_request, reverse_requested) = take_last_begin(requests);
    let mut effects: Vec<LaunchEffect> = Vec::new();
    let launch_is_active = state.launch.is_some() || next_launch_request.is_some();
    effects.push(LaunchEffect::CaptureNavigation(launch_is_active));

    let current_launch_failed = match &state.launch {
        Some(launch) => launch_failed(&launch_results, launch.request.app_id.as_str()),
        None => false,
    };
    let mut should_reverse_launch = cancel_pressed || reverse_requested;
    let mut next_launch_request = next_launch_request;
    if state.launch.is_some() && (current_launch_failed || window_focus_lost) {
        next_launch_request = None;
        should_reverse_launch = true;
    }
    assert(should_reverse_launch == reversing(
        old_state,
        old_input.requests@,
        cancel_pressed,
        old_input.launch_results@,
        window_focus_lost,
    ));

    let mut state = state;
    if let Some(request) = next_launch_request {
        state = LaunchControllerState {
            launch: Some(LaunchTransitionState { request, phase: LaunchPhase::Expanding }),
            restore_focus_app_id: None,
            restore_dock_focus: None,
        };
        effects.push(LaunchEffect::RequestFocus);
        effects.push(LaunchEffect::Engage);
    }
    let ghost begun = state;

    let expanded = last_overlay_report(&overlay_events, true);
    let contracted = last_overlay_report(&overlay_events, false);
    let LaunchControllerState { launch, restore_focus_app_id, restore_dock_focus } = state;
    let next_state = match launch {
        None => LaunchControllerState { launch: None, restore_focus_app_id, restore_dock_focus },
        Some(launch) => match launch.phase {
            LaunchPhase::Expanding => {
                if should_reverse_launch {
                    LaunchControllerState {
                        launch: Some(
                            LaunchTransitionState {
                                request: launch.request,
                                phase: LaunchPhase::Contracting,
                            },
                        ),
                        restore_focus_app_id,
                        restore_dock_focus,
                    }
                } else if same_app(&expanded, &launch.request.app_id) {
                    LaunchControllerState {
                        launch: Some(
                            LaunchTransitionState {
                                request: launch.request,
                                phase: LaunchPhase::WaitingForSurface,
                            },
                        ),
                        restore_focus_app_id,
                        restore_dock_focus,
                    }
                } else {
                    LaunchControllerState {
                        launch: Some(launch),
                        restore_focus_app_id,
                        restore_dock_focus,
                    }
                }
            },
            LaunchPhase::WaitingForSurface => {
                if should_reverse_launch {
                    LaunchControllerState {
                        launch: Some(
                            LaunchTransitionState {
                                request: launch.request,
                                phase: LaunchPhase::Contracting,
                            },
                        ),
                        restore_focus_app_id,
                        restore_dock_focus,
                    }
                } else {
                    LaunchControllerState {
                        launch: Some(launch),
                        restore_focus_app_id,
                        restore_dock_focus,
                    }
                }
            },
            LaunchPhase::Contracting => {
                if same_app(&contracted, &launch.request.app_id) {
                    effects.push(LaunchEffect::Disengage);
                    effects.push(LaunchEffect::ClearFocus);
                    effects.push(LaunchEffect::RestoreScopeFocus);
                    let LaunchRequest { app_id, restore_focus, geometry: _ } = launch.request;
                    match restore_focus {
                        LaunchRestoreFocus::AppGrid => LaunchControllerState {
                            launch: None,
                            restore_focus_app_id: Some(app_id),
                            restore_dock_focus: None,
                        },
                        LaunchRestoreFocus::Dock(focus_key) => LaunchControllerState {
                            launch: None,
                            restore_focus_app_id: None,
                            restore_dock_focus: Some((app_id, focus_key)),
                        },
                    }
                } else {
                    LaunchControllerState {
                        launch: Some(launch),
                        restore_focus_app_id,
                        restore_dock_focus,
                    }
                }
            },
        },
    };
    if next_state.launch.is_some() && !is_focused {
        effects.push(LaunchEffect::RequestFocus);
    }
    if next_state.launch.is_some() && !is_engaged {
        effects.push(LaunchEffect::Engage);
    }
    proof {
        let request = starting_request(
            old_state,
            old_input.requests@,
            old_input.launch_results@,
            window_focus_lost,
        );
        assert(begun == started(old_state, request));
        assert(effects@ =~= launch_effects_of(old_state, old_input));
    }
    LaunchFrame { state: next_state, effects }
}

/// The launch overlay's memory of the transition it is playing.
pub struct LaunchOverlayAnimationState {
    pub current_app_id: Option<String>,
    pub current_phase: Option<LaunchPhase>,
    pub expanded_event_sent: bool,
    pub contracted_event_sent: bool,
}

impl LaunchOverlayAnimationState {
    /// Playing nothing yet.
    pub fn new() -> (state: Self)
        ensures
            state.current_app_id is None,
            state.current_phase is None,
            !state.expanded_event_sent,
            !state.contracted_event_sent,
    {
        LaunchOverlayAnimationState {
            current_app_id: None,
            current_phase: None,
            expanded_event_sent: false,
            contracted_event_sent: false,
        }
    }
}

/// What the launch overlay does to its animation.
#[derive(Clone, Copy, PartialEq, Eq, Structural, Debug)]
pub enum LaunchAnimationCommand {
    /// Rewind to the start and play forward.
    RestartForward,
    /// Jump to the end.
    JumpToEnd,
    /// Play backward from where it is.
    PlayBackward,
}

/// The overlay's memory and animation command once it has seen the launch of
/// `app_id` in `phase`: a new app restarts the animation; a new phase plays it
/// forward from the start, jumps to the end or plays it backward.
pub open spec fn animation_started(
    state: LaunchOverlayAnimationState,
    app_id: Seq<char>,
    phase: LaunchPhase,
) -> (LaunchOverlayAnimationState, Option<LaunchAnimationCommand>) {
    let same_app = match state.current_app_id {
        Some(current) => current@ == app_id,
        None => false,
    };
    if !same_app {
        (
            LaunchOverlayAnimationState {
                current_phase: Some(phase),
                expanded_event_sent: false,
                contracted_event_sent: false,
                ..state
            },
            Some(LaunchAnimationCommand::RestartForward),
        )
    } else if state.current_phase != Some(phase) {
        match phase {
            LaunchPhase::Expanding => (
                LaunchOverlayAnimationState {
                    current_phase: Some(phase),
                    expanded_event_sent: false,
                    contracted_event_sent: false,
                    ..state
                },
                Some(LaunchAnimationCommand::RestartForward),
            ),
            LaunchPhase::WaitingForSurface => (
                LaunchOverlayAnimationState { current_phase: Some(phase), ..state },
                Some(LaunchAnimationCommand::JumpToEnd),
            ),
            LaunchPhase::Contracting => (
                LaunchOverlayAnimationState {
                    current_phase: Some(phase),
                    contracted_event_sent: false,
                    ..state
                },
                Some(LaunchAnimationCommand::PlayBackward),
            ),
        }
    } else {
        (state, None)
    }
}

/// Brings the overlay's memory in line with the launch of `app_id` in `phase`
/// and says what to do to the animation.
pub fn start_launch_animation(
    state: LaunchOverlayAnimationState,
    app_id: &String,
    phase: LaunchPhase,
) -> (r: (LaunchOverlayAnimationState, Option<LaunchAnimationCommand>))
    ensures
        r.0.current_app_id is Some,
        r.0.current_app_id->0@ == app_id@,
        r.0.current_phase == animation_started(state, app_id@, phase).0.current_phase,
        r.0.expanded_event_sent == animation_started(state, app_id@, phase).0.expanded_event_sent,
        r.0.contracted_event_sent == animation_started(
            state,
            app_id@,
            phase,
        ).0.contracted_event_sent,
        r.1 == animation_started(state, app_id@, phase).1,
{
    let same_app = match &state.current_app_id {
        Some(current) => str_eq(current.as_str(), app_id.as_str()),
        None => false,
    };
    if !same_app {
        return (
            LaunchOverlayAnimationState {
                current_app_id: Some(app_id.clone()),
                current_phase: Some(phase),
                expanded_event_sent: false,
                contracted_event_sent: false,
            },
            Some(LaunchAnimationCommand::RestartForward),
        );
    }
    if state.current_phase != Some(phase) {
        let mut next = state;
        next.current_phase = Some(phase);
        let command = match phase {
            LaunchPhase::Expanding => {
                next.expanded_event_sent = false;
                next.contracted_event_sent = false;
                LaunchAnimationCommand::RestartForward
            },
            LaunchPhase::WaitingForSurface => LaunchAnimationCommand::JumpToEnd,
            LaunchPhase::Contracting => {
                next.contracted_event_sent = false;
                LaunchAnimationCommand::PlayBackward
            },
        };
        (next, Some(command))
    } else {
        (state, None)
    }
}

/// How the overlay's animation stands after it was updated.
#[derive(Clone, Copy, PartialEq, Eq, Structural, Debug)]
pub struct LaunchAnimationProgress {
    pub is_running: bool,
    /// The animation is at its end.
    pub at_end: bool,
    /// The animation is at its start.
    pub at_start: bool,
}

/// Which report the overlay sends: `Expanded` once a growing animation has
/// stopped at its end, `Contracted` once a shrinking one has stopped at its
/// start, each only once per transition.
pub open spec fn report_due(
    state: LaunchOverlayAnimationState,
    phase: LaunchPhase,
    progress: LaunchAnimationProgress,
) -> Option<bool> {
    if phase == LaunchPhase::Expanding && !progress.is_running && progress.at_end
        && !state.expanded_event_sent {
        Some(true)
    } else if phase == LaunchPhase::Contracting && !progress.is_running && progress.at_start
        && !state.contracted_event_sent {
        Some(false)
    } else {
        None
    }
}

/// Decides the overlay's report for the frame and remembers that it was sent.
pub fn finish_launch_animation(
    state: LaunchOverlayAnimationState,
    app_id: &String,
    phase: LaunchPhase,
    progress: LaunchAnimationProgress,
) -> (r: (LaunchOverlayAnimationState, Option<LaunchOverlayEvent>))
    ensures
        r.0.current_app_id == state.current_app_id,
        r.0.current_phase == state.current_phase,
        r.0.expanded_event_sent == (state.expanded_event_sent || report_due(
            state,
            phase,
            progress,
        ) == Some(true)),
        r.0.contracted_event_sent == (state.contracted_event_sent || report_due(
            state,
            phase,
            progress,
        ) == Some(false)),
        match r.1 {
            Some(LaunchOverlayEvent::Expanded { app_id: reported }) => report_due(
                state,
                phase,
                progress,
            ) == Some(true) && reported@ == app_id@,
            Some(LaunchOverlayEvent::Contracted { app_id: reported }) => report_due(
                state,
                phase,
                progress,
            ) == Some(false) && reported@ == app_id@,
            None => report_due(state, phase, progress) is None,
        },
{
    let mut next = state;
    if phase == LaunchPhase::Expanding && !progress.is_running && progress.at_end
        && !next.expanded_event_sent {
        next.expanded_event_sent = true;
        return (next, Some(LaunchOverlayEvent::Expanded { app_id: app_id.clone() }));
    }
    if phase == LaunchPhase::Contracting && !progress.is_running && progress.at_start
        && !next.contracted_event_sent {
        next.contracted_event_sent = true;
        return (next, Some(LaunchOverlayEvent::Contracted { app_id: app_id.clone() }));
    }
    (next, None)
}

/// What the home screen learns from the launch controller in a frame.
pub struct LaunchControllerOutput {
    /// Whether a launch is in progress.
    pub launch_is_active: bool,
    /// The app of the launch in progress.
    pub launched_app_id: Option<String>,
    /// The app whose tile takes focus back after an undone launch.
    pub preferred_focus_app_id: Option<String>,
    /// The dock key that takes focus back after an undone launch.
    pub preferred_dock_focus_key: Option<FocusKey>,
}

fn clone_text(text: &Option<String>) -> (r: Option<String>)
    ensures
        r == *text,
{
    match text {
        Some(t) => Some(t.clone()),
        None => None,
    }
}

impl<G> LaunchControllerState<G> {
    /// What the home screen learns from the launch controller.
    pub fn output(&self) -> (output: LaunchControllerOutput)
        ensures
            output.launch_is_active == self.launch is Some,
            output.launched_app_id == match self.launch {
                Some(launch) => Some(launch.request.app_id),
                None => None,
            },
            output.preferred_focus_app_id == self.restore_focus_app_id,
            match self.restore_dock_focus {
                Some((_, key)) => output.preferred_dock_focus_key is Some
                    && output.preferred_dock_focus_key->0@ == key@,
                None => output.preferred_dock_focus_key is None,
            },
    {
        let launched_app_id = match &self.launch {
            Some(launch) => Some(launch.request.app_id.clone()),
            None => None,
        };
        let preferred_dock_focus_key = match &self.restore_dock_focus {
            Some((_, key)) => Some(key.duplicate()),
            None => None,
        };
        LaunchControllerOutput {
            launch_is_active: self.launch.is_some(),
            launched_app_id,
            preferred_focus_app_id: clone_text(&self.restore_focus_app_id),
            preferred_dock_focus_key,
        }
    }
}

} // verus!
