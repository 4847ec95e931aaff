//! The shell's surface: which layer it sits on, whether it takes the
//! keyboard, the overview toggle and the window switcher session.
use vstd::prelude::*;
use crate::overview::WindowSwitchRequest;
use crate::text::str_eq;

verus! {

/// The two views of the home screen.
#[derive(Clone, Copy, PartialEq, Eq, Structural, Debug)]
pub enum HomeView {
    Apps,
    Overview,
}

impl Default for HomeView {
    fn default() -> (view: Self)
        ensures
            view == HomeView::Apps,
    {
        HomeView::Apps
    }
}

/// The compositor layer that a surface is placed on.
#[derive(Clone, Copy, PartialEq, Eq, Structural, Debug)]
pub enum SurfaceLayer {
    Background,
    Bottom,
    Top,
    Overlay,
}

/// How a surface takes keyboard input.
#[derive(Clone, Copy, PartialEq, Eq, Structural, Debug)]
pub enum KeyboardInteractivity {
    Disabled,
    Exclusive,
    OnDemand,
}

/// Whether the shell is on its way to being shown or hidden.
#[derive(Clone, Copy, PartialEq, Eq, Structural, Debug)]
pub enum VisibilityTransition {
    Stable,
    Showing,
    Hiding,
}

/// What the shell looked like before the overview was opened over it.
#[derive(Clone, Copy, PartialEq, Eq, Structural, Debug)]
pub struct OverviewVisit {
    pub previous_home_view: HomeView,
    pub previous_surface_layer: SurfaceLayer,
}

/// The state that the surface layer controller keeps between frames.
#[derive(Clone, Copy, PartialEq, Eq, Structural, Debug)]
pub struct SurfaceLayerControllerState {
    pub visibility_transition: VisibilityTransition,
    pub overview_visit: Option<OverviewVisit>,
    pub window_switch_is_active: bool,
}

impl Default for SurfaceLayerControllerState {
    fn default() -> (state: Self)
        ensures
            state.visibility_transition == VisibilityTransition::Stable,
            state.overview_visit is None,
            !state.window_switch_is_active,
    {
        SurfaceLayerControllerState {
            visibility_transition: VisibilityTransition::Stable,
            overview_visit: None,
            window_switch_is_active: false,
        }
    }
}

/// A change of the window's keyboard focus.
#[derive(Clone, Copy, PartialEq, Eq, Structural, Debug)]
pub enum FocusEvent {
    Gained,
    Lost,
}

/// A compositor shortcut that the shell reacts to.
#[derive(Clone, Copy, PartialEq, Eq, Structural, Debug)]
pub enum ShortcutAction {
    ToggleOverview,
    WindowSwitch,
}

/// Something the surface layer controller asks of the rest of the shell.
#[derive(Clone, Copy, PartialEq, Eq, Structural, Debug)]
pub enum ShellEffect {
    /// Move the surface to a layer.
    SetSurfaceLayer(SurfaceLayer),
    /// Change how the surface takes keyboard input.
    SetKeyboardInteractivity(KeyboardInteractivity),
    /// Ask the home screen to switch view.
    RequestHomeView(HomeView),
    /// Ask the launch controller to play the launch animation backwards.
    ReverseLaunchAnimation,
    /// Send a request to the window switcher.
    WindowSwitch(WindowSwitchRequest),
    /// Tell the launch controller that the shell lost focus.
    FocusLost,
}

/// What happened since the last frame, as the surface layer controller sees it.
#[derive(Clone, Copy, PartialEq, Eq, Structural, Debug)]
pub struct ShellFrameInput {
    pub current_home_view: HomeView,
    pub launch_is_active: bool,
    /// How many times the toggle-overview shortcut fired.
    pub toggle_count: usize,
    /// How many times the window-switch shortcut fired.
    pub window_switch_count: usize,
    pub alt_was_released: bool,
    pub previous_arrow_count: usize,
    pub next_arrow_count: usize,
    pub latest_focus_event: Option<FocusEvent>,
    pub hide_shell_requested: bool,
}

/// The controller's state, the shared current layer and the effects of a frame.
pub struct ShellFrame {
    pub state: SurfaceLayerControllerState,
    pub current_layer: SurfaceLayer,
    pub effects: Vec<ShellEffect>,
}

/// The mathematical view of a [`ShellFrame`].
pub struct ShellFrameView {
    pub state: SurfaceLayerControllerState,
    pub current_layer: SurfaceLayer,
    pub effects: Seq<ShellEffect>,
}

impl View for ShellFrame {
    type V = ShellFrameView;

    open spec fn view(&self) -> ShellFrameView {
        ShellFrameView {
            state: self.state,
            current_layer: self.current_layer,
            effects: self.effects@,
        }
    }
}

/// The shell brought to the front: top layer, exclusive keyboard, showing.
pub open spec fn shown(f: ShellFrameView) -> ShellFrameView {
    ShellFrameView {
        state: SurfaceLayerControllerState {
            visibility_transition: VisibilityTransition::Showing,
            ..f.state
        },
        current_layer: SurfaceLayer::Top,
        effects: f.effects.push(ShellEffect::SetSurfaceLayer(SurfaceLayer::Top)).push(
            ShellEffect::SetKeyboardInteractivity(KeyboardInteractivity::Exclusive),
        ),
    }
}

/// The shell sent away: no keyboard, background layer, hiding.
pub open spec fn hidden(f: ShellFrameView) -> ShellFrameView {
    ShellFrameView {
        state: SurfaceLayerControllerState {
            visibility_transition: VisibilityTransition::Hiding,
            ..f.state
        },
        current_layer: SurfaceLayer::Background,
        effects: f.effects.push(
            ShellEffect::SetKeyboardInteractivity(KeyboardInteractivity::Disabled),
        ).push(ShellEffect::SetSurfaceLayer(SurfaceLayer::Background)),
    }
}

/// `f` with one more effect.
pub open spec fn with_effect(f: ShellFrameView, effect: ShellEffect) -> ShellFrameView {
    ShellFrameView { effects: f.effects.push(effect), ..f }
}

/// `f` with a new controller state.
pub open spec fn with_state(
    f: ShellFrameView,
    state: SurfaceLayerControllerState,
) -> ShellFrameView {
    ShellFrameView { state, ..f }
}

/// `f` with a request for `view` unless the home screen already shows it.
pub open spec fn with_view_request(
    f: ShellFrameView,
    current: HomeView,
    view: HomeView,
) -> ShellFrameView {
    if current != view {
        with_effect(f, ShellEffect::RequestHomeView(view))
    } else {
        f
    }
}

/// A stale overview visit is forgotten once the overview is no longer shown.
pub open spec fn after_visit_check(f: ShellFrameView, input: ShellFrameInput) -> ShellFrameView {
    if f.state.overview_visit is Some && input.current_home_view != HomeView::Overview {
        with_state(f, SurfaceLayerControllerState { overview_visit: None, ..f.state })
    } else {
        f
    }
}

/// The reaction to the latest focus change: gaining focus brings the shell to
/// the top layer and ends a showing transition; losing focus ends a hiding
/// transition, or, during a launch, sends the shell to the background.
pub open spec fn after_focus(f: ShellFrameView, input: ShellFrameInput) -> ShellFrameView {
    match input.latest_focus_event {
        Some(FocusEvent::Gained) => {
            let on_top = ShellFrameView {
                current_layer: SurfaceLayer::Top,
                effects: f.effects.push(ShellEffect::SetSurfaceLayer(SurfaceLayer::Top)),
                ..f
            };
            if f.state.visibility_transition == VisibilityTransition::Showing {
                let with_keyboard = if !f.state.window_switch_is_active {
                    with_effect(
                        on_top,
                        ShellEffect::SetKeyboardInteractivity(KeyboardInteractivity::OnDemand),
                    )
                } else {
                    on_top
                };
                with_state(
                    with_keyboard,
                    SurfaceLayerControllerState {
                        visibility_transition: VisibilityTransition::Stable,
                        ..f.state
                    },
                )
            } else {
                on_top
            }
        },
        Some(FocusEvent::Lost) => if f.state.visibility_transition == VisibilityTransition::Hiding {
            with_state(
                with_effect(
                    f,
                    ShellEffect::SetKeyboardInteractivity(KeyboardInteractivity::OnDemand),
                ),
                SurfaceLayerControllerState {
                    visibility_transition: VisibilityTransition::Stable,
                    ..f.state
                },
            )
        } else if input.launch_is_active {
            ShellFrameView {
                current_layer: SurfaceLayer::Background,
                effects: f.effects.push(ShellEffect::FocusLost).push(
                    ShellEffect::SetSurfaceLayer(SurfaceLayer::Background),
                ),
                ..f
            }
        } else {
            f
        },
        None => f,
    }
}

/// A request to hide the shell, honoured unless a launch is running.
pub open spec fn after_hide(f: ShellFrameView, input: ShellFrameInput) -> ShellFrameView {
    if input.hide_shell_requested && !input.launch_is_active {
        hidden(
            with_state(
                f,
                SurfaceLayerControllerState {
                    overview_visit: None,
                    window_switch_is_active: false,
                    ..f.state
                },
            ),
        )
    } else {
        f
    }
}

/// During a launch, the overview toggle plays the launch backwards and shows
/// the overview, remembering what was shown before.
pub open spec fn reversed_to_overview(f: ShellFrameView, current: HomeView) -> ShellFrameView {
    let reversed = with_effect(f, ShellEffect::ReverseLaunchAnimation);
    let visited = if reversed.state.overview_visit is None {
        with_state(
            reversed,
            SurfaceLayerControllerState {
                overview_visit: Some(
                    OverviewVisit {
                        previous_home_view: current,
                        previous_surface_layer: reversed.current_layer,
                    },
                ),
                ..reversed.state
            },
        )
    } else {
        reversed
    };
    shown(with_view_request(visited, current, HomeView::Overview))
}

/// The overview toggle: ends an overview visit by restoring what was shown
/// before it; hides a shell that shows the overview on a visible layer;
/// otherwise opens the overview, bringing the shell forward from the
/// background when needed.
pub open spec fn toggled(f: ShellFrameView, current: HomeView) -> ShellFrameView {
    match f.state.overview_visit {
        Some(visit) => {
            let restored = with_view_request(f, current, visit.previous_home_view);
            let maybe_hidden = if visit.previous_surface_layer == SurfaceLayer::Background {
                hidden(restored)
            } else {
                restored
            };
            with_state(
                maybe_hidden,
                SurfaceLayerControllerState { overview_visit: None, ..maybe_hidden.state },
            )
        },
        None => if f.current_layer != SurfaceLayer::Background && current == HomeView::Overview {
            hidden(f)
        } else {
            let visited = with_state(
                f,
                SurfaceLayerControllerState {
                    overview_visit: Some(
                        OverviewVisit {
                            previous_home_view: current,
                            previous_surface_layer: f.current_layer,
                        },
                    ),
                    ..f.state
                },
            );
            let requested = with_view_request(visited, current, HomeView::Overview);
            if f.current_layer == SurfaceLayer::Background {
                shown(requested)
            } else {
                requested
            }
        },
    }
}

/// An odd number of overview toggles acts as one toggle; it also ends any
/// window switch session.
pub open spec fn after_toggle(f: ShellFrameView, input: ShellFrameInput) -> ShellFrameView {
    if !input.hide_shell_requested && input.toggle_count % 2 == 1 {
        let stopped = with_state(
            f,
            SurfaceLayerControllerState { window_switch_is_active: false, ..f.state },
        );
        if input.launch_is_active {
            reversed_to_overview(stopped, input.current_home_view)
        } else {
            toggled(stopped, input.current_home_view)
        }
    } else {
        f
    }
}

/// `f` followed by `count` copies of a window switch request.
pub open spec fn with_switch_requests(
    f: ShellFrameView,
    request: WindowSwitchRequest,
    count: nat,
) -> ShellFrameView {
    ShellFrameView {
        effects: f.effects + Seq::new(count, |i: int| ShellEffect::WindowSwitch(request)),
        ..f
    }
}

/// Window-switch shortcuts: the first one of a session starts it (it opens
/// the overview and shows the shell), every further one cycles forward.
pub open spec fn after_window_switch(f: ShellFrameView, input: ShellFrameInput) -> ShellFrameView {
    if !input.hide_shell_requested && input.window_switch_count > 0 {
        if f.state.window_switch_is_active {
            with_switch_requests(
                f,
                WindowSwitchRequest::CycleNext,
                input.window_switch_count as nat,
            )
        } else {
            let started = with_state(
                f,
                SurfaceLayerControllerState {
                    window_switch_is_active: true,
                    overview_visit: None,
                    ..f.state
                },
            );
            let reversed = if input.launch_is_active {
                with_effect(started, ShellEffect::ReverseLaunchAnimation)
            } else {
                started
            };
            let begun = with_effect(
                shown(with_view_request(reversed, input.current_home_view, HomeView::Overview)),
                ShellEffect::WindowSwitch(WindowSwitchRequest::Begin),
            );
            with_switch_requests(
                begun,
                WindowSwitchRequest::CycleNext,
                (input.window_switch_count - 1) as nat,
            )
        }
    } else {
        f
    }
}

/// Arrow keys cycle through the windows while a switch session is active.
pub open spec fn after_arrows(f: ShellFrameView, input: ShellFrameInput) -> ShellFrameView {
    if f.state.window_switch_is_active {
        with_switch_requests(
            with_switch_requests(
                f,
                WindowSwitchRequest::CyclePrevious,
                input.previous_arrow_count as nat,
            ),
            WindowSwitchRequest::CycleNext,
            input.next_arrow_count as nat,
        )
    } else {
        f
    }
}

/// Releasing Alt commits an active window switch session.
pub open spec fn after_commit(f: ShellFrameView, input: ShellFrameInput) -> ShellFrameView {
    if input.alt_was_released && f.state.window_switch_is_active {
        with_effect(
            with_state(
                with_effect(f, ShellEffect::WindowSwitch(WindowSwitchRequest::Commit)),
                SurfaceLayerControllerState { window_switch_is_active: false, ..f.state },
            ),
            ShellEffect::SetKeyboardInteractivity(KeyboardInteractivity::OnDemand),
        )
    } else {
        f
    }
}

/// One frame of the surface layer controller, from the state it kept and the
/// shared current layer.
pub open spec fn shell_frame_of(
    state: SurfaceLayerControllerState,
    current_layer: SurfaceLayer,
    input: ShellFrameInput,
) -> ShellFrameView {
    let start = ShellFrameView { state, current_layer, effects: Seq::empty() };
    after_commit(
        after_arrows(
            after_window_switch(
                after_toggle(
                    after_hide(after_focus(after_visit_check(start, input), input), input),
                    input,
                ),
                input,
            ),
            input,
        ),
        input,
    )
}

impl ShellFrame {
    fn push_effect(&mut self, effect: ShellEffect)
        ensures
            final(self)@ == with_effect(old(self)@, effect),
    {
        self.effects.push(effect);
    }

    fn show_shell(&mut self)
        ensures
            final(self)@ == shown(old(self)@),
    {
        self.effects.push(ShellEffect::SetSurfaceLayer(SurfaceLayer::Top));
        self.effects.push(ShellEffect::SetKeyboardInteractivity(KeyboardInteractivity::Exclusive));
        self.current_layer = SurfaceLayer::Top;
        self.state.visibility_transition = VisibilityTransition::Showing;
    }

    fn hide_shell(&mut self)
        ensures
            final(self)@ == hidden(old(self)@),
    {
        self.effects.push(ShellEffect::SetKeyboardInteractivity(KeyboardInteractivity::Disabled));
        self.effects.push(ShellEffect::SetSurfaceLayer(SurfaceLayer::Background));
        self.current_layer = SurfaceLayer::Background;
        self.state.visibility_transition = VisibilityTransition::Hiding;
    }

    fn request_view(&mut self, current: HomeView, view: HomeView)
        ensures
            final(self)@ == with_view_request(old(self)@, current, view),
    {
        if current != view {
            self.push_effect(ShellEffect::RequestHomeView(view));
        }
    }

    fn push_switch_requests(&mut self, request: WindowSwitchRequest, count: usize)
        ensures
            final(self)@ == with_switch_requests(old(self)@, request, count as nat),
    {
        let ghost start = self.effects@;
        let mut i: usize = 0;
        while i < count
            invariant
                0 <= i <= count,
                self.state == old(self).state,
                self.current_layer == old(self).current_layer,
                self.effects@ == start + Seq::new(
                    i as nat,
                    |k: int| ShellEffect::WindowSwitch(request),
                ),
            decreases count - i,
        {
            self.effects.push(ShellEffect::WindowSwitch(request));
            i = i + 1;
            assert(self.effects@ =~= start + Seq::new(
                i as nat,
                |k: int| ShellEffect::WindowSwitch(request),
            ));
        }
        assert(self.effects@ =~= with_switch_requests(old(self)@, request, count as nat).effects);
    }

    fn reverse_launch_animation_and_show_overview(&mut self, current_home_view: HomeView)
        ensures
            final(self)@ == reversed_to_overview(old(self)@, current_home_view),
    {
        self.push_effect(ShellEffect::ReverseLaunchAnimation);
        if self.state.overview_visit.is_none() {
            self.state.overview_visit = Some(
                OverviewVisit {
                    previous_home_view: current_home_view,
                    previous_surface_layer: self.current_layer,
                },
            );
        }
        self.request_view(current_home_view, HomeView::Overview);
        self.show_shell();
    }

    fn toggle_overview(&mut self, current_home_view: HomeView)
        ensures
            final(self)@ == toggled(old(self)@, current_home_view),
    {
        if let Some(active_visit) = self.state.overview_visit {
            self.request_view(current_home_view, active_visit.previous_home_view);
            if active_visit.previous_surface_layer == SurfaceLayer::Background {
                self.hide_shell();
            }
            self.state.overview_visit = None;
            return ;
        }
        let current_surface_layer = self.current_layer;
        if current_surface_layer != SurfaceLayer::Background && current_home_view
            == HomeView::Overview {
            self.hide_shell();
            return ;
        }
        self.state.overview_visit = Some(
            OverviewVisit {
                previous_home_view: current_home_view,
                previous_surface_layer: current_surface_layer,
            },
        );
        self.request_view(current_home_view, HomeView::Overview);
        if current_surface_layer == SurfaceLayer::Background {
            self.show_shell();
        }
    }
}

/// Runs the surface layer controller for one frame: from the state it kept,
/// the shared current layer and what happened since the last frame, computes
/// the next state, the next current layer and the effects to perform, in order.
pub fn surface_layer_frame(
    state: SurfaceLayerControllerState,
    current_layer: SurfaceLayer,
    input: ShellFrameInput,
) -> (frame: ShellFrame)
    ensures
        frame@ == shell_frame_of(state, current_layer, input),
{
    let mut frame = ShellFrame { state, current_layer, effects: Vec::new() };
    let ghost start = frame@;
    assert(start.effects =~= Seq::<ShellEffect>::empty());

    if frame.state.overview_visit.is_some() && input.current_home_view != HomeView::Overview {
        frame.state.overview_visit = None;
    }
    let ghost s1 = frame@;
    assert(s1 == after_visit_check(start, input));

    match input.latest_focus_event {
        Some(FocusEvent::Gained) => {
            frame.push_effect(ShellEffect::SetSurfaceLayer(SurfaceLayer::Top));
            frame.current_layer = SurfaceLayer::Top;
            if frame.state.visibility_transition == VisibilityTransition::Showing {
                if !frame.state.window_switch_is_active {
                    frame.push_effect(
                        ShellEffect::SetKeyboardInteractivity(KeyboardInteractivity::OnDemand),
                    );
                }
                frame.state.visibility_transition = VisibilityTransition::Stable;
            }
        },
        Some(FocusEvent::Lost) => {
            if frame.state.visibility_transition == VisibilityTransition::Hiding {
                frame.push_effect(
                    ShellEffect::SetKeyboardInteractivity(KeyboardInteractivity::OnDemand),
                );
                frame.state.visibility_transition = VisibilityTransition::Stable;
            } else if input.launch_is_active {
                frame.push_effect(ShellEffect::FocusLost);
                frame.push_effect(ShellEffect::SetSurfaceLayer(SurfaceLayer::Background));
                frame.current_layer = SurfaceLayer::Background;
            }
        },
        None => {},
    }
    let ghost s2 = frame@;
    assert(s2 == after_focus(s1, input));

    if input.hide_shell_requested && !input.launch_is_active {
        frame.state.overview_visit = None;
        frame.state.window_switch_is_active = false;
        frame.hide_shell();
    }
    let ghost s3 = frame@;
    assert(s3 == after_hide(s2, input));

    if !input.hide_shell_requested && input.toggle_count % 2 == 1 {
        frame.state.window_switch_is_active = false;
        if input.launch_is_active {
            frame.reverse_launch_animation_and_show_overview(input.current_home_view);
        } else {
            frame.toggle_overview(input.current_home_view);
        }
    }
    let ghost s4 = frame@;
    assert(s4 == after_toggle(s3, input));

    if !input.hide_shell_requested && input.window_switch_count > 0 {
        let cycle_request_count = if frame.state.window_switch_is_active {
            input.window_switch_count
        } else {
            frame.state.window_switch_is_active = true;
            frame.state.overview_visit = None;
            if input.launch_is_active {
                frame.push_effect(ShellEffect::ReverseLaunchAnimation);
            }
            frame.request_view(input.current_home_view, HomeView::Overview);
            frame.show_shell();
            frame.push_effect(ShellEffect::WindowSwitch(WindowSwitchRequest::Begin));
            input.window_switch_count - 1
        };
        frame.push_switch_requests(WindowSwitchRequest::CycleNext, cycle_request_count);
    }
    let ghost s5 = frame@;
    assert(s5 == after_window_switch(s4, input));

    if frame.state.window_switch_is_active {
        frame.push_switch_requests(WindowSwitchRequest::CyclePrevious, input.previous_arrow_count);
        frame.push_switch_requests(WindowSwitchRequest::CycleNext, input.next_arrow_count);
    }
    let ghost s6 = frame@;
    assert(s6 == after_arrows(s5, input));

    if input.alt_was_released && frame.state.window_switch_is_active {
        frame.push_effect(ShellEffect::WindowSwitch(WindowSwitchRequest::Commit));
        frame.state.window_switch_is_active = false;
        frame.push_effect(ShellEffect::SetKeyboardInteractivity(KeyboardInteractivity::OnDemand));
    }
    frame
}


/// A keyboard key, as far as the window switcher tells keys apart.
#[derive(Clone, Copy, PartialEq, Eq, Structural, Debug)]
pub enum Key {
    Alt,
    AltGraph,
    AltLeft,
    AltRight,
    ArrowLeft,
    ArrowRight,
    Other,
}

/// Whether a key went down or up.
#[derive(Clone, Copy, PartialEq, Eq, Structural, Debug)]
pub enum KeyState {
    Pressed,
    Released,
}

/// A key going down or up.
#[derive(Clone, Copy, PartialEq, Eq, Structural, Debug)]
pub struct KeyEvent {
    pub key: Key,
    pub state: KeyState,
}

/// The window switch request that a key event asks for: pressing the left or
/// right arrow cycles backward or forward.
pub open spec fn navigation_request_of(event: KeyEvent) -> Option<WindowSwitchRequest> {
    if event.state != KeyState::Pressed {
        None
    } else if event.key == Key::ArrowLeft {
        Some(WindowSwitchRequest::CyclePrevious)
    } else if event.key == Key::ArrowRight {
        Some(WindowSwitchRequest::CycleNext)
    } else {
        None
    }
}

/// Whether a key event releases one of the Alt keys.
pub open spec fn is_alt_release(event: KeyEvent) -> bool {
    event.state == KeyState::Released && (event.key == Key::Alt || event.key == Key::AltGraph
        || event.key == Key::AltLeft || event.key == Key::AltRight)
}

/// The window switch request that a key event asks for.
pub fn window_switch_navigation_request(event: KeyEvent) -> (request: Option<WindowSwitchRequest>)
    ensures
        request == navigation_request_of(event),
{
    if event.state != KeyState::Pressed {
        return None;
    }
    match event.key {
        Key::ArrowLeft => Some(WindowSwitchRequest::CyclePrevious),
        Key::ArrowRight => Some(WindowSwitchRequest::CycleNext),
        _ => None,
    }
}

/// Whether a key event releases one of the Alt keys.
pub fn alt_release_event(event: KeyEvent) -> (released: bool)
    ensures
        released == is_alt_release(event),
{
    event.state == KeyState::Released && matches!(
        event.key,
        Key::Alt | Key::AltGraph | Key::AltLeft | Key::AltRight
    )
}

/// How many of `events` ask for `request`.
pub open spec fn count_requests(events: Seq<KeyEvent>, request: WindowSwitchRequest) -> nat
    decreases events.len(),
{
    if events.len() == 0 {
        0
    } else {
        count_requests(events.drop_last(), request) + if navigation_request_of(events.last())
            == Some(request) {
            1nat
        } else {
            0nat
        }
    }
}

/// What the key events of a frame mean to the window switcher.
#[derive(Clone, Copy, PartialEq, Eq, Structural, Debug)]
pub struct KeyboardSummary {
    pub alt_was_released: bool,
    pub previous_arrow_count: usize,
    pub next_arrow_count: usize,
}

proof fn lemma_count_requests_bounded(events: Seq<KeyEvent>, request: WindowSwitchRequest)
    ensures
        count_requests(events, request) <= events.len(),
    decreases events.len(),
{
    if events.len() > 0 {
        lemma_count_requests_bounded(events.drop_last(), request);
    }
}

/// Whether some Alt key was released, and how many backward and forward arrow
/// presses there were.
pub fn keyboard_summary(events: &Vec<KeyEvent>) -> (summary: KeyboardSummary)
    ensures
        summary.alt_was_released == exists|i: int|
            0 <= i < events@.len() && is_alt_release(#[trigger] events@[i]),
        summary.previous_arrow_count == count_requests(
            events@,
            WindowSwitchRequest::CyclePrevious,
        ),
        summary.next_arrow_count == count_requests(events@, WindowSwitchRequest::CycleNext),
{
    let mut alt_was_released = false;
    let mut previous_arrow_count: usize = 0;
    let mut next_arrow_count: usize = 0;
    let mut i: usize = 0;
    while i < events.len()
        invariant
            0 <= i <= events.len(),
            alt_was_released == exists|k: int| 0 <= k < i && is_alt_release(#[trigger] events@[k]),
            previous_arrow_count == count_requests(
                events@.take(i as int),
                WindowSwitchRequest::CyclePrevious,
            ),
            next_arrow_count == count_requests(
                events@.take(i as int),
                WindowSwitchRequest::CycleNext,
            ),
        decreases events.len() - i,
    {
        let event = events[i];
        proof {
            assert(events@.take(i + 1).drop_last() =~= events@.take(i as int));
            lemma_count_requests_bounded(
                events@.take(i as int),
                WindowSwitchRequest::CyclePrevious,
            );
            lemma_count_requests_bounded(events@.take(i as int), WindowSwitchRequest::CycleNext);
        }
        match window_switch_navigation_request(event) {
            Some(WindowSwitchRequest::CyclePrevious) => {
                previous_arrow_count = previous_arrow_count + 1;
            },
            Some(WindowSwitchRequest::CycleNext) => {
                next_arrow_count = next_arrow_count + 1;
            },
            _ => {
                alt_was_released = alt_was_released || alt_release_event(event);
            },
        }
        proof {
            if is_alt_release(event) {
                assert(navigation_request_of(event) is None);
            }
        }
        i = i + 1;
    }
    assert(events@.take(events.len() as int) =~= events@);
    KeyboardSummary { alt_was_released, previous_arrow_count, next_arrow_count }
}

/// A window event, as far as focus handling tells events apart.
#[derive(Clone, Copy, PartialEq, Eq, Structural, Debug)]
pub enum WindowEventKind {
    FocusGained,
    FocusLost,
    Other,
}

/// The focus change that a window event stands for.
pub open spec fn focus_event_of(event: WindowEventKind) -> Option<FocusEvent> {
    match event {
        WindowEventKind::FocusGained => Some(FocusEvent::Gained),
        WindowEventKind::FocusLost => Some(FocusEvent::Lost),
        WindowEventKind::Other => None,
    }
}

/// The last focus change among `events`.
pub open spec fn latest_focus_of(events: Seq<WindowEventKind>) -> Option<FocusEvent>
    decreases events.len(),
{
    if events.len() == 0 {
        None
    } else if focus_event_of(events.last()) is Some {
        focus_event_of(events.last())
    } else {
        latest_focus_of(events.drop_last())
    }
}

/// The focus change that a window event stands for.
pub fn focus_event(event: WindowEventKind) -> (focus: Option<FocusEvent>)
    ensures
        focus == focus_event_of(event),
{
    match event {
        WindowEventKind::FocusGained => Some(FocusEvent::Gained),
        WindowEventKind::FocusLost => Some(FocusEvent::Lost),
        WindowEventKind::Other => None,
    }
}

/// The last focus change among the window events of a frame.
pub fn latest_focus_event(events: &Vec<WindowEventKind>) -> (focus: Option<FocusEvent>)
    ensures
        focus == latest_focus_of(events@),
{
    let mut i: usize = events.len();
    assert(events@.take(i as int) =~= events@);
    while i > 0
        invariant
            0 <= i <= events.len(),
            latest_focus_of(events@) == latest_focus_of(events@.take(i as int)),
        decreases i,
    {
        assert(events@.take(i as int).drop_last() =~= events@.take(i - 1));
        let focus = focus_event(events[i - 1]);
        if focus.is_some() {
            return focus;
        }
        i = i - 1;
    }
    None
}

/// Whether the window lost focus during the frame.
pub fn focus_was_lost(events: &Vec<WindowEventKind>) -> (lost: bool)
    ensures
        lost == exists|i: int|
            0 <= i < events@.len() && #[trigger] events@[i] == WindowEventKind::FocusLost,
{
    let mut i: usize = 0;
    while i < events.len()
        invariant
            0 <= i <= events.len(),
            forall|k: int| 0 <= k < i ==> #[trigger] events@[k] != WindowEventKind::FocusLost,
        decreases events.len() - i,
    {
        if events[i] == WindowEventKind::FocusLost {
            return true;
        }
        i = i + 1;
    }
    false
}

/// The shortcut that the compositor shortcut `shortcut_id` stands for, given
/// the identifiers of the toggle-overview and window-switch shortcuts.
pub fn shortcut_action(
    shortcut_id: &str,
    toggle_overview_shortcut_id: &str,
    window_switch_shortcut_id: &str,
) -> (action: Option<ShortcutAction>)
    ensures
        action == if shortcut_id@ == toggle_overview_shortcut_id@ {
            Some(ShortcutAction::ToggleOverview)
        } else if shortcut_id@ == window_switch_shortcut_id@ {
            Some(ShortcutAction::WindowSwitch)
        } else {
            None
        },
{
    if str_eq(shortcut_id, toggle_overview_shortcut_id) {
        Some(ShortcutAction::ToggleOverview)
    } else if str_eq(shortcut_id, window_switch_shortcut_id) {
        Some(ShortcutAction::WindowSwitch)
    } else {
        None
    }
}

/// How many of `actions` are `action`.
pub open spec fn count_shortcuts(actions: Seq<ShortcutAction>, action: ShortcutAction) -> nat
    decreases actions.len(),
{
    if actions.len() == 0 {
        0
    } else {
        count_shortcuts(actions.drop_last(), action) + if actions.last() == action {
            1nat
        } else {
            0nat
        }
    }
}

proof fn lemma_count_shortcuts_bounded(actions: Seq<ShortcutAction>, action: ShortcutAction)
    ensures
        count_shortcuts(actions, action) <= actions.len(),
    decreases actions.len(),
{
    if actions.len() > 0 {
        lemma_count_shortcuts_bounded(actions.drop_last(), action);
    }
}

/// How many toggle-overview and how many window-switch shortcuts fired.
pub fn shortcut_counts(actions: &Vec<ShortcutAction>) -> (counts: (usize, usize))
    ensures
        counts.0 == count_shortcuts(actions@, ShortcutAction::ToggleOverview),
        counts.1 == count_shortcuts(actions@, ShortcutAction::WindowSwitch),
{
    let mut toggle_count: usize = 0;
    let mut window_switch_count: usize = 0;
    let mut i: usize = 0;
    while i < actions.len()
        invariant
            0 <= i <= actions.len(),
            toggle_count == count_shortcuts(actions@.take(i as int), ShortcutAction::ToggleOverview),
            window_switch_count == count_shortcuts(
                actions@.take(i as int),
                ShortcutAction::WindowSwitch,
            ),
        decreases actions.len() - i,
    {
        proof {
            assert(actions@.take(i + 1).drop_last() =~= actions@.take(i as int));
            lemma_count_shortcuts_bounded(actions@.take(i as int), ShortcutAction::ToggleOverview);
            lemma_count_shortcuts_bounded(actions@.take(i as int), ShortcutAction::WindowSwitch);
        }
        match actions[i] {
            ShortcutAction::ToggleOverview => {
                toggle_count = toggle_count + 1;
            },
            ShortcutAction::WindowSwitch => {
                window_switch_count = window_switch_count + 1;
            },
        }
        i = i + 1;
    }
    assert(actions@.take(actions.len() as int) =~= actions@);
    (toggle_count, window_switch_count)
}

} // verus!
