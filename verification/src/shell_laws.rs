//! Laws of the shell's surface layer controller.
use vstd::prelude::*;
use crate::overview::WindowSwitchRequest;
use crate::shell::{
    FocusEvent, HomeView, KeyboardInteractivity, OverviewVisit, ShellEffect, ShellFrameInput,
    SurfaceLayer,
    ShellFrameView, SurfaceLayerControllerState, VisibilityTransition, after_arrows, after_commit,
    after_focus, after_hide, after_toggle, after_visit_check, after_window_switch, shell_frame_of,
};

verus! {

/// A frame in which nothing asks the controller for anything.
pub open spec fn quiet_input(current_home_view: HomeView, launch_is_active: bool) -> ShellFrameInput {
    ShellFrameInput {
        current_home_view,
        launch_is_active,
        toggle_count: 0,
        window_switch_count: 0,
        alt_was_released: false,
        previous_arrow_count: 0,
        next_arrow_count: 0,
        latest_focus_event: None,
        hide_shell_requested: false,
    }
}

/// When the shell gains focus, its first effect moves it to the top layer, and
/// unless it is asked to hide, toggle or switch windows in the same frame it
/// stays there.
pub proof fn law_focus_gain_moves_shell_to_top(
    state: SurfaceLayerControllerState,
    current_layer: SurfaceLayer,
    input: ShellFrameInput,
)
    requires
        input.latest_focus_event == Some(FocusEvent::Gained),
    ensures
        shell_frame_of(state, current_layer, input).effects.len() > 0,
        shell_frame_of(state, current_layer, input).effects[0] == ShellEffect::SetSurfaceLayer(
            SurfaceLayer::Top,
        ),
        !input.hide_shell_requested && input.toggle_count % 2 == 0 && input.window_switch_count
            == 0 ==> shell_frame_of(state, current_layer, input).current_layer
            == SurfaceLayer::Top,
{
}

/// While a launch is running and nothing else is asked for, the shell leaves
/// for the background exactly when it loses focus (to the launched app), and
/// then it tells the launch controller so.
pub proof fn law_launch_moves_shell_to_background_only_on_focus_loss(
    state: SurfaceLayerControllerState,
    current_layer: SurfaceLayer,
    current_home_view: HomeView,
    latest_focus_event: Option<FocusEvent>,
)
    requires
        !state.window_switch_is_active,
        state.visibility_transition != VisibilityTransition::Hiding,
    ensures
        ({
            let input = ShellFrameInput {
                latest_focus_event,
                ..quiet_input(current_home_view, true)
            };
            let frame = shell_frame_of(state, current_layer, input);
            &&& latest_focus_event == Some(FocusEvent::Lost) ==> frame.effects == seq![
                ShellEffect::FocusLost,
                ShellEffect::SetSurfaceLayer(SurfaceLayer::Background),
            ] && frame.current_layer == SurfaceLayer::Background
            &&& latest_focus_event != Some(FocusEvent::Lost) ==> !frame.effects.contains(
                ShellEffect::SetSurfaceLayer(SurfaceLayer::Background),
            ) && frame.current_layer != SurfaceLayer::Background || (latest_focus_event
                is None && current_layer == SurfaceLayer::Background && frame.effects.len()
                == 0)
        }),
{
    let input = ShellFrameInput { latest_focus_event, ..quiet_input(current_home_view, true) };
    let frame = shell_frame_of(state, current_layer, input);
    if latest_focus_event == Some(FocusEvent::Gained) {
        if state.visibility_transition == VisibilityTransition::Showing {
            assert(frame.effects == seq![
                ShellEffect::SetSurfaceLayer(SurfaceLayer::Top),
                ShellEffect::SetKeyboardInteractivity(KeyboardInteractivity::OnDemand),
            ]);
        } else {
            assert(frame.effects == seq![ShellEffect::SetSurfaceLayer(SurfaceLayer::Top)]);
        }
    } else if latest_focus_event is None {
        assert(frame.effects == Seq::<ShellEffect>::empty());
    }
}

/// Hiding the shell outside a launch always ends on the background layer,
/// hiding, with no overview visit and no window switch session left.
pub proof fn law_hide_request_sends_shell_away(
    state: SurfaceLayerControllerState,
    current_layer: SurfaceLayer,
    input: ShellFrameInput,
)
    requires
        input.hide_shell_requested,
        !input.launch_is_active,
    ensures
        shell_frame_of(state, current_layer, input).current_layer == SurfaceLayer::Background,
        shell_frame_of(state, current_layer, input).state.visibility_transition
            == VisibilityTransition::Hiding,
        shell_frame_of(state, current_layer, input).state.overview_visit is None,
        !shell_frame_of(state, current_layer, input).state.window_switch_is_active,
{
}

/// Only the parity of the number of overview toggles in a frame matters.
pub proof fn law_toggles_cancel_in_pairs(
    state: SurfaceLayerControllerState,
    current_layer: SurfaceLayer,
    input: ShellFrameInput,
)
    requires
        input.toggle_count + 2 <= usize::MAX,
    ensures
        shell_frame_of(state, current_layer, input) == shell_frame_of(
            state,
            current_layer,
            ShellFrameInput { toggle_count: (input.toggle_count + 2) as usize, ..input },
        ),
{
    let other = ShellFrameInput { toggle_count: (input.toggle_count + 2) as usize, ..input };
    assert((input.toggle_count + 2) % 2 == input.toggle_count % 2);
    let s0 = ShellFrameView { state, current_layer, effects: Seq::empty() };
    let s1 = after_visit_check(s0, input);
    assert(s1 == after_visit_check(s0, other));
    let s2 = after_focus(s1, input);
    assert(s2 == after_focus(s1, other));
    let s3 = after_hide(s2, input);
    assert(s3 == after_hide(s2, other));
    let s4 = after_toggle(s3, input);
    assert(s4 == after_toggle(s3, other));
    let s5 = after_window_switch(s4, input);
    assert(s5 == after_window_switch(s4, other));
    let s6 = after_arrows(s5, input);
    assert(s6 == after_arrows(s5, other));
    assert(after_commit(s6, input) == after_commit(s6, other));
}

/// Toggling the overview from the apps view and toggling it again once the
/// overview is shown brings back the apps view and the layer the shell was on,
/// and forgets the visit.
pub proof fn law_toggling_twice_restores_the_shell(
    state: SurfaceLayerControllerState,
    current_layer: SurfaceLayer,
)
    requires
        state.overview_visit is None,
        !state.window_switch_is_active,
    ensures
        ({
            let first = shell_frame_of(
                state,
                current_layer,
                ShellFrameInput { toggle_count: 1, ..quiet_input(HomeView::Apps, false) },
            );
            let second = shell_frame_of(
                first.state,
                first.current_layer,
                ShellFrameInput { toggle_count: 1, ..quiet_input(HomeView::Overview, false) },
            );
            &&& first.effects.contains(ShellEffect::RequestHomeView(HomeView::Overview))
            &&& first.state.overview_visit is Some
            &&& second.effects.contains(ShellEffect::RequestHomeView(HomeView::Apps))
            &&& second.current_layer == current_layer
            &&& second.state.overview_visit is None
        }),
{
    let first = shell_frame_of(
        state,
        current_layer,
        ShellFrameInput { toggle_count: 1, ..quiet_input(HomeView::Apps, false) },
    );
    let second = shell_frame_of(
        first.state,
        first.current_layer,
        ShellFrameInput { toggle_count: 1, ..quiet_input(HomeView::Overview, false) },
    );
    assert(first.effects[0] == ShellEffect::RequestHomeView(HomeView::Overview));
    assert(second.effects[0] == ShellEffect::RequestHomeView(HomeView::Apps));
}

/// The overview toggle's round trip, outside a launch: toggling from a view
/// `v` other than the overview requests the overview and remembers `v` and the
/// layer `L` the shell was on, bringing the shell forward exactly when `L` is
/// the background; toggling again once the overview is shown requests `v`
/// back, sends the shell to the background exactly when `L` was the
/// background, and forgets the visit, so that the shell ends on `L`.
pub proof fn law_overview_toggle_round_trip(
    state: SurfaceLayerControllerState,
    current_layer: SurfaceLayer,
    view: HomeView,
)
    requires
        state.overview_visit is None,
        view != HomeView::Overview,
    ensures
        ({
            let first = shell_frame_of(
                state,
                current_layer,
                ShellFrameInput { toggle_count: 1, ..quiet_input(view, false) },
            );
            let second = shell_frame_of(
                first.state,
                first.current_layer,
                ShellFrameInput { toggle_count: 1, ..quiet_input(HomeView::Overview, false) },
            );
            &&& first.effects == if current_layer == SurfaceLayer::Background {
                seq![
                    ShellEffect::RequestHomeView(HomeView::Overview),
                    ShellEffect::SetSurfaceLayer(SurfaceLayer::Top),
                    ShellEffect::SetKeyboardInteractivity(KeyboardInteractivity::Exclusive),
                ]
            } else {
                seq![ShellEffect::RequestHomeView(HomeView::Overview)]
            }
            &&& first.state.overview_visit == Some(
                OverviewVisit { previous_home_view: view, previous_surface_layer: current_layer },
            )
            &&& second.effects == if current_layer == SurfaceLayer::Background {
                seq![
                    ShellEffect::RequestHomeView(view),
                    ShellEffect::SetKeyboardInteractivity(KeyboardInteractivity::Disabled),
                    ShellEffect::SetSurfaceLayer(SurfaceLayer::Background),
                ]
            } else {
                seq![ShellEffect::RequestHomeView(view)]
            }
            &&& second.state.overview_visit is None
            &&& second.current_layer == current_layer
        }),
{
    let first = shell_frame_of(
        state,
        current_layer,
        ShellFrameInput { toggle_count: 1, ..quiet_input(view, false) },
    );
    let second = shell_frame_of(
        first.state,
        first.current_layer,
        ShellFrameInput { toggle_count: 1, ..quiet_input(HomeView::Overview, false) },
    );
    if current_layer == SurfaceLayer::Background {
        assert(first.effects =~= seq![
            ShellEffect::RequestHomeView(HomeView::Overview),
            ShellEffect::SetSurfaceLayer(SurfaceLayer::Top),
            ShellEffect::SetKeyboardInteractivity(KeyboardInteractivity::Exclusive),
        ]);
        assert(second.effects =~= seq![
            ShellEffect::RequestHomeView(view),
            ShellEffect::SetKeyboardInteractivity(KeyboardInteractivity::Disabled),
            ShellEffect::SetSurfaceLayer(SurfaceLayer::Background),
        ]);
    } else {
        assert(first.effects =~= seq![ShellEffect::RequestHomeView(HomeView::Overview)]);
        assert(second.effects =~= seq![ShellEffect::RequestHomeView(view)]);
    }
}

/// A visit to the overview ends as soon as the home screen shows another
/// view: after a frame whose view is not the overview, and in which the
/// overview was not opened again (no odd number of toggles, or a request to
/// hide), the controller remembers no visit.
pub proof fn law_leaving_the_overview_forgets_the_visit(
    state: SurfaceLayerControllerState,
    current_layer: SurfaceLayer,
    input: ShellFrameInput,
)
    requires
        input.current_home_view != HomeView::Overview,
        input.toggle_count % 2 == 0 || input.hide_shell_requested,
    ensures
        shell_frame_of(state, current_layer, input).state.overview_visit is None,
{
}

/// After the overview was left for another view, the overview shortcut opens
/// it again: toggling in the next frame from a view other than the overview
/// requests the overview and remembers a fresh visit from that view.
pub proof fn law_overview_toggle_after_leaving_reopens_it(
    state: SurfaceLayerControllerState,
    current_layer: SurfaceLayer,
    left: ShellFrameInput,
    view: HomeView,
)
    requires
        left.current_home_view != HomeView::Overview,
        left.toggle_count % 2 == 0 || left.hide_shell_requested,
        view != HomeView::Overview,
    ensures
        ({
            let after_leaving = shell_frame_of(state, current_layer, left);
            let reopened = shell_frame_of(
                after_leaving.state,
                after_leaving.current_layer,
                ShellFrameInput { toggle_count: 1, ..quiet_input(view, false) },
            );
            &&& reopened.effects.len() > 0
            &&& reopened.effects[0] == ShellEffect::RequestHomeView(HomeView::Overview)
            &&& reopened.state.overview_visit == Some(
                OverviewVisit {
                    previous_home_view: view,
                    previous_surface_layer: after_leaving.current_layer,
                },
            )
        }),
{
}

/// A frame in which nothing happens changes nothing: without focus changes,
/// shortcuts, keys or requests, and with no stale overview visit, the
/// controller keeps its state and layer and asks for nothing.
pub proof fn law_quiet_frame_changes_nothing(
    state: SurfaceLayerControllerState,
    current_layer: SurfaceLayer,
    current_home_view: HomeView,
    launch_is_active: bool,
)
    requires
        state.overview_visit is None || current_home_view == HomeView::Overview,
    ensures
        shell_frame_of(state, current_layer, quiet_input(current_home_view, launch_is_active))
            == (ShellFrameView { state, current_layer, effects: Seq::empty() }),
{
}

/// A window switch session: the first window-switch shortcut opens the
/// overview on the top layer and begins the session; releasing Alt later
/// commits it and ends the session.
pub proof fn law_window_switch_session_begins_and_commits(
    state: SurfaceLayerControllerState,
    current_layer: SurfaceLayer,
    current_home_view: HomeView,
)
    requires
        !state.window_switch_is_active,
    ensures
        ({
            let started = shell_frame_of(
                state,
                current_layer,
                ShellFrameInput { window_switch_count: 1, ..quiet_input(current_home_view, false) },
            );
            let committed = shell_frame_of(
                started.state,
                started.current_layer,
                ShellFrameInput {
                    alt_was_released: true,
                    ..quiet_input(HomeView::Overview, false)
                },
            );
            &&& started.state.window_switch_is_active
            &&& started.current_layer == SurfaceLayer::Top
            &&& started.effects.last() == ShellEffect::WindowSwitch(WindowSwitchRequest::Begin)
            &&& !committed.state.window_switch_is_active
            &&& committed.effects == seq![
                ShellEffect::WindowSwitch(WindowSwitchRequest::Commit),
                ShellEffect::SetKeyboardInteractivity(KeyboardInteractivity::OnDemand),
            ]
        }),
{
    let started = shell_frame_of(
        state,
        current_layer,
        ShellFrameInput { window_switch_count: 1, ..quiet_input(current_home_view, false) },
    );
    let committed = shell_frame_of(
        started.state,
        started.current_layer,
        ShellFrameInput { alt_was_released: true, ..quiet_input(HomeView::Overview, false) },
    );
    assert(committed.effects =~= seq![
        ShellEffect::WindowSwitch(WindowSwitchRequest::Commit),
        ShellEffect::SetKeyboardInteractivity(KeyboardInteractivity::OnDemand),
    ]);
}

} // verus!
