//! Laws of the launch transition.
use vstd::prelude::*;
use crate::app_state::first_result_failed;
use crate::launch::{
    LaunchAnimationProgress, LaunchControllerState, LaunchFrameInput, LaunchOverlayAnimationState,
    LaunchPhase, LaunchRestoreFocus, LaunchTransitionState, animation_started, last_begin,
    last_contracted, last_expanded, launch_state_after, report_due,
};

verus! {

/// Cancelling a launch that is growing or waiting for its window makes it
/// shrink back, with the same request.
pub proof fn law_cancel_reverses_a_running_launch<G>(
    state: LaunchControllerState<G>,
    input: LaunchFrameInput<G>,
)
    requires
        state.launch is Some,
        state.launch->0.phase != LaunchPhase::Contracting,
        input.cancel_pressed,
        last_begin(input.requests@) is None,
    ensures
        launch_state_after(state, input).launch == Some(
            LaunchTransitionState {
                request: state.launch->0.request,
                phase: LaunchPhase::Contracting,
            },
        ),
{
}

/// When the shell loses focus to the launched app, or the launcher reports
/// that the launch failed, a growing or waiting launch shrinks back, and a
/// launch requested in the same frame is dropped.
pub proof fn law_focus_loss_or_failure_reverses_the_launch<G>(
    state: LaunchControllerState<G>,
    input: LaunchFrameInput<G>,
)
    requires
        state.launch is Some,
        state.launch->0.phase != LaunchPhase::Contracting,
        input.window_focus_lost || first_result_failed(
            input.launch_results@,
            state.launch->0.request.app_id@,
        ),
    ensures
        launch_state_after(state, input).launch == Some(
            LaunchTransitionState {
                request: state.launch->0.request,
                phase: LaunchPhase::Contracting,
            },
        ),
{
}

/// Once a shrinking launch reports that it contracted, it ends, and focus is
/// to go back to where the launch started: the app's tile or its dock icon.
pub proof fn law_contracted_launch_ends_and_restores_focus<G>(
    state: LaunchControllerState<G>,
    input: LaunchFrameInput<G>,
)
    requires
        state.launch is Some,
        state.launch->0.phase == LaunchPhase::Contracting,
        last_begin(input.requests@) is None,
        last_contracted(input.overlay_events@) == Some(state.launch->0.request.app_id@),
    ensures
        launch_state_after(state, input).launch is None,
        match state.launch->0.request.restore_focus {
            LaunchRestoreFocus::AppGrid => launch_state_after(state, input).restore_focus_app_id
                == Some(state.launch->0.request.app_id) && launch_state_after(
                state,
                input,
            ).restore_dock_focus is None,
            LaunchRestoreFocus::Dock(key) => launch_state_after(state, input).restore_dock_focus
                == Some((state.launch->0.request.app_id, key)) && launch_state_after(
                state,
                input,
            ).restore_focus_app_id is None,
        },
{
}

/// Cancelling a launch and then seeing it contract ends it and gives focus back
/// to the tile it started from.
pub proof fn law_cancel_then_contraction_returns_focus_to_the_tile<G>(
    state: LaunchControllerState<G>,
    cancel: LaunchFrameInput<G>,
    contraction: LaunchFrameInput<G>,
)
    requires
        state.launch is Some,
        state.launch->0.phase != LaunchPhase::Contracting,
        state.launch->0.request.restore_focus is AppGrid,
        cancel.cancel_pressed,
        last_begin(cancel.requests@) is None,
        last_begin(contraction.requests@) is None,
        last_contracted(contraction.overlay_events@) == Some(state.launch->0.request.app_id@),
    ensures
        launch_state_after(launch_state_after(state, cancel), contraction).launch is None,
        launch_state_after(launch_state_after(state, cancel), contraction).restore_focus_app_id
            == Some(state.launch->0.request.app_id),
{
    law_cancel_reverses_a_running_launch(state, cancel);
    law_contracted_launch_ends_and_restores_focus(launch_state_after(state, cancel), contraction);
}

/// With no launch running, the last requested launch starts growing, and the
/// memory of where focus went back to last time is dropped.
pub proof fn law_requested_launch_starts_expanding<G>(
    state: LaunchControllerState<G>,
    input: LaunchFrameInput<G>,
)
    requires
        state.launch is None,
        last_begin(input.requests@) is Some,
        !input.cancel_pressed,
        forall|i: int|
            0 <= i < input.requests@.len() ==> !(#[trigger] input.requests@[i]
                is ReverseLaunchAnimation),
        last_expanded(input.overlay_events@) != Some(last_begin(input.requests@)->0.app_id@),
    ensures
        launch_state_after(state, input).launch == Some(
            LaunchTransitionState {
                request: last_begin(input.requests@)->0,
                phase: LaunchPhase::Expanding,
            },
        ),
        launch_state_after(state, input).restore_focus_app_id is None,
        launch_state_after(state, input).restore_dock_focus is None,
{
}

/// The overlay reports a finished growth or shrink once: right after sending a
/// report, the same situation does not send it again.
pub proof fn law_overlay_reports_once(
    state: LaunchOverlayAnimationState,
    phase: LaunchPhase,
    progress: LaunchAnimationProgress,
)
    requires
        report_due(state, phase, progress) is Some,
    ensures
        ({
            let sent = LaunchOverlayAnimationState {
                expanded_event_sent: state.expanded_event_sent || report_due(
                    state,
                    phase,
                    progress,
                ) == Some(true),
                contracted_event_sent: state.contracted_event_sent || report_due(
                    state,
                    phase,
                    progress,
                ) == Some(false),
                ..state
            };
            report_due(sent, phase, progress) is None
        }),
{
}

/// One frame of the launch overlay for the app `app_id`: the overlay takes in
/// the launch's phase (`start_launch_animation`), then, from how its animation
/// stands, decides its report (`finish_launch_animation`). The report is
/// `Some(true)` for `Expanded`, `Some(false)` for `Contracted`.
pub open spec fn overlay_frame(
    state: LaunchOverlayAnimationState,
    app_id: Seq<char>,
    phase: LaunchPhase,
    progress: LaunchAnimationProgress,
) -> (LaunchOverlayAnimationState, Option<bool>) {
    let started = animation_started(state, app_id, phase).0;
    let due = report_due(started, phase, progress);
    (
        LaunchOverlayAnimationState {
            expanded_event_sent: started.expanded_event_sent || due == Some(true),
            contracted_event_sent: started.contracted_event_sent || due == Some(false),
            ..started
        },
        due,
    )
}

/// The overlay's memory after the first `n` of `frames`, each a phase and how
/// the animation stood, all for the app `app_id`.
pub open spec fn overlay_state_after(
    state: LaunchOverlayAnimationState,
    app_id: Seq<char>,
    frames: Seq<(LaunchPhase, LaunchAnimationProgress)>,
    n: nat,
) -> LaunchOverlayAnimationState
    decreases n,
{
    if n == 0 {
        state
    } else {
        overlay_frame(
            overlay_state_after(state, app_id, frames, (n - 1) as nat),
            app_id,
            frames[n - 1].0,
            frames[n - 1].1,
        ).0
    }
}

/// The overlay's report in frame `k` of `frames`.
pub open spec fn overlay_report_at(
    state: LaunchOverlayAnimationState,
    app_id: Seq<char>,
    frames: Seq<(LaunchPhase, LaunchAnimationProgress)>,
    k: nat,
) -> Option<bool> {
    overlay_frame(overlay_state_after(state, app_id, frames, k), app_id, frames[k as int].0,
        frames[k as int].1).1
}

/// Frame `k` enters `phase`: the launch is in `phase` there and was not in
/// the frame before.
pub open spec fn enters_phase(
    frames: Seq<(LaunchPhase, LaunchAnimationProgress)>,
    k: int,
    phase: LaunchPhase,
) -> bool {
    1 <= k < frames.len() && frames[k].0 == phase && frames[k - 1].0 != phase
}

/// Once the overlay plays the app, it keeps playing it, and its phase is the
/// one of the last frame.
proof fn lemma_overlay_phase_after(
    state: LaunchOverlayAnimationState,
    app_id: Seq<char>,
    frames: Seq<(LaunchPhase, LaunchAnimationProgress)>,
    n: nat,
)
    requires
        state.current_app_id is Some,
        state.current_app_id->0@ == app_id,
        n <= frames.len(),
    ensures
        overlay_state_after(state, app_id, frames, n).current_app_id == state.current_app_id,
        n >= 1 ==> overlay_state_after(state, app_id, frames, n).current_phase == Some(
            frames[n - 1].0,
        ),
    decreases n,
{
    if n > 0 {
        lemma_overlay_phase_after(state, app_id, frames, (n - 1) as nat);
    }
}

/// While the phase stays the same, the overlay's sent marks only grow.
proof fn lemma_overlay_marks_grow(
    state: LaunchOverlayAnimationState,
    app_id: Seq<char>,
    frames: Seq<(LaunchPhase, LaunchAnimationProgress)>,
    i: nat,
    m: nat,
)
    requires
        state.current_app_id is Some,
        state.current_app_id->0@ == app_id,
        i < m <= frames.len(),
        forall|k: int| i <= k < m ==> #[trigger] frames[k].0 == frames[i as int].0,
    ensures
        overlay_state_after(state, app_id, frames, (i + 1) as nat).expanded_event_sent
            ==> overlay_state_after(state, app_id, frames, m).expanded_event_sent,
        overlay_state_after(state, app_id, frames, (i + 1) as nat).contracted_event_sent
            ==> overlay_state_after(state, app_id, frames, m).contracted_event_sent,
    decreases m - i,
{
    if m > i + 1 {
        lemma_overlay_marks_grow(state, app_id, frames, i, (m - 1) as nat);
        lemma_overlay_phase_after(state, app_id, frames, (m - 1) as nat);
        assert(frames[m - 2].0 == frames[i as int].0);
        assert(frames[m - 1].0 == frames[i as int].0);
    }
}

/// A frame in the same phase as the frame before does not reset the marks.
proof fn lemma_same_phase_keeps_marks(
    state: LaunchOverlayAnimationState,
    app_id: Seq<char>,
    frames: Seq<(LaunchPhase, LaunchAnimationProgress)>,
    j: nat,
)
    requires
        state.current_app_id is Some,
        state.current_app_id->0@ == app_id,
        1 <= j < frames.len(),
        frames[j - 1].0 == frames[j as int].0,
    ensures
        animation_started(overlay_state_after(state, app_id, frames, j), app_id, frames[j as int].0)
            .0 == overlay_state_after(state, app_id, frames, j),
{
    lemma_overlay_phase_after(state, app_id, frames, j);
}

/// Without entering `phase` between frames `i` and `j`, a launch that is in
/// `phase` at `j` was in it all along since `i`.
proof fn lemma_no_entry_keeps_phase(
    frames: Seq<(LaunchPhase, LaunchAnimationProgress)>,
    phase: LaunchPhase,
    i: int,
    j: int,
)
    requires
        0 <= i <= j < frames.len(),
        frames[j].0 == phase,
        forall|k: int| i < k <= j ==> !enters_phase(frames, k, phase),
    ensures
        forall|k: int| i <= k <= j ==> #[trigger] frames[k].0 == phase,
    decreases j - i,
{
    if j > i {
        assert(!enters_phase(frames, j, phase));
        lemma_no_entry_keeps_phase(frames, phase, i, j - 1);
    }
}

/// Over successive frames of one launch, the overlay reports `Expanded` only
/// in the `Expanding` phase once its animation has stopped at the end, and
/// `Contracted` only in the `Contracting` phase once it has stopped at the
/// start; between two `Expanded` reports the launch enters `Expanding` anew,
/// and between two `Contracted` reports it enters `Contracting` anew.
pub proof fn law_overlay_reports_once_per_phase_entry(
    state: LaunchOverlayAnimationState,
    app_id: Seq<char>,
    frames: Seq<(LaunchPhase, LaunchAnimationProgress)>,
    i: nat,
    j: nat,
)
    requires
        state.current_app_id is Some,
        state.current_app_id->0@ == app_id,
        i < j < frames.len(),
    ensures
        overlay_report_at(state, app_id, frames, i) == Some(true) ==> frames[i as int].0
            == LaunchPhase::Expanding && !frames[i as int].1.is_running && frames[i as int].1.at_end,
        overlay_report_at(state, app_id, frames, i) == Some(false) ==> frames[i as int].0
            == LaunchPhase::Contracting && !frames[i as int].1.is_running
            && frames[i as int].1.at_start,
        overlay_report_at(state, app_id, frames, i) == Some(true) && overlay_report_at(
            state,
            app_id,
            frames,
            j,
        ) == Some(true) ==> exists|k: int|
            i < k <= j && #[trigger] enters_phase(frames, k, LaunchPhase::Expanding),
        overlay_report_at(state, app_id, frames, i) == Some(false) && overlay_report_at(
            state,
            app_id,
            frames,
            j,
        ) == Some(false) ==> exists|k: int|
            i < k <= j && #[trigger] enters_phase(frames, k, LaunchPhase::Contracting),
{
    let first = overlay_report_at(state, app_id, frames, i);
    let second = overlay_report_at(state, app_id, frames, j);
    if first is Some && first == second {
        let phase = if first == Some(true) {
            LaunchPhase::Expanding
        } else {
            LaunchPhase::Contracting
        };
        if !exists|k: int| i < k <= j && #[trigger] enters_phase(frames, k, phase) {
            assert forall|k: int| i < k <= j implies !enters_phase(frames, k, phase) by {}
            lemma_no_entry_keeps_phase(frames, phase, i as int, j as int);
            lemma_overlay_marks_grow(state, app_id, frames, i, j);
            lemma_same_phase_keeps_marks(state, app_id, frames, j);
            assert(frames[j - 1].0 == phase);
            assert(false);
        }
    }
}

} // verus!
