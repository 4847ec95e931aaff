use momo_ui::overview::{
    OverviewCardPosition, OverviewCardResponse, OverviewCardSlot, OverviewCarouselAction,
    OverviewCarouselState, PageScrollDirection, WindowSwitchRequest, focused_card_index,
    overview_card_position, overview_card_response, overview_card_slot,
    overview_card_surface_colors, overview_carousel_frame, placeholder_card_color,
};
use momo_ui::color::Color;

fn state_at(card_count: usize, active: usize) -> OverviewCarouselState {
    let mut state = OverviewCarouselState::new();
    state.reconcile(card_count, Some(active));
    state
}

#[test]
fn reconcile_keeps_prefers_or_centres() {
    let mut state = OverviewCarouselState::default();
    state.reconcile(5, None);
    assert_eq!(state.active_card_index(), Some(2));
    state.reconcile(5, Some(4));
    assert_eq!(state.active_card_index(), Some(2));
    state.reconcile(2, Some(1));
    assert_eq!(state.active_card_index(), Some(1));
    state.reconcile(1, Some(7));
    assert_eq!(state.active_card_index(), Some(0));
    state.reconcile(0, Some(0));
    assert_eq!(state.active_card_index(), None);
}

#[test]
fn reconcile_twice_is_reconcile_once() {
    let mut once = OverviewCarouselState::new();
    once.reconcile(4, Some(3));
    let mut twice = once;
    twice.reconcile(4, Some(0));
    assert_eq!(once, twice);
}

#[test]
fn show_steps_stop_at_the_ends() {
    let mut state = state_at(3, 0);
    state.apply(OverviewCarouselAction::ShowPrevious, 3);
    assert_eq!(state.active_card_index(), Some(0));
    state.apply(OverviewCarouselAction::ShowNext, 3);
    state.apply(OverviewCarouselAction::ShowNext, 3);
    assert_eq!(state.active_card_index(), Some(2));
    state.apply(OverviewCarouselAction::ShowNext, 3);
    assert_eq!(state.active_card_index(), Some(2));
    state.apply(OverviewCarouselAction::ShowPrevious, 3);
    assert_eq!(state.active_card_index(), Some(1));
}

#[test]
fn cycle_steps_wrap_around_and_undo_each_other() {
    let mut state = state_at(3, 2);
    state.apply(OverviewCarouselAction::CycleNext, 3);
    assert_eq!(state.active_card_index(), Some(0));
    state.apply(OverviewCarouselAction::CyclePrevious, 3);
    assert_eq!(state.active_card_index(), Some(2));
    let start = state_at(4, 1);
    let mut cycled = start;
    for _ in 0..4 {
        cycled.apply(OverviewCarouselAction::CycleNext, 4);
    }
    assert_eq!(cycled, start);
    let mut empty = OverviewCarouselState::new();
    empty.apply(OverviewCarouselAction::CyclePrevious, 3);
    assert_eq!(empty.active_card_index(), Some(2));
    empty.apply(OverviewCarouselAction::CycleNext, 0);
    assert_eq!(empty.active_card_index(), None);
    let mut fresh = OverviewCarouselState::new();
    fresh.apply(OverviewCarouselAction::CycleNext, 3);
    assert_eq!(fresh.active_card_index(), Some(0));
}

#[test]
fn window_switch_begins_on_the_focused_window() {
    let mut state = state_at(4, 0);
    state.begin_window_switch(4, Some(3));
    assert_eq!(state.active_card_index(), Some(3));
    state.begin_window_switch(2, Some(3));
    assert_eq!(state.active_card_index(), Some(1));
}

#[test]
fn neighbours_of_the_front_card() {
    let state = state_at(3, 1);
    assert_eq!(state.previous_card_index(), Some(0));
    assert_eq!(state.next_card_index(3), Some(2));
    let first = state_at(3, 0);
    assert_eq!(first.previous_card_index(), None);
    assert_eq!(state_at(3, 2).next_card_index(3), None);
}

#[test]
fn card_positions_and_slots_agree() {
    let state = state_at(5, 2);
    let positions: Vec<OverviewCardPosition> =
        (0..5).map(|i| overview_card_position(i, state, 5)).collect();
    assert_eq!(
        positions,
        vec![
            OverviewCardPosition::Hidden,
            OverviewCardPosition::Previous,
            OverviewCardPosition::Active,
            OverviewCardPosition::Next,
            OverviewCardPosition::Hidden,
        ]
    );
    let slots: Vec<OverviewCardSlot> = (0..5).map(|i| overview_card_slot(i, 2)).collect();
    assert_eq!(
        slots,
        vec![
            OverviewCardSlot::OffLeft,
            OverviewCardSlot::LeftNeighbor,
            OverviewCardSlot::Active,
            OverviewCardSlot::RightNeighbor,
            OverviewCardSlot::OffRight,
        ]
    );
    assert_eq!(overview_card_slot(usize::MAX, 0), OverviewCardSlot::OffRight);
}

#[test]
fn card_position_tags_actions_and_interactivity() {
    assert_eq!(OverviewCardPosition::Previous.tag(), "overview-card-previous");
    assert_eq!(OverviewCardPosition::Active.tag(), "overview-card-active");
    assert_eq!(OverviewCardPosition::Next.tag(), "overview-card-next");
    assert_eq!(OverviewCardPosition::Hidden.tag(), "overview-card-hidden");
    assert_eq!(OverviewCardPosition::Previous.action(), Some(OverviewCarouselAction::ShowPrevious));
    assert_eq!(OverviewCardPosition::Next.action(), Some(OverviewCarouselAction::ShowNext));
    assert_eq!(OverviewCardPosition::Active.action(), None);
    assert!(!OverviewCardPosition::Hidden.is_interactive());
    assert!(OverviewCardPosition::Active.is_interactive());
}

#[test]
fn card_responses() {
    assert_eq!(
        overview_card_response(OverviewCardPosition::Active, true, false, true),
        OverviewCardResponse::FocusView
    );
    assert_eq!(
        overview_card_response(OverviewCardPosition::Active, true, true, false),
        OverviewCardResponse::Idle
    );
    assert_eq!(
        overview_card_response(OverviewCardPosition::Next, false, true, true),
        OverviewCardResponse::Navigate(OverviewCarouselAction::ShowNext)
    );
    assert_eq!(
        overview_card_response(OverviewCardPosition::Hidden, true, true, true),
        OverviewCardResponse::Idle
    );
    assert_eq!(
        overview_card_response(OverviewCardPosition::Previous, false, false, true),
        OverviewCardResponse::Idle
    );
}

#[test]
fn carousel_frame_runs_actions_switches_and_scroll_in_order() {
    let frame = overview_carousel_frame(
        OverviewCarouselState::new(),
        4,
        Some(1),
        &vec![OverviewCarouselAction::ShowNext],
        &vec![WindowSwitchRequest::CycleNext, WindowSwitchRequest::Commit],
        Some(PageScrollDirection::Previous),
        true,
    );
    assert_eq!(frame.state.active_card_index(), Some(2));
    assert_eq!(frame.focus_card_index, Some(2));

    let begun = overview_carousel_frame(
        state_at(4, 0),
        4,
        Some(3),
        &vec![],
        &vec![WindowSwitchRequest::Begin, WindowSwitchRequest::CyclePrevious],
        None,
        false,
    );
    assert_eq!(begun.state.active_card_index(), Some(2));
    assert_eq!(begun.focus_card_index, None);

    let empty = overview_carousel_frame(
        state_at(4, 3),
        0,
        None,
        &vec![OverviewCarouselAction::CycleNext],
        &vec![WindowSwitchRequest::Commit],
        Some(PageScrollDirection::Next),
        true,
    );
    assert_eq!(empty.state.active_card_index(), None);
    assert_eq!(empty.focus_card_index, None);
}

#[test]
fn focused_window_card() {
    assert_eq!(focused_card_index(&vec![false, true, true]), Some(1));
    assert_eq!(focused_card_index(&vec![false, false]), None);
    assert_eq!(focused_card_index(&vec![]), None);
}

#[test]
fn card_colours() {
    assert_eq!(
        placeholder_card_color(0, OverviewCardPosition::Active, false, false),
        Color::from_rgb(220, 225, 230)
    );
    assert_eq!(
        placeholder_card_color(5, OverviewCardPosition::Next, false, false),
        Color::from_rgb(201, 194, 185)
    );
    assert_eq!(
        placeholder_card_color(1, OverviewCardPosition::Hidden, true, false),
        Color::from_rgb(190, 199, 206)
    );
    assert_eq!(
        placeholder_card_color(1, OverviewCardPosition::Hidden, false, false),
        Color::transparent()
    );
    let (background, border) =
        overview_card_surface_colors(1, OverviewCardPosition::Previous, false, true, false);
    assert_eq!(background, Color::from_rgb(235, 241, 246));
    assert_eq!(border, Color::from_rgba(238, 246, 255, 174));
    assert_eq!(
        overview_card_surface_colors(1, OverviewCardPosition::Hidden, true, true, true),
        (Color::transparent(), Color::transparent())
    );
}
