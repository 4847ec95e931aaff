//! The window carousel of the overview: which open window is in front, how
//! the carousel reacts to navigation, and where each card is placed.
use vstd::prelude::*;
use crate::color::{Color, rgb, transparent};

verus! {

/// A navigation step of the carousel.
#[derive(Clone, Copy, PartialEq, Eq, Structural, Debug)]
pub enum OverviewCarouselAction {
    ShowPrevious,
    ShowNext,
    CyclePrevious,
    CycleNext,
}

/// A request of the window switcher (the Alt+Tab style session).
#[derive(Clone, Copy, PartialEq, Eq, Structural, Debug)]
pub enum WindowSwitchRequest {
    Begin,
    CyclePrevious,
    CycleNext,
    Commit,
}

/// The direction of a paging scroll gesture.
#[derive(Clone, Copy, PartialEq, Eq, Structural, Debug)]
pub enum PageScrollDirection {
    Previous,
    Next,
}

/// The active card after the carousel is brought in line with `card_count`
/// cards: kept while it still exists, otherwise the preferred card when it
/// exists, otherwise the middle card; none when there are no cards.
pub open spec fn reconciled(
    active: Option<usize>,
    card_count: usize,
    preferred: Option<usize>,
) -> Option<usize> {
    if card_count == 0 {
        None
    } else if active is Some && active->0 < card_count {
        active
    } else if preferred is Some && preferred->0 < card_count {
        preferred
    } else {
        Some((card_count / 2) as usize)
    }
}

/// The active card when a window switch begins: the focused window's card when
/// it exists, otherwise the reconciled card.
pub open spec fn begun(
    active: Option<usize>,
    card_count: usize,
    focused: Option<usize>,
) -> Option<usize> {
    if focused is Some && focused->0 < card_count {
        focused
    } else {
        reconciled(active, card_count, None)
    }
}

/// The card before the active one.
pub open spec fn previous_of(active: Option<usize>) -> Option<usize> {
    match active {
        Some(a) => if a > 0 { Some((a - 1) as usize) } else { None },
        None => None,
    }
}

/// The card after the active one, when there is such a card.
pub open spec fn next_of(active: Option<usize>, card_count: usize) -> Option<usize> {
    match active {
        Some(a) => if a + 1 < card_count { Some((a + 1) as usize) } else { None },
        None => None,
    }
}

/// The active card after one navigation step.
pub open spec fn applied(
    active: Option<usize>,
    action: OverviewCarouselAction,
    card_count: usize,
) -> Option<usize> {
    match action {
        OverviewCarouselAction::ShowPrevious => if previous_of(active) is Some {
            previous_of(active)
        } else {
            active
        },
        OverviewCarouselAction::ShowNext => if next_of(active, card_count) is Some {
            next_of(active, card_count)
        } else {
            active
        },
        OverviewCarouselAction::CyclePrevious => if card_count == 0 {
            None
        } else {
            match active {
                Some(a) => if a > 0 {
                    Some((a - 1) as usize)
                } else {
                    Some((card_count - 1) as usize)
                },
                None => Some((card_count - 1) as usize),
            }
        },
        OverviewCarouselAction::CycleNext => if card_count == 0 {
            None
        } else {
            match active {
                Some(a) => Some(((a + 1) % (card_count as int)) as usize),
                None => Some(0),
            }
        },
    }
}

/// The active card after the steps of `actions`, in order.
pub open spec fn applied_all(
    active: Option<usize>,
    actions: Seq<OverviewCarouselAction>,
    card_count: usize,
) -> Option<usize>
    decreases actions.len(),
{
    if actions.len() == 0 {
        active
    } else {
        applied(applied_all(active, actions.drop_last(), card_count), actions.last(), card_count)
    }
}

/// The active card after one window switch request.
pub open spec fn switched(
    active: Option<usize>,
    request: WindowSwitchRequest,
    card_count: usize,
    focused: Option<usize>,
) -> Option<usize> {
    match request {
        WindowSwitchRequest::Begin => begun(active, card_count, focused),
        WindowSwitchRequest::CyclePrevious => applied(
            active,
            OverviewCarouselAction::CyclePrevious,
            card_count,
        ),
        WindowSwitchRequest::CycleNext => applied(
            active,
            OverviewCarouselAction::CycleNext,
            card_count,
        ),
        WindowSwitchRequest::Commit => active,
    }
}

/// The active card after the window switch requests, in order.
pub open spec fn switched_all(
    active: Option<usize>,
    requests: Seq<WindowSwitchRequest>,
    card_count: usize,
    focused: Option<usize>,
) -> Option<usize>
    decreases requests.len(),
{
    if requests.len() == 0 {
        active
    } else {
        switched(
            switched_all(active, requests.drop_last(), card_count, focused),
            requests.last(),
            card_count,
            focused,
        )
    }
}

/// The step that a paging scroll gesture stands for.
pub open spec fn scroll_action(direction: PageScrollDirection) -> OverviewCarouselAction {
    match direction {
        PageScrollDirection::Previous => OverviewCarouselAction::ShowPrevious,
        PageScrollDirection::Next => OverviewCarouselAction::ShowNext,
    }
}

/// No card, or a card among the `card_count` cards.
pub open spec fn in_bounds(active: Option<usize>, card_count: usize) -> bool {
    active is Some ==> active->0 < card_count
}

/// Which card of the window carousel is in front, if any.
#[derive(Clone, Copy, PartialEq, Eq, Structural, Debug)]
pub struct OverviewCarouselState {
    active_card_index: Option<usize>,
}

impl OverviewCarouselState {
    /// The front card.
    pub closed spec fn active(self) -> Option<usize> {
        self.active_card_index
    }

    #[verifier::type_invariant]
    spec fn successor_fits(self) -> bool {
        self.active_card_index is Some ==> self.active_card_index->0 < usize::MAX
    }

    /// A carousel with no front card.
    pub fn new() -> (state: Self)
        ensures
            state.active() is None,
    {
        OverviewCarouselState { active_card_index: None }
    }

    /// Brings the front card in line with the current number of cards.
    pub fn reconcile(&mut self, card_count: usize, preferred_card_index: Option<usize>)
        ensures
            final(self).active() == reconciled(old(self).active(), card_count, preferred_card_index),
    {
        let next = match self.active_card_index {
            Some(active_card_index) if card_count > 0 && active_card_index < card_count => Some(
                active_card_index,
            ),
            _ => if card_count == 0 {
                None
            } else {
                match preferred_card_index {
                    Some(card_index) if card_index < card_count => Some(card_index),
                    _ => Some(card_count / 2),
                }
            },
        };
        self.active_card_index = next;
    }

    /// The front card.
    pub fn active_card_index(&self) -> (r: Option<usize>)
        ensures
            r == self.active(),
    {
        self.active_card_index
    }

    /// Starts a window switch on the focused window's card, or on the
    /// reconciled card when that card does not exist.
    pub fn begin_window_switch(&mut self, card_count: usize, focused_card_index: Option<usize>)
        ensures
            final(self).active() == begun(old(self).active(), card_count, focused_card_index),
    {
        match focused_card_index {
            Some(focused_card_index) if focused_card_index < card_count => {
                self.active_card_index = Some(focused_card_index);
            },
            _ => {
                self.reconcile(card_count, None);
            },
        }
    }

    /// The card before the front card.
    pub fn previous_card_index(&self) -> (r: Option<usize>)
        ensures
            r == previous_of(self.active()),
    {
        match self.active_card_index {
            Some(active) => active.checked_sub(1),
            None => None,
        }
    }

    /// The card after the front card, when there is one.
    pub fn next_card_index(&self, card_count: usize) -> (r: Option<usize>)
        ensures
            r == next_of(self.active(), card_count),
    {
        proof {
            use_type_invariant(self);
        }
        match self.active_card_index {
            Some(active) => {
                let next_card_index = active + 1;
                if next_card_index < card_count {
                    Some(next_card_index)
                } else {
                    None
                }
            },
            None => None,
        }
    }

    /// Applies one navigation step.
    pub fn apply(&mut self, action: OverviewCarouselAction, card_count: usize)
        ensures
            final(self).active() == applied(old(self).active(), action, card_count),
    {
        proof {
            use_type_invariant(&*self);
        }
        match action {
            OverviewCarouselAction::ShowPrevious => {
                if let Some(previous_card_index) = self.previous_card_index() {
                    self.active_card_index = Some(previous_card_index);
                }
            },
            OverviewCarouselAction::ShowNext => {
                if let Some(next_card_index) = self.next_card_index(card_count) {
                    self.active_card_index = Some(next_card_index);
                }
            },
            OverviewCarouselAction::CyclePrevious => {
                let next = if card_count == 0 {
                    None
                } else {
                    match self.active_card_index {
                        Some(active) if active > 0 => Some(active - 1),
                        _ => Some(card_count - 1),
                    }
                };
                self.active_card_index = next;
            },
            OverviewCarouselAction::CycleNext => {
                let next = if card_count == 0 {
                    None
                } else {
                    match self.active_card_index {
                        Some(active) => Some((active + 1) % card_count),
                        None => Some(0),
                    }
                };
                self.active_card_index = next;
            },
        }
    }
}

impl Default for OverviewCarouselState {
    fn default() -> (state: Self)
        ensures
            state.active() is None,
    {
        OverviewCarouselState::new()
    }
}


/// Where a card stands relative to the front card.
#[derive(Clone, Copy, PartialEq, Eq, Structural, Debug)]
pub enum OverviewCardPosition {
    Previous,
    Active,
    Next,
    Hidden,
}

/// The position of card `card_index` when `active` is the front card.
pub open spec fn position_of(
    card_index: usize,
    active: Option<usize>,
    card_count: usize,
) -> OverviewCardPosition {
    if active == Some(card_index) {
        OverviewCardPosition::Active
    } else if previous_of(active) == Some(card_index) {
        OverviewCardPosition::Previous
    } else if next_of(active, card_count) == Some(card_index) {
        OverviewCardPosition::Next
    } else {
        OverviewCardPosition::Hidden
    }
}

/// The navigation step that activating a card in `position` asks for.
pub open spec fn position_action(position: OverviewCardPosition) -> Option<OverviewCarouselAction> {
    match position {
        OverviewCardPosition::Previous => Some(OverviewCarouselAction::ShowPrevious),
        OverviewCardPosition::Next => Some(OverviewCarouselAction::ShowNext),
        OverviewCardPosition::Active | OverviewCardPosition::Hidden => None,
    }
}

impl OverviewCardPosition {
    /// The element tag of a card in this position.
    pub fn tag(self) -> (tag: &'static str)
        ensures
            tag@ == match self {
                OverviewCardPosition::Previous => "overview-card-previous"@,
                OverviewCardPosition::Active => "overview-card-active"@,
                OverviewCardPosition::Next => "overview-card-next"@,
                OverviewCardPosition::Hidden => "overview-card-hidden"@,
            },
    {
        match self {
            OverviewCardPosition::Previous => "overview-card-previous",
            OverviewCardPosition::Active => "overview-card-active",
            OverviewCardPosition::Next => "overview-card-next",
            OverviewCardPosition::Hidden => "overview-card-hidden",
        }
    }

    /// The navigation step that activating a card in this position asks for.
    pub fn action(self) -> (action: Option<OverviewCarouselAction>)
        ensures
            action == position_action(self),
    {
        match self {
            OverviewCardPosition::Previous => Some(OverviewCarouselAction::ShowPrevious),
            OverviewCardPosition::Next => Some(OverviewCarouselAction::ShowNext),
            OverviewCardPosition::Active | OverviewCardPosition::Hidden => None,
        }
    }

    /// Whether a card in this position takes input.
    pub fn is_interactive(self) -> (interactive: bool)
        ensures
            interactive == (self != OverviewCardPosition::Hidden),
    {
        !matches!(self, OverviewCardPosition::Hidden)
    }
}

/// The position of card `card_index` in the carousel `state`.
pub fn overview_card_position(
    card_index: usize,
    state: OverviewCarouselState,
    card_count: usize,
) -> (position: OverviewCardPosition)
    ensures
        position == position_of(card_index, state.active(), card_count),
{
    if state.active_card_index() == Some(card_index) {
        OverviewCardPosition::Active
    } else if state.previous_card_index() == Some(card_index) {
        OverviewCardPosition::Previous
    } else if state.next_card_index(card_count) == Some(card_index) {
        OverviewCardPosition::Next
    } else {
        OverviewCardPosition::Hidden
    }
}

/// The place a card is laid out in, relative to the front card.
#[derive(Clone, Copy, PartialEq, Eq, Structural, Debug)]
pub enum OverviewCardSlot {
    /// The front card, centred.
    Active,
    /// Just left of the front card, overlapping it.
    LeftNeighbor,
    /// Just right of the front card, overlapping it.
    RightNeighbor,
    /// Further left, outside the viewport.
    OffLeft,
    /// Further right, outside the viewport.
    OffRight,
}

/// The layout slot of card `card_index` when `active_card_index` is in front.
pub open spec fn slot_of(card_index: usize, active_card_index: usize) -> OverviewCardSlot {
    if card_index == active_card_index {
        OverviewCardSlot::Active
    } else if card_index + 1 == active_card_index {
        OverviewCardSlot::LeftNeighbor
    } else if card_index == active_card_index + 1 {
        OverviewCardSlot::RightNeighbor
    } else if card_index < active_card_index {
        OverviewCardSlot::OffLeft
    } else {
        OverviewCardSlot::OffRight
    }
}

/// The layout slot of card `card_index` when `active_card_index` is in front.
pub fn overview_card_slot(card_index: usize, active_card_index: usize) -> (slot: OverviewCardSlot)
    ensures
        slot == slot_of(card_index, active_card_index),
{
    if card_index == active_card_index {
        OverviewCardSlot::Active
    } else if card_index < active_card_index && active_card_index - card_index == 1 {
        OverviewCardSlot::LeftNeighbor
    } else if card_index > active_card_index && card_index - active_card_index == 1 {
        OverviewCardSlot::RightNeighbor
    } else if card_index < active_card_index {
        OverviewCardSlot::OffLeft
    } else {
        OverviewCardSlot::OffRight
    }
}

/// What a card does in response to the input of one frame.
#[derive(Clone, Copy, PartialEq, Eq, Structural, Debug)]
pub enum OverviewCardResponse {
    /// Focus the card's window and leave the overview.
    FocusView,
    /// Move the carousel.
    Navigate(OverviewCarouselAction),
    /// Nothing.
    Idle,
}

/// The response of a card in `position`: activating the front card focuses
/// its window (when the compositor can be told), and activating or
/// navigating onto a side card moves the carousel towards it.
pub open spec fn card_response_of(
    position: OverviewCardPosition,
    just_activated: bool,
    focused_from_navigation: bool,
    can_focus_view: bool,
) -> OverviewCardResponse {
    if just_activated && position == OverviewCardPosition::Active {
        if can_focus_view {
            OverviewCardResponse::FocusView
        } else {
            OverviewCardResponse::Idle
        }
    } else if (just_activated || focused_from_navigation) && position_action(position) is Some {
        OverviewCardResponse::Navigate(position_action(position)->0)
    } else {
        OverviewCardResponse::Idle
    }
}

/// The response of a card to the input of one frame.
pub fn overview_card_response(
    position: OverviewCardPosition,
    just_activated: bool,
    focused_from_navigation: bool,
    can_focus_view: bool,
) -> (response: OverviewCardResponse)
    ensures
        response == card_response_of(
            position,
            just_activated,
            focused_from_navigation,
            can_focus_view,
        ),
{
    if just_activated && matches!(position, OverviewCardPosition::Active) {
        if can_focus_view {
            OverviewCardResponse::FocusView
        } else {
            OverviewCardResponse::Idle
        }
    } else if just_activated || focused_from_navigation {
        match position.action() {
            Some(action) => OverviewCardResponse::Navigate(action),
            None => OverviewCardResponse::Idle,
        }
    } else {
        OverviewCardResponse::Idle
    }
}

/// The carousel after one frame, and the card whose window is to be focused.
pub struct OverviewCarouselFrame {
    pub state: OverviewCarouselState,
    pub focus_card_index: Option<usize>,
}

/// The front card at the end of a frame: reconciled with the open windows,
/// then moved by the card actions, the window switch requests and the scroll
/// gesture, in that order.
pub open spec fn frame_active(
    current: Option<usize>,
    card_count: usize,
    focused_card_index: Option<usize>,
    actions: Seq<OverviewCarouselAction>,
    requests: Seq<WindowSwitchRequest>,
    scroll: Option<PageScrollDirection>,
) -> Option<usize> {
    let after_actions = applied_all(
        reconciled(current, card_count, focused_card_index),
        actions,
        card_count,
    );
    let after_requests = switched_all(after_actions, requests, card_count, focused_card_index);
    match scroll {
        Some(direction) => applied(after_requests, scroll_action(direction), card_count),
        None => after_requests,
    }
}

/// Reconciling, navigating and switching keep the front card among the cards.
pub proof fn lemma_steps_stay_in_bounds(
    active: Option<usize>,
    card_count: usize,
    focused: Option<usize>,
    action: OverviewCarouselAction,
    request: WindowSwitchRequest,
)
    requires
        in_bounds(active, card_count),
    ensures
        in_bounds(reconciled(active, card_count, focused), card_count),
        in_bounds(applied(active, action, card_count), card_count),
        in_bounds(switched(active, request, card_count, focused), card_count),
{
    match active {
        Some(a) => {
            if card_count > 0 {
                assert(0 <= (a + 1) % (card_count as int) < card_count) by (nonlinear_arith)
                    requires
                        card_count > 0,
                        a >= 0,
                ;
            }
        },
        None => {},
    }
}

proof fn lemma_applied_all_in_bounds(
    active: Option<usize>,
    actions: Seq<OverviewCarouselAction>,
    card_count: usize,
)
    requires
        in_bounds(active, card_count),
    ensures
        in_bounds(applied_all(active, actions, card_count), card_count),
    decreases actions.len(),
{
    if actions.len() > 0 {
        lemma_applied_all_in_bounds(active, actions.drop_last(), card_count);
        lemma_steps_stay_in_bounds(
            applied_all(active, actions.drop_last(), card_count),
            card_count,
            None,
            actions.last(),
            WindowSwitchRequest::Commit,
        );
    }
}

proof fn lemma_switched_all_in_bounds(
    active: Option<usize>,
    requests: Seq<WindowSwitchRequest>,
    card_count: usize,
    focused: Option<usize>,
)
    requires
        in_bounds(active, card_count),
    ensures
        in_bounds(switched_all(active, requests, card_count, focused), card_count),
    decreases requests.len(),
{
    if requests.len() > 0 {
        lemma_switched_all_in_bounds(active, requests.drop_last(), card_count, focused);
        lemma_steps_stay_in_bounds(
            switched_all(active, requests.drop_last(), card_count, focused),
            card_count,
            focused,
            OverviewCarouselAction::ShowNext,
            requests.last(),
        );
    }
}

/// Runs the carousel for one frame: reconciles it with the `card_count` open
/// windows (`focused_card_index` is the focused window's card), applies the
/// card actions, the window switch requests and the scroll gesture, and names
/// the front card's window for focusing when a switch was committed and the
/// compositor can be told.
pub fn overview_carousel_frame(
    current: OverviewCarouselState,
    card_count: usize,
    focused_card_index: Option<usize>,
    actions: &Vec<OverviewCarouselAction>,
    requests: &Vec<WindowSwitchRequest>,
    scroll: Option<PageScrollDirection>,
    can_focus_view: bool,
) -> (frame: OverviewCarouselFrame)
    ensures
        frame.state.active() == frame_active(
            current.active(),
            card_count,
            focused_card_index,
            actions@,
            requests@,
            scroll,
        ),
        in_bounds(frame.state.active(), card_count),
        frame.focus_card_index == (if requests@.contains(WindowSwitchRequest::Commit)
            && can_focus_view {
            frame.state.active()
        } else {
            None
        }),
{
    let mut state = current;
    state.reconcile(card_count, focused_card_index);
    let ghost start = state.active();
    proof {
        lemma_steps_stay_in_bounds(
            None,
            card_count,
            focused_card_index,
            OverviewCarouselAction::ShowNext,
            WindowSwitchRequest::Commit,
        );
        assert(in_bounds(start, card_count));
    }
    let mut i: usize = 0;
    while i < actions.len()
        invariant
            0 <= i <= actions.len(),
            state.active() == applied_all(start, actions@.take(i as int), card_count),
        decreases actions.len() - i,
    {
        assert(actions@.take(i + 1).drop_last() =~= actions@.take(i as int));
        state.apply(actions[i], card_count);
        i = i + 1;
    }
    assert(actions@.take(actions.len() as int) =~= actions@);
    let ghost after_actions = state.active();
    let mut commit_requested = false;
    let mut j: usize = 0;
    while j < requests.len()
        invariant
            0 <= j <= requests.len(),
            state.active() == switched_all(
                after_actions,
                requests@.take(j as int),
                card_count,
                focused_card_index,
            ),
            commit_requested == requests@.take(j as int).contains(WindowSwitchRequest::Commit),
        decreases requests.len() - j,
    {
        assert(requests@.take(j + 1).drop_last() =~= requests@.take(j as int));
        assert(requests@.take(j + 1) =~= requests@.take(j as int).push(requests@[j as int]));
        match requests[j] {
            WindowSwitchRequest::Begin => {
                state.begin_window_switch(card_count, focused_card_index);
            },
            WindowSwitchRequest::CyclePrevious => {
                state.apply(OverviewCarouselAction::CyclePrevious, card_count);
            },
            WindowSwitchRequest::CycleNext => {
                state.apply(OverviewCarouselAction::CycleNext, card_count);
            },
            WindowSwitchRequest::Commit => {
                commit_requested = true;
            },
        }
        j = j + 1;
    }
    assert(requests@.take(requests.len() as int) =~= requests@);
    match scroll {
        Some(PageScrollDirection::Previous) => {
            state.apply(OverviewCarouselAction::ShowPrevious, card_count);
        },
        Some(PageScrollDirection::Next) => {
            state.apply(OverviewCarouselAction::ShowNext, card_count);
        },
        None => {},
    }
    proof {
        lemma_applied_all_in_bounds(start, actions@, card_count);
        lemma_switched_all_in_bounds(after_actions, requests@, card_count, focused_card_index);
        lemma_steps_stay_in_bounds(
            switched_all(after_actions, requests@, card_count, focused_card_index),
            card_count,
            None,
            OverviewCarouselAction::ShowNext,
            WindowSwitchRequest::Commit,
        );
        lemma_steps_stay_in_bounds(
            switched_all(after_actions, requests@, card_count, focused_card_index),
            card_count,
            None,
            OverviewCarouselAction::ShowPrevious,
            WindowSwitchRequest::Commit,
        );
    }
    let focus_card_index = if commit_requested && can_focus_view {
        state.active_card_index()
    } else {
        None
    };
    OverviewCarouselFrame { state, focus_card_index }
}


/// The placeholder colour of a card: pressed and highlighted cards are lit;
/// otherwise the first two cards and the rest each have their own shade, the
/// front card lighter than its neighbours; hidden cards are transparent.
pub open spec fn placeholder_color_of(
    card_index: usize,
    position: OverviewCardPosition,
    is_pressed: bool,
    is_highlighted: bool,
) -> Color {
    if is_pressed {
        rgb(190, 199, 206)
    } else if is_highlighted {
        rgb(235, 241, 246)
    } else {
        match position {
            OverviewCardPosition::Active => if card_index == 0 {
                rgb(220, 225, 230)
            } else if card_index == 1 {
                rgb(205, 216, 224)
            } else {
                rgb(224, 216, 205)
            },
            OverviewCardPosition::Previous | OverviewCardPosition::Next => if card_index == 0 {
                rgb(194, 200, 206)
            } else if card_index == 1 {
                rgb(183, 194, 202)
            } else {
                rgb(201, 194, 185)
            },
            OverviewCardPosition::Hidden => transparent(),
        }
    }
}

/// The placeholder colour of a card.
pub fn placeholder_card_color(
    card_index: usize,
    position: OverviewCardPosition,
    is_pressed: bool,
    is_highlighted: bool,
) -> (c: Color)
    ensures
        c == placeholder_color_of(card_index, position, is_pressed, is_highlighted),
{
    if is_pressed {
        return Color::from_rgb(190, 199, 206);
    }
    if is_highlighted {
        return Color::from_rgb(235, 241, 246);
    }
    match position {
        OverviewCardPosition::Active => match card_index {
            0 => Color::from_rgb(220, 225, 230),
            1 => Color::from_rgb(205, 216, 224),
            _ => Color::from_rgb(224, 216, 205),
        },
        OverviewCardPosition::Previous | OverviewCardPosition::Next => match card_index {
            0 => Color::from_rgb(194, 200, 206),
            1 => Color::from_rgb(183, 194, 202),
            _ => Color::from_rgb(201, 194, 185),
        },
        OverviewCardPosition::Hidden => Color::transparent(),
    }
}

/// The background and border colours of a card's surface: hidden cards are
/// transparent; others take their placeholder colour (lit while hovered or
/// focused) and a border that is brightest when focused.
pub fn overview_card_surface_colors(
    card_index: usize,
    position: OverviewCardPosition,
    is_pressed: bool,
    is_hovered: bool,
    is_focused: bool,
) -> (colors: (Color, Color))
    ensures
        position == OverviewCardPosition::Hidden ==> colors == (transparent(), transparent()),
        position != OverviewCardPosition::Hidden ==> colors.0 == placeholder_color_of(
            card_index,
            position,
            is_pressed,
            is_hovered || is_focused,
        ) && colors.1 == (if is_focused {
            rgb(238, 246, 255)
        } else if is_hovered {
            Color { r: 238, g: 246, b: 255, a: 174 }
        } else {
            Color { r: 255, g: 255, b: 255, a: 82 }
        }),
{
    if matches!(position, OverviewCardPosition::Hidden) {
        return (Color::transparent(), Color::transparent());
    }
    let background = placeholder_card_color(card_index, position, is_pressed, is_hovered || is_focused);
    let border = if is_focused {
        Color::from_rgb(238, 246, 255)
    } else if is_hovered {
        Color::from_rgba(238, 246, 255, 174)
    } else {
        Color::from_rgba(255, 255, 255, 82)
    };
    (background, border)
}

/// The card of the first focused window, given which windows have focus.
pub fn focused_card_index(window_is_focused: &Vec<bool>) -> (card: Option<usize>)
    ensures
        match card {
            Some(i) => i < window_is_focused@.len() && window_is_focused@[i as int] && forall|k: int|
                0 <= k < i ==> !#[trigger] window_is_focused@[k],
            None => forall|k: int|
                0 <= k < window_is_focused@.len() ==> !#[trigger] window_is_focused@[k],
        },
{
    let mut i: usize = 0;
    while i < window_is_focused.len()
        invariant
            0 <= i <= window_is_focused.len(),
            forall|k: int| 0 <= k < i ==> !#[trigger] window_is_focused@[k],
        decreases window_is_focused.len() - i,
    {
        if window_is_focused[i] {
            return Some(i);
        }
        i = i + 1;
    }
    None
}

} // verus!
