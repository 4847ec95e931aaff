//! Laws of the window carousel.
use vstd::prelude::*;
use crate::overview::{
    OverviewCardPosition, OverviewCardResponse, OverviewCardSlot, OverviewCarouselAction,
    WindowSwitchRequest, applied, applied_all, card_response_of, frame_active, in_bounds, next_of,
    position_of, previous_of, reconciled, slot_of, switched_all,
};

verus! {

/// Reconciling twice with the same card count changes nothing more than
/// reconciling once, whatever card the second pass prefers.
pub proof fn law_reconcile_is_idempotent(
    active: Option<usize>,
    card_count: usize,
    preferred: Option<usize>,
    preferred_again: Option<usize>,
)
    ensures
        reconciled(reconciled(active, card_count, preferred), card_count, preferred_again)
            == reconciled(active, card_count, preferred),
{
}

/// When there are cards, reconciling always leaves a front card among them;
/// when there are none, it leaves none.
pub proof fn law_reconcile_picks_an_existing_card(
    active: Option<usize>,
    card_count: usize,
    preferred: Option<usize>,
)
    ensures
        card_count > 0 ==> reconciled(active, card_count, preferred) is Some
            && reconciled(active, card_count, preferred)->0 < card_count,
        card_count == 0 ==> reconciled(active, card_count, preferred) is None,
{
}

/// Showing the next card and then the previous one comes back to the card
/// one started from, whenever there was a next card.
pub proof fn law_show_next_then_previous_returns(active: Option<usize>, card_count: usize)
    requires
        next_of(active, card_count) is Some,
    ensures
        applied(
            applied(active, OverviewCarouselAction::ShowNext, card_count),
            OverviewCarouselAction::ShowPrevious,
            card_count,
        ) == active,
{
}

/// Showing the previous card and then the next one comes back to the card
/// one started from, whenever there was a previous card.
pub proof fn law_show_previous_then_next_returns(active: Option<usize>, card_count: usize)
    requires
        previous_of(active) is Some,
        in_bounds(active, card_count),
    ensures
        applied(
            applied(active, OverviewCarouselAction::ShowPrevious, card_count),
            OverviewCarouselAction::ShowNext,
            card_count,
        ) == active,
{
}

/// Showing the next card at the last card, or the previous card at the first,
/// leaves the carousel where it was: showing does not wrap around.
pub proof fn law_show_stops_at_the_ends(card_count: usize)
    requires
        card_count > 0,
    ensures
        applied(Some(0), OverviewCarouselAction::ShowPrevious, card_count) == Some(0usize),
        applied(
            Some((card_count - 1) as usize),
            OverviewCarouselAction::ShowNext,
            card_count,
        ) == Some((card_count - 1) as usize),
{
}

/// Cycling forward and then backward, or backward and then forward, comes back
/// to the card one started from.
pub proof fn law_cycle_steps_undo_each_other(active_card_index: usize, card_count: usize)
    requires
        active_card_index < card_count,
    ensures
        applied(
            applied(Some(active_card_index), OverviewCarouselAction::CycleNext, card_count),
            OverviewCarouselAction::CyclePrevious,
            card_count,
        ) == Some(active_card_index),
        applied(
            applied(Some(active_card_index), OverviewCarouselAction::CyclePrevious, card_count),
            OverviewCarouselAction::CycleNext,
            card_count,
        ) == Some(active_card_index),
{
    let a = active_card_index as int;
    let c = card_count as int;
    if a + 1 < c {
        assert((a + 1) % c == a + 1) by (nonlinear_arith)
            requires
                0 <= a + 1 < c,
        ;
    } else {
        assert((a + 1) % c == 0) by (nonlinear_arith)
            requires
                a + 1 == c,
                c > 0,
        ;
    }
    if a > 0 {
        assert(a % c == a) by (nonlinear_arith)
            requires
                0 <= a < c,
        ;
    } else {
        assert(c % c == 0) by (nonlinear_arith)
            requires
                c > 0,
        ;
    }
}

/// Cycling forward `steps` times from `start`.
pub open spec fn cycled_next(start: Option<usize>, steps: nat, card_count: usize) -> Option<usize>
    decreases steps,
{
    if steps == 0 {
        start
    } else {
        applied(
            cycled_next(start, (steps - 1) as nat, card_count),
            OverviewCarouselAction::CycleNext,
            card_count,
        )
    }
}

proof fn lemma_cycled_next_position(active_card_index: usize, steps: nat, card_count: usize)
    requires
        active_card_index < card_count,
    ensures
        cycled_next(Some(active_card_index), steps, card_count) == Some(
            ((active_card_index + steps) % (card_count as int)) as usize,
        ),
    decreases steps,
{
    let a = active_card_index as int;
    let c = card_count as int;
    if steps == 0 {
        assert(a % c == a) by (nonlinear_arith)
            requires
                0 <= a < c,
        ;
    } else {
        lemma_cycled_next_position(active_card_index, (steps - 1) as nat, card_count);
        let k = (steps - 1) as int;
        assert(((a + k) % c + 1) % c == (a + k + 1) % c) by {
            vstd::arithmetic::div_mod::lemma_add_mod_noop(a + k, 1, c);
            vstd::arithmetic::div_mod::lemma_mod_twice(a + k, c);
            assert(1int % c == 1 || c == 1) by (nonlinear_arith)
                requires
                    c > 0,
            ;
            if c == 1 {
                assert((a + k) % c == 0) by (nonlinear_arith)
                    requires
                        c == 1,
                ;
                assert((a + k + 1) % c == 0) by (nonlinear_arith)
                    requires
                        c == 1,
                ;
                assert(1int % c == 0) by (nonlinear_arith)
                    requires
                        c == 1,
                ;
            }
        }
        assert(0 <= (a + k) % c < c) by (nonlinear_arith)
            requires
                c > 0,
                a + k >= 0,
        ;
    }
}

/// Cycling forward once per card brings the carousel back to the card it
/// started from.
pub proof fn law_cycling_through_all_cards_returns(active_card_index: usize, card_count: usize)
    requires
        active_card_index < card_count,
    ensures
        cycled_next(Some(active_card_index), card_count as nat, card_count) == Some(
            active_card_index,
        ),
{
    lemma_cycled_next_position(active_card_index, card_count as nat, card_count);
    let a = active_card_index as int;
    let c = card_count as int;
    assert((a + c) % c == a) by {
        vstd::arithmetic::div_mod::lemma_mod_add_multiples_vanish(a, c);
        assert(a % c == a) by (nonlinear_arith)
            requires
                0 <= a < c,
        ;
    }
}

/// For a front card among the cards, the front card is the only card in the
/// active position, the card just before it the only one in the previous
/// position and the card just after it the only one in the next position;
/// each of them is laid out in the matching slot, and every other card is
/// hidden and laid out off screen.
pub proof fn law_positions_match_slots(card_index: usize, active_card_index: usize, card_count: usize)
    requires
        card_index < card_count,
        active_card_index < card_count,
    ensures
        (position_of(card_index, Some(active_card_index), card_count)
            == OverviewCardPosition::Active) == (card_index == active_card_index),
        (position_of(card_index, Some(active_card_index), card_count)
            == OverviewCardPosition::Previous) == (card_index + 1 == active_card_index),
        (position_of(card_index, Some(active_card_index), card_count)
            == OverviewCardPosition::Next) == (card_index == active_card_index + 1),
        (position_of(card_index, Some(active_card_index), card_count)
            == OverviewCardPosition::Active) == (slot_of(card_index, active_card_index)
            == OverviewCardSlot::Active),
        (position_of(card_index, Some(active_card_index), card_count)
            == OverviewCardPosition::Previous) == (slot_of(card_index, active_card_index)
            == OverviewCardSlot::LeftNeighbor),
        (position_of(card_index, Some(active_card_index), card_count)
            == OverviewCardPosition::Next) == (slot_of(card_index, active_card_index)
            == OverviewCardSlot::RightNeighbor),
{
}

/// A hidden card never reacts to input.
pub proof fn law_hidden_cards_are_inert(
    just_activated: bool,
    focused_from_navigation: bool,
    can_focus_view: bool,
)
    ensures
        card_response_of(
            OverviewCardPosition::Hidden,
            just_activated,
            focused_from_navigation,
            can_focus_view,
        ) == OverviewCardResponse::Idle,
{
}

/// Activating a side card moves its card to the front.
pub proof fn law_activating_a_side_card_brings_it_forward(
    card_index: usize,
    active_card_index: usize,
    card_count: usize,
)
    requires
        card_index < card_count,
        active_card_index < card_count,
        position_of(card_index, Some(active_card_index), card_count)
            == OverviewCardPosition::Previous || position_of(
            card_index,
            Some(active_card_index),
            card_count,
        ) == OverviewCardPosition::Next,
    ensures
        ({
            let response = card_response_of(
                position_of(card_index, Some(active_card_index), card_count),
                true,
                false,
                true,
            );
            &&& response is Navigate
            &&& applied(Some(active_card_index), response->0, card_count) == Some(card_index)
        }),
{
}

/// During a window switch, each Alt+Tab (a `CycleNext` request) brings the
/// next window's card to the front, wrapping from the last card to the
/// first; each Alt+Shift+Tab (`CyclePrevious`) brings the previous one,
/// wrapping from the first card to the last.
pub proof fn law_window_switch_cycling_wraps_around(
    front: usize,
    card_count: usize,
    focused_card_index: Option<usize>,
)
    requires
        front < card_count,
    ensures
        frame_active(
            Some(front),
            card_count,
            focused_card_index,
            Seq::empty(),
            seq![WindowSwitchRequest::CycleNext],
            None,
        ) == (if front + 1 == card_count {
            Some(0usize)
        } else {
            Some((front + 1) as usize)
        }),
        frame_active(
            Some(front),
            card_count,
            focused_card_index,
            Seq::empty(),
            seq![WindowSwitchRequest::CyclePrevious],
            None,
        ) == (if front == 0 {
            Some((card_count - 1) as usize)
        } else {
            Some((front - 1) as usize)
        }),
{
    let start = reconciled(Some(front), card_count, focused_card_index);
    assert(start == Some(front));
    assert(applied_all(start, Seq::<OverviewCarouselAction>::empty(), card_count) == start);
    let next = seq![WindowSwitchRequest::CycleNext];
    let previous = seq![WindowSwitchRequest::CyclePrevious];
    assert(next.drop_last() =~= Seq::<WindowSwitchRequest>::empty());
    assert(previous.drop_last() =~= Seq::<WindowSwitchRequest>::empty());
    assert(switched_all(start, Seq::<WindowSwitchRequest>::empty(), card_count, focused_card_index)
        == start);
    if front + 1 == card_count {
        assert((front + 1) % (card_count as int) == 0) by (nonlinear_arith)
            requires
                front + 1 == card_count,
        ;
    } else {
        assert((front + 1) % (card_count as int) == front + 1) by (nonlinear_arith)
            requires
                front + 1 < card_count,
        ;
    }
}

} // verus!
