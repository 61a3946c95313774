//! What holds of the menu over any run of readings.

use crate::menu::deflection;
use crate::menu::released;
use crate::menu::wrap_index;
use crate::menu::MenuState;
use crate::menu::COOLDOWN_POLLS;
use crate::menu::MOVE_THRESHOLD;
use vstd::prelude::*;

verus! {

/// The state after the readings `polls`, first to last. A reading is the
/// joystick's deflection and whether the confirm button was pressed.
pub open spec fn run(state: MenuState, polls: Seq<(i16, bool)>, option_count: usize) -> MenuState
    decreases polls.len(),
{
    if polls.len() == 0 {
        state
    } else {
        run(state, polls.drop_last(), option_count).next(
            polls.last().0,
            polls.last().1,
            option_count,
        )
    }
}

/// Readings in which the stick is held away from the centre and the confirm
/// button is left alone.
pub open spec fn held(polls: Seq<(i16, bool)>) -> bool {
    forall|i: int| 0 <= i < polls.len() ==> !released(#[trigger] polls[i].0) && !polls[i].1
}

/// Moving by one entry with wrap-around is moving by one modulo the number
/// of entries.
pub proof fn wrap_is_modular(index: int, step: int, option_count: int)
    requires
        0 <= index < option_count,
        -1 <= step <= 1,
    ensures
        wrap_index(index + step, option_count) == (index + step) % option_count,
{
    if index + step < 0 {
        vstd::arithmetic::div_mod::lemma_small_mod((option_count - 1) as nat, option_count as nat);
        vstd::arithmetic::div_mod::lemma_mod_add_multiples_vanish(-1, option_count);
    } else if index + step >= option_count {
        vstd::arithmetic::div_mod::lemma_mod_self_0(option_count);
    } else {
        vstd::arithmetic::div_mod::lemma_small_mod((index + step) as nat, option_count as nat);
    }
}

/// One reading leaves the selection inside the menu, whatever state it was
/// taken in, and keeps a fitting state fitting.
pub proof fn next_stays_in_range(
    state: MenuState,
    joystick_y: i16,
    button_edge: bool,
    option_count: usize,
)
    requires
        option_count >= 1,
    ensures
        state.next(joystick_y, button_edge, option_count).selected_index < option_count,
        state.valid(option_count) ==> state.next(joystick_y, button_edge, option_count).valid(
            option_count,
        ),
{
}

/// The selection stays inside the menu over any run of readings.
pub proof fn selection_stays_in_range(
    state: MenuState,
    polls: Seq<(i16, bool)>,
    option_count: usize,
)
    requires
        option_count >= 1,
        state.selected_index < option_count,
    ensures
        run(state, polls, option_count).selected_index < option_count,
        state.valid(option_count) ==> run(state, polls, option_count).valid(option_count),
    decreases polls.len(),
{
    if polls.len() > 0 {
        selection_stays_in_range(state, polls.drop_last(), option_count);
        next_stays_in_range(
            run(state, polls.drop_last(), option_count),
            polls.last().0,
            polls.last().1,
            option_count,
        );
    }
}

/// A menu of one entry keeps its selection, whatever is read.
pub proof fn single_option_stays(state: MenuState, joystick_y: i16, button_edge: bool)
    ensures
        state.next(joystick_y, button_edge, 1).selected_index == 0,
{
}

/// A deflection of exactly the threshold, either way, is no push: the
/// selection stays, and outside a cooldown the whole state does. One step
/// further is a push.
pub proof fn threshold_is_exclusive(state: MenuState, option_count: usize)
    requires
        option_count >= 1,
        state.valid(option_count),
    ensures
        deflection(MOVE_THRESHOLD) == 0,
        deflection((-MOVE_THRESHOLD) as i16) == 0,
        state.next(MOVE_THRESHOLD, false, option_count).selected_index == state.selected_index,
        state.next((-MOVE_THRESHOLD) as i16, false, option_count).selected_index
            == state.selected_index,
        !state.cooldown_active ==> state.next(MOVE_THRESHOLD, false, option_count) == state,
        !state.cooldown_active ==> state.next((-MOVE_THRESHOLD) as i16, false, option_count)
            == state,
        !state.cooldown_active ==> state.next(
            (MOVE_THRESHOLD + 1) as i16,
            false,
            option_count,
        ).selected_index == wrap_index(state.selected_index + 1, option_count as int),
        !state.cooldown_active ==> state.next(
            (-MOVE_THRESHOLD - 1) as i16,
            false,
            option_count,
        ).selected_index == wrap_index(state.selected_index - 1, option_count as int),
{
}

/// The confirm button picks the selection and changes nothing.
pub proof fn confirm_changes_nothing(state: MenuState, joystick_y: i16, option_count: usize)
    requires
        option_count >= 1,
        state.valid(option_count),
    ensures
        state.next(joystick_y, true, option_count) == state,
        state.choice(true, option_count) == Some(state.selected_index),
{
}

/// A push outside a cooldown moves the selection by one entry and starts a
/// cooldown.
pub proof fn push_moves_and_starts_cooldown(state: MenuState, joystick_y: i16, option_count: usize)
    requires
        option_count >= 1,
        state.valid(option_count),
        !state.cooldown_active,
        deflection(joystick_y) != 0,
    ensures
        state.next(joystick_y, false, option_count).selected_index == wrap_index(
            state.selected_index + deflection(joystick_y),
            option_count as int,
        ),
        state.next(joystick_y, false, option_count).cooldown_active,
        state.next(joystick_y, false, option_count).cooldown_polls == 0,
{
}

/// During a cooldown no reading moves the selection.
pub proof fn cooldown_holds_selection(
    state: MenuState,
    joystick_y: i16,
    button_edge: bool,
    option_count: usize,
)
    requires
        option_count >= 1,
        state.valid(option_count),
        state.cooldown_active,
    ensures
        state.next(joystick_y, button_edge, option_count).selected_index == state.selected_index,
{
}

/// A cooldown ends with the first reading that finds the stick back at the
/// centre; the next push then moves the selection again.
pub proof fn cooldown_ends_on_release(
    state: MenuState,
    joystick_y: i16,
    push: i16,
    option_count: usize,
)
    requires
        option_count >= 1,
        state.valid(option_count),
        state.cooldown_active,
        released(joystick_y),
        deflection(push) != 0,
    ensures
        !state.next(joystick_y, false, option_count).cooldown_active,
        state.next(joystick_y, false, option_count).selected_index == state.selected_index,
        state.next(joystick_y, false, option_count).next(push, false, option_count).selected_index
            == wrap_index(state.selected_index + deflection(push), option_count as int),
{
}

/// While the stick is held, a cooldown runs on, counting the readings, as
/// long as fewer than the limit were taken.
pub proof fn cooldown_runs_while_held(
    state: MenuState,
    polls: Seq<(i16, bool)>,
    option_count: usize,
)
    requires
        option_count >= 1,
        state.valid(option_count),
        state.cooldown_active,
        held(polls),
        state.cooldown_polls + polls.len() < COOLDOWN_POLLS,
    ensures
        run(state, polls, option_count) == (MenuState {
            cooldown_polls: (state.cooldown_polls + polls.len()) as u8,
            ..state
        }),
    decreases polls.len(),
{
    if polls.len() > 0 {
        let before = polls.drop_last();
        assert(held(before)) by {
            assert forall|i: int| 0 <= i < before.len() implies !released(#[trigger] before[i].0)
                && !before[i].1 by {
                assert(before[i] == polls[i]);
            }
        }
        cooldown_runs_while_held(state, before, option_count);
        assert(!released(polls[polls.len() - 1].0) && !polls[polls.len() - 1].1);
    }
}

/// A cooldown ends with the reading that completes the limit, even though
/// the stick is still held; until then the selection has not moved, and the
/// next push moves it.
pub proof fn cooldown_ends_after_limit(
    state: MenuState,
    polls: Seq<(i16, bool)>,
    push: i16,
    option_count: usize,
)
    requires
        option_count >= 1,
        state.valid(option_count),
        state.cooldown_active,
        held(polls),
        state.cooldown_polls + polls.len() == COOLDOWN_POLLS,
        deflection(push) != 0,
    ensures
        run(state, polls, option_count) == (MenuState {
            cooldown_active: false,
            cooldown_polls: 0,
            ..state
        }),
        run(state, polls, option_count).next(push, false, option_count).selected_index
            == wrap_index(state.selected_index + deflection(push), option_count as int),
{
    let before = polls.drop_last();
    assert(held(before)) by {
        assert forall|i: int| 0 <= i < before.len() implies !released(#[trigger] before[i].0)
            && !before[i].1 by {
            assert(before[i] == polls[i]);
        }
    }
    cooldown_runs_while_held(state, before, option_count);
    assert(!released(polls[polls.len() - 1].0) && !polls[polls.len() - 1].1);
}

/// After a move of the selection, no run of readings moves it again before
/// the stick was found back at the centre or the limit of readings was
/// taken: over at most that many readings, of which none but the last finds
/// the stick released, the selection is the same at the end.
pub proof fn no_move_during_cooldown(
    state: MenuState,
    polls: Seq<(i16, bool)>,
    option_count: usize,
)
    requires
        option_count >= 1,
        state.valid(option_count),
        state.cooldown_active,
        state.cooldown_polls + polls.len() <= COOLDOWN_POLLS,
        forall|i: int| 0 <= i < polls.len() - 1 ==> !released(#[trigger] polls[i].0),
    ensures
        run(state, polls, option_count).selected_index == state.selected_index,
        run(state, polls, option_count).valid(option_count),
        run(state, polls, option_count).cooldown_polls <= state.cooldown_polls + polls.len(),
        polls.len() > 0 && state.cooldown_polls + polls.len() < COOLDOWN_POLLS && !released(
            polls.last().0,
        ) ==> run(state, polls, option_count).cooldown_active,
    decreases polls.len(),
{
    if polls.len() > 0 {
        let before = polls.drop_last();
        assert forall|i: int| 0 <= i < before.len() - 1 implies !released(
            #[trigger] before[i].0,
        ) by {
            assert(before[i] == polls[i]);
        }
        no_move_during_cooldown(state, before, option_count);
        let mid = run(state, before, option_count);
        if before.len() > 0 {
            assert(before.last() == polls[before.len() - 1]);
            assert(!released(before.last().0));
            assert(mid.cooldown_active);
        }
        cooldown_holds_selection(mid, polls.last().0, polls.last().1, option_count);
        next_stays_in_range(mid, polls.last().0, polls.last().1, option_count);
    }
}

} // verus!
