//! Where the cursor of a list goes: the arithmetic of every move, and what
//! follows from it.

use crate::input::UserInput;
use vstd::prelude::*;

verus! {

/// Where the cursor stands after a step towards the end of `item_count`
/// rows.
pub open spec fn cursor_after_next(
    looped: bool,
    cursor: Option<usize>,
    item_count: usize,
) -> Option<usize> {
    if item_count == 0 {
        None
    } else {
        match cursor {
            None => Some(0),
            Some(i) => if i + 1 < item_count {
                Some((i + 1) as usize)
            } else if looped {
                Some(0)
            } else {
                Some(i)
            },
        }
    }
}

/// Where the cursor stands after a step towards the start of `item_count`
/// rows.
pub open spec fn cursor_after_previous(
    looped: bool,
    cursor: Option<usize>,
    item_count: usize,
) -> Option<usize> {
    if item_count == 0 {
        None
    } else {
        match cursor {
            None => Some(0),
            Some(i) => if i != 0 {
                Some((i - 1) as usize)
            } else if looped {
                Some((item_count - 1) as usize)
            } else {
                Some(0)
            },
        }
    }
}

/// The first of `item_count` rows, if there is any row.
pub open spec fn first_row(item_count: usize) -> Option<usize> {
    if item_count == 0 {
        None
    } else {
        Some(0)
    }
}

/// The last of `item_count` rows, if there is any row.
pub open spec fn last_row(item_count: usize) -> Option<usize> {
    if item_count == 0 {
        None
    } else {
        Some((item_count - 1) as usize)
    }
}

/// A step towards the end finds the cursor on the last row, or beyond it,
/// of a list that does not loop: nothing is written.
pub open spec fn next_rests(looped: bool, cursor: Option<usize>, item_count: usize) -> bool {
    &&& !looped
    &&& item_count > 0
    &&& cursor matches Some(i)
    &&& i + 1 >= item_count
}

/// A step towards the start finds the cursor on the first row of a list that
/// does not loop: nothing is written.
pub open spec fn previous_rests(looped: bool, cursor: Option<usize>, item_count: usize) -> bool {
    &&& !looped
    &&& item_count > 0
    &&& cursor == Some(0usize)
}

/// The inputs that move or clear the cursor.
pub open spec fn is_directional(input: UserInput) -> bool {
    input is Up || input is Down || input is Back || input is Top || input is Bottom
}

/// Where the cursor stands after an input: up is a step towards the start,
/// down a step towards the end, back clears, top and bottom jump; any other
/// input leaves the cursor alone.
pub open spec fn cursor_after_input(
    looped: bool,
    cursor: Option<usize>,
    input: UserInput,
    item_count: usize,
) -> Option<usize> {
    match input {
        UserInput::Up => cursor_after_previous(looped, cursor, item_count),
        UserInput::Down => cursor_after_next(looped, cursor, item_count),
        UserInput::Back => None,
        UserInput::Top => first_row(item_count),
        UserInput::Bottom => last_row(item_count),
        _ => cursor,
    }
}

/// An input after which the widget state is as it was before: one that is
/// not directional, or a step that rests.
pub open spec fn input_rests(
    looped: bool,
    cursor: Option<usize>,
    input: UserInput,
    item_count: usize,
) -> bool {
    match input {
        UserInput::Up => previous_rests(looped, cursor, item_count),
        UserInput::Down => next_rests(looped, cursor, item_count),
        _ => !is_directional(input),
    }
}

/// Where the cursor stands after the inputs, taken in order, each with the
/// same `item_count`.
pub open spec fn cursor_after_inputs(
    looped: bool,
    cursor: Option<usize>,
    inputs: Seq<UserInput>,
    item_count: usize,
) -> Option<usize>
    decreases inputs.len(),
{
    if inputs.len() == 0 {
        cursor
    } else {
        cursor_after_input(
            looped,
            cursor_after_inputs(looped, cursor, inputs.drop_last(), item_count),
            inputs.last(),
            item_count,
        )
    }
}

/// Every input is a single step: up or down.
pub open spec fn steps_only(inputs: Seq<UserInput>) -> bool {
    forall|k: int| 0 <= k < inputs.len() ==> inputs[k] is Up || inputs[k] is Down
}

/// How many of the inputs are a step towards the start.
pub open spec fn count_up(inputs: Seq<UserInput>) -> nat
    decreases inputs.len(),
{
    if inputs.len() == 0 {
        0
    } else {
        count_up(inputs.drop_last()) + if inputs.last() is Up {
            1nat
        } else {
            0nat
        }
    }
}

/// The cursor does not point past the rows: it is clear, or on one of them.
pub open spec fn cursor_fits(cursor: Option<usize>, item_count: usize) -> bool {
    match cursor {
        None => true,
        Some(i) => i < item_count,
    }
}

/// The cursor is where a list of `item_count` rows shows it: clear if there
/// is no row, on one of the rows otherwise.
pub open spec fn cursor_settled(cursor: Option<usize>, item_count: usize) -> bool {
    match cursor {
        None => item_count == 0,
        Some(i) => i < item_count,
    }
}

/// One or more steps, in either direction and in any order, leave the
/// cursor clear on an empty list and on one of the rows of any other,
/// provided it did not point past the rows to begin with. For a cursor that
/// did, see [`lemma_stale_cursor`].
pub proof fn lemma_steps_settle_cursor(
    looped: bool,
    start: Option<usize>,
    inputs: Seq<UserInput>,
    item_count: usize,
)
    requires
        inputs.len() > 0,
        steps_only(inputs),
        item_count > 0 ==> cursor_fits(start, item_count),
    ensures
        cursor_settled(cursor_after_inputs(looped, start, inputs, item_count), item_count),
    decreases inputs.len(),
{
    let before = inputs.drop_last();
    assert(inputs.last() is Up || inputs.last() is Down);
    if before.len() > 0 {
        assert(steps_only(before)) by {
            assert forall|k: int| 0 <= k < before.len() implies before[k] is Up
                || before[k] is Down by {
                assert(before[k] == inputs[k]);
            }
        }
        lemma_steps_settle_cursor(looped, start, before, item_count);
    }
}

/// Whether the steps bring a cursor that stands on `start`, past the rows,
/// back onto a row: the list loops and one step goes towards the end, or
/// enough steps go towards the start to walk the cursor back.
pub open spec fn steps_bring_back(
    looped: bool,
    start: usize,
    inputs: Seq<UserInput>,
    item_count: usize,
) -> bool {
    ||| looped && inputs.contains(UserInput::Down)
    ||| count_up(inputs) > start - item_count
}

/// A cursor that points past the rows of a list that is not empty comes
/// back onto a row exactly if the steps bring it back; until then each step
/// towards the start moves it by one and no other step moves it.
pub proof fn lemma_stale_cursor(
    looped: bool,
    start: usize,
    inputs: Seq<UserInput>,
    item_count: usize,
)
    requires
        steps_only(inputs),
        0 < item_count <= start,
    ensures
        ({
            let end = cursor_after_inputs(looped, Some(start), inputs, item_count);
            if steps_bring_back(looped, start, inputs, item_count) {
                cursor_settled(end, item_count)
            } else {
                end == Some((start - count_up(inputs)) as usize)
            }
        }),
    decreases inputs.len(),
{
    if inputs.len() > 0 {
        let before = inputs.drop_last();
        assert(inputs.last() is Up || inputs.last() is Down);
        assert(steps_only(before)) by {
            assert forall|k: int| 0 <= k < before.len() implies before[k] is Up
                || before[k] is Down by {
                assert(before[k] == inputs[k]);
            }
        }
        lemma_stale_cursor(looped, start, before, item_count);
        assert(inputs.contains(UserInput::Down) <==> before.contains(UserInput::Down)
            || inputs.last() is Down) by {
            if before.contains(UserInput::Down) {
                let k = choose|k: int| 0 <= k < before.len() && before[k] == UserInput::Down;
                assert(inputs[k] == UserInput::Down);
            }
            if inputs.last() is Down {
                assert(inputs[inputs.len() - 1] == UserInput::Down);
            }
            if inputs.contains(UserInput::Down) && !(inputs.last() is Down) {
                let k = choose|k: int| 0 <= k < inputs.len() && inputs[k] == UserInput::Down;
                assert(before[k] == UserInput::Down);
            }
        }
    }
}

/// On a list that loops, a step past the last row lands on the first, and a
/// step before the first row lands on the last.
pub proof fn lemma_looped_wraps(item_count: usize)
    requires
        item_count > 0,
    ensures
        cursor_after_next(true, last_row(item_count), item_count) == Some(0usize),
        cursor_after_previous(true, Some(0usize), item_count) == last_row(item_count),
{
}

/// On a list that does not loop, a step past the last row stays on the
/// last, and a step before the first row stays on the first.
pub proof fn lemma_unlooped_clamps(item_count: usize)
    requires
        item_count > 0,
    ensures
        cursor_after_next(false, last_row(item_count), item_count) == last_row(item_count),
        cursor_after_previous(false, Some(0usize), item_count) == Some(0usize),
{
}

/// A jump to the top or to the bottom lands where the jump before it
/// landed, wherever the cursor stood at first.
pub proof fn lemma_jumps_idempotent(looped: bool, cursor: Option<usize>, item_count: usize)
    ensures
        ({
            let once = cursor_after_input(looped, cursor, UserInput::Top, item_count);
            cursor_after_input(looped, once, UserInput::Top, item_count) == once
        }),
        ({
            let once = cursor_after_input(looped, cursor, UserInput::Bottom, item_count);
            cursor_after_input(looped, once, UserInput::Bottom, item_count) == once
        }),
{
}

/// Once the list is empty, the next directional input clears the cursor,
/// wherever it stood.
pub proof fn lemma_empty_list_clears_cursor(
    looped: bool,
    cursor: Option<usize>,
    input: UserInput,
)
    requires
        is_directional(input),
    ensures
        cursor_after_input(looped, cursor, input, 0) is None,
{
}

} // verus!
