//! Selection state that serves every list-like widget.

pub mod catalog;
pub mod commits;
pub mod cursor;
pub mod installations;

use crate::input::{AppAction, UserInput};
use crate::states::cursor::{
    cursor_after_input, cursor_after_next, cursor_after_previous, first_row, input_rests,
    is_directional, last_row, next_rests, previous_rests,
};
use tui::widgets::{ListState, TableState};
use vstd::prelude::*;

verus! {

/// `tui::widgets::ListState`, the state of a list widget between two
/// frames. Nothing is known of its inside.
#[verifier::external_type_specification]
#[verifier::external_body]
pub struct ExListState(ListState);

/// `tui::widgets::TableState`, the state of a table widget between two
/// frames. Nothing is known of its inside.
#[verifier::external_type_specification]
#[verifier::external_body]
pub struct ExTableState(TableState);

/// The row that a list widget's state holds as selected.
pub uninterp spec fn list_selection(state: ListState) -> Option<usize>;

/// The row that a table widget's state holds as selected.
pub uninterp spec fn table_selection(state: TableState) -> Option<usize>;

/// Calls `tui::widgets::ListState::selected`, which hands out the row that
/// the state holds as selected.
#[verifier::external_body]
fn list_selected(state: &ListState) -> (index: Option<usize>)
    ensures
        index == list_selection(*state),
{
    state.selected()
}

/// Calls `tui::widgets::ListState::select`, after which the state holds the
/// row it was given, or none if it was given none.
#[verifier::external_body]
fn list_select(state: &mut ListState, index: Option<usize>)
    ensures
        list_selection(*final(state)) == index,
{
    state.select(index)
}

/// Calls `tui::widgets::TableState::selected`, which hands out the row that
/// the state holds as selected.
#[verifier::external_body]
fn table_selected(state: &TableState) -> (index: Option<usize>)
    ensures
        index == table_selection(*state),
{
    state.selected()
}

/// Calls `tui::widgets::TableState::select`, after which the state holds
/// the row it was given, or none if it was given none.
#[verifier::external_body]
fn table_select(state: &mut TableState, index: Option<usize>)
    ensures
        table_selection(*final(state)) == index,
{
    state.select(index)
}

/// A widget state that remembers at most one selected row. The widgets of
/// `tui` each bring a state of their own; this is what they have in common.
pub trait TuiState {
    /// The row the state holds as selected.
    spec fn cursor(&self) -> Option<usize>;

    /// Reads the selected row.
    fn selected(&self) -> (index: Option<usize>)
        ensures
            index == self.cursor(),
    ;

    /// Makes `index` the selected row, or clears the selection.
    fn select(&mut self, index: Option<usize>)
        ensures
            final(self).cursor() == index,
    ;
}

impl TuiState for ListState {
    open spec fn cursor(&self) -> Option<usize> {
        list_selection(*self)
    }

    fn selected(&self) -> (index: Option<usize>) {
        list_selected(self)
    }

    fn select(&mut self, index: Option<usize>) {
        list_select(self, index)
    }
}

impl TuiState for TableState {
    open spec fn cursor(&self) -> Option<usize> {
        table_selection(*self)
    }

    fn selected(&self) -> (index: Option<usize>) {
        table_selected(self)
    }

    fn select(&mut self, index: Option<usize>) {
        table_select(self, index)
    }
}

/// A cursor over rows whose number the caller names with every move.
pub struct StatelessList<T: TuiState> {
    pub state: T,
    looped: bool,
}

impl<T: TuiState> StatelessList<T> {
    /// Whether a step past either end comes out at the other end.
    pub closed spec fn looped(&self) -> bool {
        self.looped
    }

    /// The widget state that the list was made with, as it is now.
    pub closed spec fn widget_state(&self) -> T {
        self.state
    }

    /// The selected row, if any.
    pub open spec fn cursor(&self) -> Option<usize> {
        self.widget_state().cursor()
    }

    /// A list over `state`, which keeps whatever row it has selected.
    pub fn new(state: T, looped: bool) -> (list: Self)
        ensures
            list.widget_state() == state,
            list.looped() == looped,
    {
        Self { state, looped }
    }

    /// The selected row, if any.
    pub fn selected(&self) -> (index: Option<usize>)
        ensures
            index == self.cursor(),
    {
        self.state.selected()
    }

    /// Steps towards the end of `item_count` rows: from no row to the
    /// first, from the last row to the first if the list loops.
    pub fn select_next(&mut self, item_count: usize)
        ensures
            final(self).cursor() == cursor_after_next(
                old(self).looped(),
                old(self).cursor(),
                item_count,
            ),
            final(self).looped() == old(self).looped(),
            next_rests(old(self).looped(), old(self).cursor(), item_count)
                ==> *final(self) == *old(self),
    {
        if item_count == 0 {
            self.state.select(None);
        } else {
            match self.selected() {
                None => self.state.select(Some(0)),
                Some(i) => {
                    if i < item_count - 1 {
                        self.state.select(Some(i + 1))
                    } else if self.looped {
                        self.state.select(Some(0))
                    }
                },
            }
        }
    }

    /// Steps towards the start of `item_count` rows: from no row to the
    /// first, from the first row to the last if the list loops.
    pub fn select_previous(&mut self, item_count: usize)
        ensures
            final(self).cursor() == cursor_after_previous(
                old(self).looped(),
                old(self).cursor(),
                item_count,
            ),
            final(self).looped() == old(self).looped(),
            previous_rests(old(self).looped(), old(self).cursor(), item_count)
                ==> *final(self) == *old(self),
    {
        if item_count == 0 {
            self.state.select(None);
        } else {
            match self.state.selected() {
                None => self.state.select(Some(0)),
                Some(i) => {
                    if i != 0 {
                        self.state.select(Some(i - 1))
                    } else if self.looped {
                        self.state.select(Some(item_count - 1))
                    }
                },
            }
        }
    }

    /// Jumps to the first of `item_count` rows.
    pub fn select_first(&mut self, item_count: usize)
        ensures
            final(self).cursor() == first_row(item_count),
            final(self).looped() == old(self).looped(),
    {
        if item_count == 0 {
            self.state.select(None);
        } else {
            self.state.select(Some(0));
        }
    }

    /// Jumps to the last of `item_count` rows.
    pub fn select_last(&mut self, item_count: usize)
        ensures
            final(self).cursor() == last_row(item_count),
            final(self).looped() == old(self).looped(),
    {
        if item_count == 0 {
            self.state.select(None);
        } else {
            self.state.select(Some(item_count - 1));
        }
    }

    /// Puts the cursor on `index`, whether or not the list has such a row.
    pub fn select_index(&mut self, index: usize)
        ensures
            final(self).cursor() == Some(index),
            final(self).looped() == old(self).looped(),
    {
        self.state.select(Some(index))
    }

    /// Clears the cursor.
    pub fn unselect(&mut self)
        ensures
            final(self).cursor() is None,
            final(self).looped() == old(self).looped(),
    {
        self.state.select(None);
    }

    /// Takes a directional input and reports it as accepted; leaves any
    /// other input to the caller.
    pub fn on_input(&mut self, input: &UserInput, item_count: usize) -> (action: Option<AppAction>)
        ensures
            final(self).cursor() == cursor_after_input(
                old(self).looped(),
                old(self).cursor(),
                *input,
                item_count,
            ),
            final(self).looped() == old(self).looped(),
            input_rests(old(self).looped(), old(self).cursor(), *input, item_count)
                ==> *final(self) == *old(self),
            action == if is_directional(*input) {
                Some(AppAction::Accepted)
            } else {
                None
            },
    {
        match input {
            UserInput::Up => {
                self.select_previous(item_count);
                Some(AppAction::Accepted)
            },
            UserInput::Down => {
                self.select_next(item_count);
                Some(AppAction::Accepted)
            },
            UserInput::Back => {
                self.unselect();
                Some(AppAction::Accepted)
            },
            UserInput::Top => {
                self.select_first(item_count);
                Some(AppAction::Accepted)
            },
            UserInput::Bottom => {
                self.select_last(item_count);
                Some(AppAction::Accepted)
            },
            _ => None,
        }
    }
}

} // verus!
