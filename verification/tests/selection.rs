use launcher_core::input::{AppAction, UserInput};
use launcher_core::states::StatelessList;
use tui::widgets::{ListState, TableState};

fn list(looped: bool) -> StatelessList<ListState> {
    StatelessList::new(ListState::default(), looped)
}

fn table(looped: bool) -> StatelessList<TableState> {
    StatelessList::new(TableState::default(), looped)
}

#[test]
fn new_list_has_no_selection() {
    assert_eq!(list(false).selected(), None);
    assert_eq!(list(true).selected(), None);
    assert_eq!(table(false).selected(), None);
}

#[test]
fn new_keeps_the_state_it_is_given() {
    let mut state = ListState::default();
    state.select(Some(4));
    let l = StatelessList::new(state, false);
    assert_eq!(l.selected(), Some(4));
    assert_eq!(l.state.selected(), Some(4));
}

#[test]
fn select_index_is_read_back_from_a_list_state() {
    let mut l = list(false);
    l.select_index(3);
    assert_eq!(l.selected(), Some(3));
    assert_eq!(l.state.selected(), Some(3));
    l.select_index(8);
    assert_eq!(l.selected(), Some(8));
}

#[test]
fn select_index_is_read_back_from_a_table_state() {
    let mut t = table(false);
    t.select_index(5);
    assert_eq!(t.selected(), Some(5));
    assert_eq!(t.state.selected(), Some(5));
    t.select_index(1);
    assert_eq!(t.selected(), Some(1));
}

#[test]
fn select_index_does_not_check_bounds() {
    let mut l = list(false);
    l.select_index(usize::MAX);
    assert_eq!(l.selected(), Some(usize::MAX));
}

#[test]
fn unselect_clears() {
    let mut l = list(true);
    l.select_index(2);
    l.unselect();
    assert_eq!(l.selected(), None);
    l.unselect();
    assert_eq!(l.selected(), None);
}

#[test]
fn next_from_nothing_selects_first() {
    let mut l = list(false);
    l.select_next(4);
    assert_eq!(l.selected(), Some(0));
}

#[test]
fn previous_from_nothing_selects_first() {
    let mut l = list(true);
    l.select_previous(4);
    assert_eq!(l.selected(), Some(0));
}

#[test]
fn next_advances_by_one() {
    let mut l = list(false);
    l.select_index(1);
    l.select_next(4);
    assert_eq!(l.selected(), Some(2));
    l.select_next(4);
    assert_eq!(l.selected(), Some(3));
}

#[test]
fn previous_goes_back_by_one() {
    let mut t = table(false);
    t.select_index(3);
    t.select_previous(4);
    assert_eq!(t.selected(), Some(2));
    t.select_previous(4);
    assert_eq!(t.selected(), Some(1));
}

#[test]
fn looped_next_wraps_to_first() {
    let mut l = list(true);
    l.select_index(3);
    l.select_next(4);
    assert_eq!(l.selected(), Some(0));
}

#[test]
fn looped_previous_wraps_to_last() {
    let mut l = list(true);
    l.select_index(0);
    l.select_previous(4);
    assert_eq!(l.selected(), Some(3));
}

#[test]
fn unlooped_next_stays_on_last() {
    let mut l = list(false);
    l.select_index(3);
    l.select_next(4);
    assert_eq!(l.selected(), Some(3));
}

#[test]
fn unlooped_previous_stays_on_first() {
    let mut l = list(false);
    l.select_index(0);
    l.select_previous(4);
    assert_eq!(l.selected(), Some(0));
}

#[test]
fn single_row_list() {
    let mut l = list(true);
    l.select_next(1);
    assert_eq!(l.selected(), Some(0));
    l.select_next(1);
    assert_eq!(l.selected(), Some(0));
    l.select_previous(1);
    assert_eq!(l.selected(), Some(0));
    let mut u = list(false);
    u.select_previous(1);
    u.select_next(1);
    assert_eq!(u.selected(), Some(0));
}

#[test]
fn first_and_last_jump() {
    let mut l = list(false);
    l.select_last(7);
    assert_eq!(l.selected(), Some(6));
    l.select_first(7);
    assert_eq!(l.selected(), Some(0));
}

#[test]
fn first_and_last_are_idempotent() {
    let mut l = list(true);
    l.select_index(2);
    l.select_first(5);
    let once: Option<usize> = l.selected();
    l.select_first(5);
    assert_eq!(l.selected(), once);
    assert_eq!(once, Some(0));
    l.select_last(5);
    let once: Option<usize> = l.selected();
    l.select_last(5);
    assert_eq!(l.selected(), once);
    assert_eq!(once, Some(4));
}

#[test]
fn empty_list_clears_on_every_move() {
    let mut l = list(true);
    l.select_index(2);
    l.select_next(0);
    assert_eq!(l.selected(), None);
    l.select_index(2);
    l.select_previous(0);
    assert_eq!(l.selected(), None);
    l.select_index(2);
    l.select_first(0);
    assert_eq!(l.selected(), None);
    l.select_index(2);
    l.select_last(0);
    assert_eq!(l.selected(), None);
}

#[test]
fn shrinking_to_nothing_clears_the_cursor() {
    let mut l = list(false);
    l.select_next(3);
    l.select_next(3);
    assert_eq!(l.selected(), Some(1));
    l.select_next(0);
    assert_eq!(l.selected(), None);
}

#[test]
fn steps_keep_the_cursor_on_a_row() {
    let n: usize = 3;
    for looped in [false, true] {
        let mut l = list(looped);
        let steps = [true, true, true, true, false, false, false, false, false, true, false];
        for forward in steps {
            if forward {
                l.select_next(n);
            } else {
                l.select_previous(n);
            }
            let at: usize = l.selected().unwrap();
            assert!(at < n);
        }
    }
}

#[test]
fn stale_cursor_on_unlooped_list_stays_until_walked_back() {
    let mut l = list(false);
    l.select_index(7);
    l.select_next(3);
    assert_eq!(l.selected(), Some(7));
    l.select_previous(3);
    assert_eq!(l.selected(), Some(6));
    for _ in 0..4 {
        l.select_previous(3);
    }
    assert_eq!(l.selected(), Some(2));
}

#[test]
fn stale_cursor_on_looped_list_wraps_on_next() {
    let mut l = list(true);
    l.select_index(7);
    l.select_next(3);
    assert_eq!(l.selected(), Some(0));
}

#[test]
fn on_input_maps_directions() {
    let mut l = list(false);
    assert_eq!(l.on_input(&UserInput::Down, 5), Some(AppAction::Accepted));
    assert_eq!(l.selected(), Some(0));
    assert_eq!(l.on_input(&UserInput::Down, 5), Some(AppAction::Accepted));
    assert_eq!(l.selected(), Some(1));
    assert_eq!(l.on_input(&UserInput::Up, 5), Some(AppAction::Accepted));
    assert_eq!(l.selected(), Some(0));
    assert_eq!(l.on_input(&UserInput::Bottom, 5), Some(AppAction::Accepted));
    assert_eq!(l.selected(), Some(4));
    assert_eq!(l.on_input(&UserInput::Top, 5), Some(AppAction::Accepted));
    assert_eq!(l.selected(), Some(0));
    assert_eq!(l.on_input(&UserInput::Back, 5), Some(AppAction::Accepted));
    assert_eq!(l.selected(), None);
}

#[test]
fn on_input_leaves_other_inputs_alone() {
    let mut l = list(true);
    l.select_index(2);
    assert_eq!(l.on_input(&UserInput::Enter, 5), None);
    assert_eq!(l.selected(), Some(2));
    assert_eq!(l.on_input(&UserInput::Quit, 5), None);
    assert_eq!(l.selected(), Some(2));
    assert_eq!(l.on_input(&UserInput::Char('j'), 0), None);
    assert_eq!(l.selected(), Some(2));
}

#[test]
fn on_input_on_empty_list_clears() {
    let inputs = [
        UserInput::Up,
        UserInput::Down,
        UserInput::Top,
        UserInput::Bottom,
        UserInput::Back,
    ];
    for input in inputs {
        let mut t = table(true);
        t.select_index(1);
        assert_eq!(t.on_input(&input, 0), Some(AppAction::Accepted));
        assert_eq!(t.selected(), None);
    }
}
