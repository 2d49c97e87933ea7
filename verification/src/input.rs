//! The vocabulary shared by the views and the application shell.

use vstd::prelude::*;

verus! {

/// A key press, reduced to what it means to the application.
#[derive(Clone, Copy, Debug, PartialEq, Eq)]
pub enum UserInput {
    Up,
    Down,
    Back,
    Top,
    Bottom,
    Enter,
    Quit,
    Char(char),
}

/// What a view reports back to the application once it has taken an input.
#[derive(Clone, Copy, Debug, PartialEq, Eq)]
pub enum AppAction {
    /// The input was consumed and nothing else is left to do.
    Accepted,
}

} // verus!
