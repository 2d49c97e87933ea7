//! Commits of the game's repository, as the launcher shows them.

use vstd::prelude::*;

verus! {

/// Who wrote a commit.
#[derive(Clone, Debug, PartialEq, Eq)]
pub struct CommitAuthor {
    pub name: String,
}

/// One commit: the first line of its message and its author.
#[derive(Clone, Debug, PartialEq, Eq)]
pub struct Commit {
    pub title: String,
    pub author: CommitAuthor,
}

/// A run of commits in the order in which the repository lists them.
#[derive(Clone, Debug, PartialEq, Eq)]
pub struct CommitRange(pub Vec<Commit>);

/// Why a fetch brought no commits.
#[derive(Clone, Copy, Debug, PartialEq, Eq)]
pub enum FetchError {
    /// The request could not be sent, or no answer came.
    Request,
    /// The server answered with an error status.
    Status,
    /// The answer was not a list of commits.
    Decode,
}

} // verus!
