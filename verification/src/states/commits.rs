//! The log of commits that have been fetched so far.

use crate::datatypes::commit::{Commit, CommitRange, FetchError};
use vstd::prelude::*;

verus! {

/// The commits fetched so far, oldest fetch first.
pub struct CommitState {
    pub items: Vec<Commit>,
}

impl Default for CommitState {
    fn default() -> (state: Self)
        ensures
            state.items@ == Seq::<Commit>::empty(),
    {
        Self::new()
    }
}

impl CommitState {
    pub fn new() -> (state: Self)
        ensures
            state.items@ == Seq::<Commit>::empty(),
    {
        Self { items: Vec::new() }
    }

    /// The number of commits in the log.
    pub fn count(&self) -> (count: usize)
        ensures
            count == self.items@.len(),
    {
        self.items.len()
    }

    /// Takes in what a fetch brought: the commits go to the end of the log;
    /// a failed fetch leaves the log as it was.
    pub fn load(&mut self, fetched: Result<CommitRange, FetchError>)
        ensures
            final(self).items@ == match fetched {
                Ok(data) => old(self).items@ + data.0@,
                Err(_) => old(self).items@,
            },
    {
        match fetched {
            Ok(data) => self.update(data),
            Err(_) => {},
        }
    }

    /// Adds the commits to the end of the log, in their order.
    pub fn update(&mut self, data: CommitRange)
        ensures
            final(self).items@ == old(self).items@ + data.0@,
    {
        let mut commits = data.0;
        self.items.append(&mut commits);
    }
}

} // verus!
