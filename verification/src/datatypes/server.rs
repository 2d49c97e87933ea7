//! What a game server tells about the build it runs.

use vstd::prelude::*;

verus! {

/// Names one build of the game. Two versions are the same build exactly if
/// their names are the same text.
#[derive(Debug, PartialEq, Eq, PartialOrd, Ord, Hash)]
pub struct GameVersion {
    name: String,
}

impl View for GameVersion {
    type V = Seq<char>;

    closed spec fn view(&self) -> Seq<char> {
        self.name@
    }
}

impl GameVersion {
    /// The version that `name` names.
    pub fn new(name: String) -> (version: Self)
        ensures
            version@ == name@,
    {
        Self { name }
    }

    /// The text that names the build.
    pub fn name(&self) -> (name: &str)
        ensures
            name@ == self@,
    {
        self.name.as_str()
    }

    /// Whether both name the same build.
    pub fn same_as(&self, other: &GameVersion) -> (same: bool)
        ensures
            same == (self@ == other@),
    {
        self.name == other.name
    }
}

impl Clone for GameVersion {
    fn clone(&self) -> (copy: Self)
        ensures
            copy@ == self@,
    {
        Self { name: self.name.clone() }
    }
}

} // verus!
