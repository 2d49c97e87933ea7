//! Installations of the game and the requests that change them.

use crate::datatypes::server::GameVersion;
use vstd::prelude::*;

verus! {

/// How far a version has come on this machine.
#[derive(Clone, Copy, Debug, PartialEq, Eq)]
pub enum InstallationKind {
    /// Known to exist; nothing has been done about it here.
    Discovered,
    /// Being fetched: `progress` of `total` is there.
    Downloading { progress: u64, total: u64 },
    /// Fetched and ready to run.
    Installed,
    /// The installation was given up.
    Failed,
}

impl InstallationKind {
    /// A download never holds more than its total.
    pub open spec fn valid(self) -> bool {
        self matches InstallationKind::Downloading { progress, total } ==> progress <= total
    }
}

/// The record of one version.
#[derive(Clone, Debug, PartialEq, Eq)]
pub struct Installation {
    pub version: GameVersion,
    pub kind: InstallationKind,
}

/// A request to change the catalog of installations.
#[derive(Clone, Debug, PartialEq, Eq)]
pub enum InstallationAction {
    /// A scan found `new`. Where `old` is given, it must be on record for
    /// the discovery to count, and `new` takes its place unless something
    /// has been done about `old` already.
    VersionDiscovered { new: GameVersion, old: Option<GameVersion> },
    /// Fetch and install this version.
    Install(GameVersion),
    /// Remove this version from the machine. The catalog takes the request
    /// and does not act on it.
    Uninstall(GameVersion),
}

} // verus!
