//! State management for a terminal launcher: a cursor over lists whose
//! length the caller supplies, the catalog of game installations with the
//! rules by which actions change it, and the log of fetched commits.

pub mod datatypes;
pub mod input;
pub mod states;
