//! Decision core of a repository updater: it validates remotes, fetches,
//! brackets local changes with a snapshot, reconciles tracked branches and
//! synchronises submodules, and leaves every repository operation to its
//! caller as an explicit action.

pub mod engine;
pub mod dirty;
pub mod error;
pub mod laws;
pub mod merge;
pub mod outcome;
pub mod pipeline;
pub mod remotes;
