use crate::error::StageError;
use vstd::prelude::*;

verus! {

/// Operational state of the repository when it was opened.
#[derive(Debug, PartialEq, Eq)]
pub enum RepoState {
    /// No multi-step operation is in progress.
    Clean,
    /// An unfinished operation (merge, rebase, bisect, ...) named here.
    Busy(String),
}

/// The remote-tracking branch that a local branch follows.
#[derive(Debug, PartialEq, Eq)]
pub struct Upstream {
    pub name: Option<String>,
}

/// A local branch as listed by the engine; a name is absent when it is not
/// text, the upstream when none is configured or it cannot be resolved.
#[derive(Debug, PartialEq, Eq)]
pub struct LocalBranch {
    pub name: Option<String>,
    pub upstream: Option<Upstream>,
}

/// How the engine reconciled a branch with its upstream.
#[derive(Debug, PartialEq, Eq)]
pub enum MergeKind {
    UpToDate,
    FastForwarded,
    Merged,
    /// The merge produced conflicts. Nothing is written: the conflict is
    /// reported and left to the operator, the tree stays as it was.
    Conflicted,
}

/// What happened to one local branch.
#[derive(Debug, PartialEq)]
pub enum MergeOutcome {
    NoUpstream,
    FastForwarded,
    Merged,
    Skipped(&'static str),
    Conflicted,
    Failed(StageError),
}

/// One line of the branch report.
#[derive(Debug, PartialEq)]
pub struct BranchReport {
    pub name: Option<String>,
    pub upstream: Option<String>,
    pub outcome: MergeOutcome,
}

/// What happened when fetching from one validated remote.
#[derive(Debug, PartialEq)]
pub enum FetchOutcome {
    Fetched(String),
    Skipped(String),
    Failed { name: String, error: StageError },
}

/// What happened to one submodule.
#[derive(Debug, PartialEq)]
pub enum SubmoduleOutcome {
    Synced(String),
    NonRepresentable,
    Failed { name: String, error: StageError },
}

/// A condition that ends the run with a non-zero exit status.
#[derive(Debug, PartialEq)]
pub enum Fatal {
    NotARepository(StageError),
    RepositoryBusy(String),
    NoRemotes(StageError),
    StatusFailed(StageError),
    StashSaveFailed(StageError),
    ListingFailed(StageError),
    /// Local work now lives only in the snapshot named here.
    StashRestoreFailed { snapshot: String, error: StageError },
}

} // verus!
