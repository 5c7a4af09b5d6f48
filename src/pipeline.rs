use crate::dirty::{is_dirty, scan_is_dirty};
use crate::error::StageError;
use crate::outcome::{
    BranchReport, Fatal, FetchOutcome, LocalBranch, MergeKind, MergeOutcome, RepoState,
    SubmoduleOutcome,
};
use crate::remotes::{get_remote_validation, get_remotes, RemoteOutcome, ValidatedRemote};
use vstd::prelude::*;

verus! {

/// Where the run stands; the stages follow each other in this order.
#[derive(Debug, Clone, Copy, PartialEq, Eq, Structural)]
pub enum Phase {
    Opening,
    ListingRemotes,
    Validating,
    Fetching,
    Scanning,
    Saving,
    ListingBranches,
    Merging,
    ListingSubmodules,
    Syncing,
    Restoring,
    Finished,
}

/// The repository operation that the caller is to perform next.
#[derive(Debug, PartialEq, Eq)]
pub enum Action {
    /// Locate the repository from the current directory upwards.
    Open,
    ListRemotes,
    LookUpRemote(String),
    /// Fetch with pruning and every tag.
    Fetch(String),
    ScanStatus,
    SaveSnapshot,
    ListBranches,
    Reconcile { local: String, upstream: String },
    ListSubmodules,
    SyncSubmodule(String),
    /// Restore the snapshot named here and drop it.
    RestoreSnapshot(String),
    /// Nothing is left to do: the run is over.
    Finish,
}

/// What the caller observed when performing an action.
#[derive(Debug, PartialEq)]
pub enum Event {
    Opened(Result<RepoState, git2::Error>),
    RemotesListed(Result<Vec<Option<String>>, git2::Error>),
    RemoteLookedUp(Result<Option<String>, git2::Error>),
    Fetched(Result<(), git2::Error>),
    StatusScanned(Result<Vec<u32>, git2::Error>),
    SnapshotSaved(Result<String, git2::Error>),
    BranchesListed(Result<Vec<LocalBranch>, git2::Error>),
    BranchReconciled(Result<MergeKind, git2::Error>),
    SubmodulesListed(Result<Vec<Option<String>>, git2::Error>),
    SubmoduleSynced(Result<(), git2::Error>),
    SnapshotRestored(Result<(), git2::Error>),
}

/// The saved copy of local changes, if any.
#[derive(Debug, PartialEq, Eq)]
pub enum Snapshot {
    Absent,
    Held(String),
    Restored,
}

/// Everything reported about the items of the run, in processing order.
#[derive(Debug, PartialEq)]
pub struct Report {
    /// One entry per configured remote.
    pub remotes: Vec<RemoteOutcome>,
    pub fetches: Vec<FetchOutcome>,
    pub branches: Vec<BranchReport>,
    pub submodules: Vec<SubmoduleOutcome>,
}

/// The update run as a state machine: `action` says what to do next,
/// `advance` takes what came of it.
///
/// A run in which no remote survives validation is not fatal: nothing is
/// fetched and the run goes on with the local branches.
#[derive(Debug, PartialEq)]
pub struct Pipeline {
    pub dry_run: bool,
    pub phase: Phase,
    pub remote_names: Vec<Option<String>>,
    pub remote_index: usize,
    pub fetch_index: usize,
    pub dirty: bool,
    pub snapshot: Snapshot,
    pub branches: Vec<LocalBranch>,
    pub branch_index: usize,
    pub submodules: Vec<Option<String>>,
    pub submodule_index: usize,
    pub fatal: Option<Fatal>,
    pub report: Report,
}

/// Position of a phase in the order of the run.
pub open spec fn rank(ph: Phase) -> int {
    match ph {
        Phase::Opening => 0,
        Phase::ListingRemotes => 1,
        Phase::Validating => 2,
        Phase::Fetching => 3,
        Phase::Scanning => 4,
        Phase::Saving => 5,
        Phase::ListingBranches => 6,
        Phase::Merging => 7,
        Phase::ListingSubmodules => 8,
        Phase::Syncing => 9,
        Phase::Restoring => 10,
        Phase::Finished => 11,
    }
}

/// A branch is merged only when it has an upstream and both names are text.
pub open spec fn mergeable(b: LocalBranch) -> bool {
    &&& b.name is Some
    &&& b.upstream is Some
    &&& b.upstream->Some_0.name is Some
}

/// The event that answers the action of a phase.
pub open spec fn answers(ph: Phase, ev: Event) -> bool {
    match ph {
        Phase::Opening => ev is Opened,
        Phase::ListingRemotes => ev is RemotesListed,
        Phase::Validating => ev is RemoteLookedUp,
        Phase::Fetching => ev is Fetched,
        Phase::Scanning => ev is StatusScanned,
        Phase::Saving => ev is SnapshotSaved,
        Phase::ListingBranches => ev is BranchesListed,
        Phase::Merging => ev is BranchReconciled,
        Phase::ListingSubmodules => ev is SubmodulesListed,
        Phase::Syncing => ev is SubmoduleSynced,
        Phase::Restoring => ev is SnapshotRestored,
        Phase::Finished => false,
    }
}

impl Pipeline {
    /// The state invariant of a run.
    pub open spec fn wf(self) -> bool {
        let ph = self.phase;
        let names = self.remote_names@;
        let remotes = self.report.remotes@;
        &&& self.remote_index <= names.len()
        &&& (rank(ph) <= 1 ==> names.len() == 0 && remotes.len() == 0)
        &&& (ph is Validating ==> self.remote_index < names.len() && names[self.remote_index as int] is Some
            && remotes.len() == self.remote_index)
        &&& (rank(ph) >= 3 ==> remotes.len() == names.len() && self.remote_index == names.len())
        &&& remotes.len() <= names.len()
        &&& (forall|k: int|
            0 <= k < remotes.len() && names[k] is None ==> #[trigger] remotes[k] is Invalid)
        &&& (ph is Fetching ==> !self.dry_run && self.fetch_index < remotes.len()
            && remotes[self.fetch_index as int] is Valid)
        &&& (ph is Saving ==> self.dirty && self.snapshot is Absent)
        &&& (rank(ph) <= 5 ==> self.snapshot is Absent)
        &&& (6 <= rank(ph) <= 9 ==> (self.dirty <==> self.snapshot is Held))
        &&& (6 <= rank(ph) <= 9 ==> !(self.snapshot is Restored))
        &&& (ph is Merging ==> !self.dry_run && self.branch_index < self.branches@.len()
            && mergeable(self.branches@[self.branch_index as int]))
        &&& (ph is Syncing ==> self.submodule_index < self.submodules@.len()
            && self.submodules@[self.submodule_index as int] is Some)
        &&& (ph is Restoring ==> self.snapshot is Held)
        &&& (ph is Finished && self.snapshot is Held ==> self.fatal is Some
            && self.fatal->Some_0 is StashRestoreFailed)
        &&& (rank(ph) <= 9 ==> self.fatal is None)
        &&& (rank(ph) <= 2 ==> self.fetch_index == 0)
    }

    /// The action that a well-formed state asks for.
    pub open spec fn action_of(self) -> Action {
        match self.phase {
            Phase::Opening => Action::Open,
            Phase::ListingRemotes => Action::ListRemotes,
            Phase::Validating => Action::LookUpRemote(
                self.remote_names@[self.remote_index as int]->Some_0,
            ),
            Phase::Fetching => Action::Fetch(
                self.report.remotes@[self.fetch_index as int]->Valid_0.name,
            ),
            Phase::Scanning => Action::ScanStatus,
            Phase::Saving => Action::SaveSnapshot,
            Phase::ListingBranches => Action::ListBranches,
            Phase::Merging => Action::Reconcile {
                local: self.branches@[self.branch_index as int].name->Some_0,
                upstream: self.branches@[self.branch_index as int].upstream->Some_0.name->Some_0,
            },
            Phase::ListingSubmodules => Action::ListSubmodules,
            Phase::Syncing => Action::SyncSubmodule(
                self.submodules@[self.submodule_index as int]->Some_0,
            ),
            Phase::Restoring => Action::RestoreSnapshot(self.snapshot->Held_0),
            Phase::Finished => Action::Finish,
        }
    }

    /// A fresh run, before the repository is opened.
    pub open spec fn is_initial(self, dry_run: bool) -> bool {
        &&& self.dry_run == dry_run
        &&& self.phase == Phase::Opening
        &&& self.remote_names@.len() == 0
        &&& self.remote_index == 0
        &&& self.fetch_index == 0
        &&& !self.dirty
        &&& self.snapshot is Absent
        &&& self.branches@.len() == 0
        &&& self.branch_index == 0
        &&& self.submodules@.len() == 0
        &&& self.submodule_index == 0
        &&& self.fatal is None
        &&& self.report.remotes@.len() == 0
        &&& self.report.fetches@.len() == 0
        &&& self.report.branches@.len() == 0
        &&& self.report.submodules@.len() == 0
    }
}

/// What one call of `advance` guarantees about the state before and after.
pub open spec fn step(pre: Pipeline, ev: Event, post: Pipeline) -> bool {
    &&& post.wf()
    &&& post.dry_run == pre.dry_run
    &&& rank(pre.phase) <= rank(post.phase)
    &&& (!answers(pre.phase, ev) ==> post == pre)
    &&& (answers(pre.phase, ev) && pre.phase is Saving ==> rank(post.phase) > 5)
    &&& (answers(pre.phase, ev) && pre.phase is Restoring ==> post.phase is Finished)
    &&& (pre.snapshot is Held && !(pre.phase is Restoring) && !(pre.phase is Finished)
        ==> post.snapshot == pre.snapshot && !(post.phase is Finished))
    &&& (pre.phase is Saving && post.snapshot is Held ==> !(post.phase is Finished))
    &&& (!(pre.phase is Saving) && !(pre.phase is Restoring) ==> post.snapshot == pre.snapshot)
    &&& (pre.phase is Opening && ev is Opened && ev->Opened_0 is Ok && ev->Opened_0->Ok_0 is Busy
        ==> post.phase is Finished && post.fatal == Some(
        Fatal::RepositoryBusy(ev->Opened_0->Ok_0->Busy_0),
    ))
    &&& pre.report.remotes@.is_prefix_of(post.report.remotes@)
    &&& (rank(pre.phase) >= 2 ==> post.remote_names@ == pre.remote_names@)
    &&& (rank(pre.phase) >= 5 ==> post.dirty == pre.dirty)
    &&& (pre.phase is Scanning && ev is StatusScanned && ev->StatusScanned_0 is Ok ==> post.dirty
        == scan_is_dirty(ev->StatusScanned_0->Ok_0@))
    &&& pre.report.branches@.is_prefix_of(post.report.branches@)
    &&& (pre.phase is Merging && ev == Event::BranchReconciled(
        Ok::<MergeKind, git2::Error>(MergeKind::Conflicted),
    ) ==> {
        &&& post.fatal is None
        &&& (post.phase is Merging && post.branch_index > pre.branch_index
            || post.phase is ListingSubmodules)
        &&& post.report.branches@.len() > pre.report.branches@.len()
        &&& post.report.branches@[pre.report.branches@.len() as int] == (BranchReport {
            name: pre.branches@[pre.branch_index as int].name,
            upstream: pre.branches@[pre.branch_index as int].upstream->Some_0.name,
            outcome: MergeOutcome::Conflicted,
        })
    })
}

/// The report entry of a remote whose name is not text.
pub open spec fn unnamed_remote() -> RemoteOutcome {
    RemoteOutcome::Invalid {
        name: None,
        error: StageError { msg: "non-representable remote name/URL", err: None },
    }
}

/// The entries reported for the remotes `from .. to`, all of them unnamed.
pub open spec fn unnamed_remotes(from: int, to: int) -> Seq<RemoteOutcome>
    decreases to - from,
{
    if to <= from {
        Seq::empty()
    } else {
        unnamed_remotes(from, to - 1).push(unnamed_remote())
    }
}

/// The fetch entries for the validated remotes among `from .. to` that are
/// passed over: in a dry run each is reported skipped.
pub open spec fn passed_over_fetches(remotes: Seq<RemoteOutcome>, from: int, to: int) -> Seq<
    FetchOutcome,
>
    decreases to - from,
{
    if to <= from {
        Seq::empty()
    } else {
        let rest = passed_over_fetches(remotes, from, to - 1);
        match remotes[to - 1] {
            RemoteOutcome::Valid(r) => rest.push(FetchOutcome::Skipped(r.name)),
            RemoteOutcome::Invalid { .. } => rest,
        }
    }
}

/// The report of a branch that is not merged.
pub open spec fn skip_report(b: LocalBranch, dry_run: bool) -> BranchReport {
    match b.upstream {
        None => BranchReport { name: b.name, upstream: None, outcome: MergeOutcome::NoUpstream },
        Some(up) => BranchReport {
            name: b.name,
            upstream: up.name,
            outcome: if b.name is None || up.name is None {
                MergeOutcome::Skipped("non-representable name")
            } else if dry_run {
                MergeOutcome::Skipped("dry-run")
            } else {
                MergeOutcome::Skipped("not merged")
            },
        },
    }
}

/// The reports of the branches `from .. to`, none of which is merged.
pub open spec fn skipped_branches(bs: Seq<LocalBranch>, from: int, to: int, dry_run: bool) -> Seq<
    BranchReport,
>
    decreases to - from,
{
    if to <= from {
        Seq::empty()
    } else {
        skipped_branches(bs, from, to - 1, dry_run).push(skip_report(bs[to - 1], dry_run))
    }
}

/// The reports of the submodules `from .. to`, all of them unnamed.
pub open spec fn unnamed_submodules(from: int, to: int) -> Seq<SubmoduleOutcome>
    decreases to - from,
{
    if to <= from {
        Seq::empty()
    } else {
        unnamed_submodules(from, to - 1).push(SubmoduleOutcome::NonRepresentable)
    }
}

/// An engine error wrapped with the message of the stage that met it.
pub open spec fn wrapped(msg: &'static str, e: git2::Error) -> StageError {
    StageError { msg: msg, err: Some(e) }
}

/// The report entry of the remote `name` after its lookup.
pub open spec fn lookup_outcome(name: String, res: Result<Option<String>, git2::Error>) -> RemoteOutcome {
    match res {
        Ok(Some(url)) => RemoteOutcome::Valid(ValidatedRemote { name: name, url: url }),
        Ok(None) => RemoteOutcome::Invalid {
            name: Some(name),
            error: StageError { msg: "non-representable remote URL", err: None },
        },
        Err(e) => RemoteOutcome::Invalid { name: Some(name), error: wrapped("remote lookup failed", e) },
    }
}

/// The report entry of a fetch from `name`.
pub open spec fn fetch_outcome(name: String, res: Result<(), git2::Error>) -> FetchOutcome {
    match res {
        Ok(()) => FetchOutcome::Fetched(name),
        Err(e) => FetchOutcome::Failed { name: name, error: wrapped("fetch failed", e) },
    }
}

/// The outcome of a branch that the engine tried to reconcile.
pub open spec fn merge_outcome(res: Result<MergeKind, git2::Error>) -> MergeOutcome {
    match res {
        Ok(MergeKind::UpToDate) => MergeOutcome::Skipped("already up to date"),
        Ok(MergeKind::FastForwarded) => MergeOutcome::FastForwarded,
        Ok(MergeKind::Merged) => MergeOutcome::Merged,
        Ok(MergeKind::Conflicted) => MergeOutcome::Conflicted,
        Err(e) => MergeOutcome::Failed(wrapped("merge failed", e)),
    }
}

/// The report entry of a synchronisation of the submodule `name`.
pub open spec fn sync_outcome(name: String, res: Result<(), git2::Error>) -> SubmoduleOutcome {
    match res {
        Ok(()) => SubmoduleOutcome::Synced(name),
        Err(e) => SubmoduleOutcome::Failed { name: name, error: wrapped("submodule sync failed", e) },
    }
}

/// Where the run goes once merging and synchronising are over.
pub open spec fn wound_up(snapshot: Snapshot) -> Phase {
    if snapshot is Held {
        Phase::Restoring
    } else {
        Phase::Finished
    }
}

/// Where the remote and fetch stages stand after one of their events:
/// fetching starts at `start`, and a valid remote is passed over only in a
/// dry run.
pub open spec fn fetch_stage(pre: Pipeline, post: Pipeline, start: int) -> bool {
    &&& post.fatal == pre.fatal
    &&& (post.phase is Validating || post.phase is Fetching || post.phase is Scanning)
    &&& (post.phase is Validating ==> post.fetch_index == pre.fetch_index)
    &&& (!(post.phase is Validating) ==> {
        &&& post.remote_index == post.remote_names@.len()
        &&& start <= post.fetch_index
        &&& forall|k: int|
            start <= k < post.fetch_index ==> pre.dry_run
                || #[trigger] post.report.remotes@[k] is Invalid
    })
    &&& (post.phase is Scanning ==> post.fetch_index == post.report.remotes@.len())
}

/// What an event that answers the pending action does to the run.
pub open spec fn records(pre: Pipeline, ev: Event, post: Pipeline) -> bool {
    match ev {
        Event::Opened(res) => pre.phase is Opening ==> match res {
            Err(e) => post.phase is Finished && post.fatal == Some(
                Fatal::NotARepository(wrapped("not a repository", e)),
            ),
            Ok(RepoState::Busy(op)) => post.phase is Finished && post.fatal == Some(
                Fatal::RepositoryBusy(op),
            ),
            Ok(RepoState::Clean) => post.phase is ListingRemotes,
        },
        Event::RemotesListed(res) => pre.phase is ListingRemotes ==> match res {
            Err(e) => post.phase is Finished && post.fatal == Some(
                Fatal::NoRemotes(wrapped("cannot list remotes", e)),
            ),
            Ok(names) => if names@.len() == 0 {
                post.phase is Finished && post.fatal == Some(
                    Fatal::NoRemotes(StageError { msg: "does not have remote repository", err: None }),
                )
            } else {
                &&& post.remote_names == names
                &&& forall|k: int| 0 <= k < post.remote_index ==> #[trigger] names@[k] is None
                &&& post.report.remotes@ == pre.report.remotes@ + unnamed_remotes(
                    0,
                    post.remote_index as int,
                )
                &&& post.report.fetches@ == pre.report.fetches@ + passed_over_fetches(
                    post.report.remotes@,
                    0,
                    post.fetch_index as int,
                )
                &&& fetch_stage(pre, post, 0)
            },
        },
        Event::RemoteLookedUp(res) => pre.phase is Validating ==> {
            &&& post.report.remotes@ == pre.report.remotes@.push(
                lookup_outcome(pre.remote_names@[pre.remote_index as int]->Some_0, res),
            ) + unnamed_remotes(pre.remote_index + 1, post.remote_index as int)
            &&& post.report.fetches@ == pre.report.fetches@ + passed_over_fetches(
                post.report.remotes@,
                0,
                post.fetch_index as int,
            )
            &&& pre.remote_index < post.remote_index
            &&& forall|k: int|
                pre.remote_index < k < post.remote_index ==> #[trigger] pre.remote_names@[k] is None
            &&& fetch_stage(pre, post, 0)
        },
        Event::Fetched(res) => pre.phase is Fetching ==> {
            &&& post.report.fetches@ == pre.report.fetches@.push(
                fetch_outcome(pre.report.remotes@[pre.fetch_index as int]->Valid_0.name, res),
            ) + passed_over_fetches(
                pre.report.remotes@,
                pre.fetch_index + 1,
                post.fetch_index as int,
            )
            &&& !(post.phase is Validating)
            &&& fetch_stage(pre, post, pre.fetch_index + 1)
        },
        Event::StatusScanned(res) => pre.phase is Scanning ==> match res {
            Err(e) => post.phase is Finished && post.fatal == Some(
                Fatal::StatusFailed(wrapped("cannot scan working tree status", e)),
            ),
            Ok(scan) => post.dirty == scan_is_dirty(scan@) && post.phase == (if post.dirty {
                Phase::Saving
            } else {
                Phase::ListingBranches
            }),
        },
        Event::SnapshotSaved(res) => pre.phase is Saving ==> match res {
            Err(e) => post.phase is Finished && post.fatal == Some(
                Fatal::StashSaveFailed(wrapped("cannot save local changes", e)),
            ),
            Ok(id) => post.snapshot == Snapshot::Held(id) && post.phase is ListingBranches,
        },
        Event::BranchesListed(res) => pre.phase is ListingBranches ==> match res {
            Err(e) => post.phase == wound_up(pre.snapshot) && post.fatal == Some(
                Fatal::ListingFailed(wrapped("cannot list local branches", e)),
            ),
            Ok(bs) => {
                &&& post.branches == bs
                &&& post.report.branches@ == pre.report.branches@ + skipped_branches(
                    bs@,
                    0,
                    post.branch_index as int,
                    pre.dry_run,
                )
                &&& (post.phase is ListingSubmodules ==> post.branch_index == bs@.len())
                &&& (post.phase is Merging || post.phase is ListingSubmodules)
                &&& post.fatal == pre.fatal
                &&& forall|k: int|
                    0 <= k < post.branch_index ==> pre.dry_run || !mergeable(#[trigger] bs@[k])
            },
        },
        Event::BranchReconciled(res) => pre.phase is Merging ==> {
            let b = pre.branches@[pre.branch_index as int];
            &&& post.report.branches@ == pre.report.branches@.push(
                BranchReport {
                    name: b.name,
                    upstream: b.upstream->Some_0.name,
                    outcome: merge_outcome(res),
                },
            ) + skipped_branches(
                pre.branches@,
                pre.branch_index + 1,
                post.branch_index as int,
                pre.dry_run,
            )
            &&& (post.phase is ListingSubmodules ==> post.branch_index == pre.branches@.len())
            &&& (post.phase is Merging || post.phase is ListingSubmodules)
            &&& post.fatal == pre.fatal
            &&& forall|k: int|
                pre.branch_index < k < post.branch_index ==> pre.dry_run || !mergeable(
                    #[trigger] pre.branches@[k],
                )
        },
        Event::SubmodulesListed(res) => pre.phase is ListingSubmodules ==> match res {
            Err(e) => post.phase == wound_up(pre.snapshot) && post.fatal == Some(
                Fatal::ListingFailed(wrapped("cannot list submodules", e)),
            ),
            Ok(subs) => {
                &&& post.submodules == subs
                &&& post.report.submodules@ == pre.report.submodules@ + unnamed_submodules(
                    0,
                    post.submodule_index as int,
                )
                &&& (!(post.phase is Syncing) ==> post.submodule_index == subs@.len()
                    && post.phase == wound_up(pre.snapshot))
                &&& forall|k: int| 0 <= k < post.submodule_index ==> #[trigger] subs@[k] is None
                &&& post.fatal == pre.fatal
            },
        },
        Event::SubmoduleSynced(res) => pre.phase is Syncing ==> {
            &&& post.report.submodules@ == pre.report.submodules@.push(
                sync_outcome(pre.submodules@[pre.submodule_index as int]->Some_0, res),
            ) + unnamed_submodules(pre.submodule_index + 1, post.submodule_index as int)
            &&& (!(post.phase is Syncing) ==> post.submodule_index == pre.submodules@.len()
                && post.phase == wound_up(pre.snapshot))
            &&& forall|k: int|
                pre.submodule_index < k < post.submodule_index ==> #[trigger] pre.submodules@[k]
                    is None
            &&& post.fatal == pre.fatal
        },
        Event::SnapshotRestored(res) => pre.phase is Restoring ==> post.phase is Finished
            && match res {
            Ok(()) => post.snapshot == Snapshot::Restored && post.fatal == pre.fatal,
            Err(e) => post.snapshot == pre.snapshot && post.fatal == Some(
                Fatal::StashRestoreFailed {
                    snapshot: pre.snapshot->Held_0,
                    error: wrapped("cannot restore local changes", e),
                },
            ),
        },
    }
}

/// Reports every remote from `start` on whose name is not text, up to the
/// first one whose name is; returns where it stopped.
fn skip_unnamed_remotes(
    names: &Vec<Option<String>>,
    start: usize,
    remotes: &mut Vec<RemoteOutcome>,
) -> (end: usize)
    requires
        start <= names@.len(),
        old(remotes)@.len() == start,
    ensures
        start <= end <= names@.len(),
        end < names@.len() ==> names@[end as int] is Some,
        final(remotes)@.len() == end,
        old(remotes)@.is_prefix_of(final(remotes)@),
        forall|k: int| start <= k < end ==> #[trigger] final(remotes)@[k] is Invalid,
        forall|k: int| start <= k < end ==> #[trigger] names@[k] is None,
        final(remotes)@ == old(remotes)@ + unnamed_remotes(start as int, end as int),
{
    let mut i: usize = start;
    while i < names.len()
        invariant
            start <= i <= names@.len(),
            remotes@.len() == i,
            old(remotes)@.is_prefix_of(remotes@),
            forall|k: int| start <= k < i ==> #[trigger] remotes@[k] is Invalid,
            forall|k: int| start <= k < i ==> #[trigger] names@[k] is None,
            remotes@ == old(remotes)@ + unnamed_remotes(start as int, i as int),
        decreases names@.len() - i,
    {
        if names[i].is_some() {
            return i;
        }
        remotes.push(
            RemoteOutcome::Invalid {
                name: None,
                error: StageError::new("non-representable remote name/URL"),
            },
        );
        assert(remotes@ =~= old(remotes)@ + unnamed_remotes(start as int, i + 1));
        i = i + 1;
    }
    i
}

/// Moves to the next remote to fetch from, from `start` on. Invalid remotes
/// are passed over; in a dry run every valid one is reported as skipped and
/// none is fetched.
fn next_fetch(
    remotes: &Vec<RemoteOutcome>,
    start: usize,
    dry_run: bool,
    fetches: &mut Vec<FetchOutcome>,
) -> (end: usize)
    requires
        start <= remotes@.len(),
    ensures
        start <= end <= remotes@.len(),
        end < remotes@.len() ==> !dry_run && remotes@[end as int] is Valid,
        final(fetches)@ == old(fetches)@ + passed_over_fetches(remotes@, start as int, end as int),
        forall|k: int| start <= k < end ==> dry_run || #[trigger] remotes@[k] is Invalid,
{
    let mut i: usize = start;
    while i < remotes.len()
        invariant
            start <= i <= remotes@.len(),
            fetches@ == old(fetches)@ + passed_over_fetches(remotes@, start as int, i as int),
            forall|k: int| start <= k < i ==> dry_run || #[trigger] remotes@[k] is Invalid,
        decreases remotes@.len() - i,
    {
        match &remotes[i] {
            RemoteOutcome::Valid(r) => {
                if !dry_run {
                    return i;
                }
                fetches.push(FetchOutcome::Skipped(r.name.clone()));
            },
            RemoteOutcome::Invalid { .. } => {},
        }
        assert(fetches@ =~= old(fetches)@ + passed_over_fetches(remotes@, start as int, i + 1));
        i = i + 1;
    }
    i
}

/// Reports every branch from `start` on that will not be merged, up to the
/// first one that will; returns where it stopped.
fn next_mergeable(
    branches: &Vec<LocalBranch>,
    start: usize,
    dry_run: bool,
    reports: &mut Vec<BranchReport>,
) -> (end: usize)
    requires
        start <= branches@.len(),
    ensures
        start <= end <= branches@.len(),
        end < branches@.len() ==> !dry_run && mergeable(branches@[end as int]),
        final(reports)@ == old(reports)@ + skipped_branches(branches@, start as int, end as int, dry_run),
        forall|k: int| start <= k < end ==> dry_run || !mergeable(#[trigger] branches@[k]),
{
    let mut i: usize = start;
    while i < branches.len()
        invariant
            start <= i <= branches@.len(),
            reports@ == old(reports)@ + skipped_branches(branches@, start as int, i as int, dry_run),
            forall|k: int| start <= k < i ==> dry_run || !mergeable(#[trigger] branches@[k]),
        decreases branches@.len() - i,
    {
        let b = &branches[i];
        let report = match &b.upstream {
            None => BranchReport { name: b.name.clone(), upstream: None, outcome: MergeOutcome::NoUpstream },
            Some(up) => {
                if b.name.is_none() || up.name.is_none() {
                    BranchReport {
                        name: b.name.clone(),
                        upstream: up.name.clone(),
                        outcome: MergeOutcome::Skipped("non-representable name"),
                    }
                } else if dry_run {
                    BranchReport {
                        name: b.name.clone(),
                        upstream: up.name.clone(),
                        outcome: MergeOutcome::Skipped("dry-run"),
                    }
                } else {
                    return i;
                }
            },
        };
        reports.push(report);
        assert(reports@ =~= old(reports)@ + skipped_branches(branches@, start as int, i + 1, dry_run));
        i = i + 1;
    }
    i
}

/// Reports every submodule from `start` on whose name is not text, up to the
/// first one whose name is; returns where it stopped.
fn next_named_submodule(
    submodules: &Vec<Option<String>>,
    start: usize,
    reports: &mut Vec<SubmoduleOutcome>,
) -> (end: usize)
    requires
        start <= submodules@.len(),
    ensures
        start <= end <= submodules@.len(),
        end < submodules@.len() ==> submodules@[end as int] is Some,
        final(reports)@ == old(reports)@ + unnamed_submodules(start as int, end as int),
        forall|k: int| start <= k < end ==> #[trigger] submodules@[k] is None,
{
    let mut i: usize = start;
    while i < submodules.len()
        invariant
            start <= i <= submodules@.len(),
            reports@ == old(reports)@ + unnamed_submodules(start as int, i as int),
            forall|k: int| start <= k < i ==> #[trigger] submodules@[k] is None,
        decreases submodules@.len() - i,
    {
        if submodules[i].is_some() {
            return i;
        }
        reports.push(SubmoduleOutcome::NonRepresentable);
        assert(reports@ =~= old(reports)@ + unnamed_submodules(start as int, i + 1));
        i = i + 1;
    }
    i
}


/// A copy of an optional name.
fn copy_name(o: &Option<String>) -> (r: Option<String>)
    ensures
        r == *o,
{
    match o {
        Some(s) => Some(s.clone()),
        None => None,
    }
}

impl Pipeline {
    /// A fresh run; with `dry_run` nothing is fetched and nothing is merged.
    pub fn new(dry_run: bool) -> (p: Pipeline)
        ensures
            p.is_initial(dry_run),
            p.wf(),
    {
        Pipeline {
            dry_run: dry_run,
            phase: Phase::Opening,
            remote_names: Vec::new(),
            remote_index: 0,
            fetch_index: 0,
            dirty: false,
            snapshot: Snapshot::Absent,
            branches: Vec::new(),
            branch_index: 0,
            submodules: Vec::new(),
            submodule_index: 0,
            fatal: None,
            report: Report {
                remotes: Vec::new(),
                fetches: Vec::new(),
                branches: Vec::new(),
                submodules: Vec::new(),
            },
        }
    }

    /// The repository operation to perform next.
    pub fn action(&self) -> (a: Action)
        requires
            self.wf(),
        ensures
            a == self.action_of(),
    {
        match self.phase {
            Phase::Opening => Action::Open,
            Phase::ListingRemotes => Action::ListRemotes,
            Phase::Validating => match &self.remote_names[self.remote_index] {
                Some(n) => Action::LookUpRemote(n.clone()),
                None => Action::Finish,
            },
            Phase::Fetching => match &self.report.remotes[self.fetch_index] {
                RemoteOutcome::Valid(r) => Action::Fetch(r.name.clone()),
                RemoteOutcome::Invalid { .. } => Action::Finish,
            },
            Phase::Scanning => Action::ScanStatus,
            Phase::Saving => Action::SaveSnapshot,
            Phase::ListingBranches => Action::ListBranches,
            Phase::Merging => {
                let b = &self.branches[self.branch_index];
                match (&b.name, &b.upstream) {
                    (Some(local), Some(up)) => match &up.name {
                        Some(upstream) => Action::Reconcile {
                            local: local.clone(),
                            upstream: upstream.clone(),
                        },
                        None => Action::Finish,
                    },
                    _ => Action::Finish,
                }
            },
            Phase::ListingSubmodules => Action::ListSubmodules,
            Phase::Syncing => match &self.submodules[self.submodule_index] {
                Some(n) => Action::SyncSubmodule(n.clone()),
                None => Action::Finish,
            },
            Phase::Restoring => match &self.snapshot {
                Snapshot::Held(id) => Action::RestoreSnapshot(id.clone()),
                _ => Action::Finish,
            },
            Phase::Finished => Action::Finish,
        }
    }

    /// Whether the run is over.
    pub fn is_finished(&self) -> (r: bool)
        ensures
            r == (self.phase is Finished),
    {
        self.phase == Phase::Finished
    }

    /// The process exit status of a run: zero unless a fatal condition ended it.
    pub fn exit_code(&self) -> (c: i32)
        ensures
            c == (if self.fatal is None { 0i32 } else { 1i32 }),
    {
        match self.fatal {
            None => 0,
            Some(_) => 1,
        }
    }

    /// Ends the merge and submodule phase: the snapshot, if one is held,
    /// is restored before the run finishes.
    fn wind_up(&mut self)
        ensures
            final(self).phase == (if old(self).snapshot is Held {
                Phase::Restoring
            } else {
                Phase::Finished
            }),
            *final(self) == (Pipeline { phase: final(self).phase, ..*old(self) }),
    {
        match self.snapshot {
            Snapshot::Held(_) => {
                self.phase = Phase::Restoring;
            },
            _ => {
                self.phase = Phase::Finished;
            },
        }
    }

    /// Looks for the next remote to fetch from, from `start` on, or moves
    /// on to the status scan.
    fn continue_fetching(&mut self, start: usize)
        requires
            start <= old(self).report.remotes@.len(),
        ensures
            start <= final(self).fetch_index <= old(self).report.remotes@.len(),
            final(self).phase is Scanning || (final(self).phase is Fetching && !old(self).dry_run
                && final(self).fetch_index < old(self).report.remotes@.len()
                && old(self).report.remotes@[final(self).fetch_index as int] is Valid),
            final(self).phase is Scanning ==> final(self).fetch_index == old(self).report.remotes@.len(),
            forall|k: int|
                start <= k < final(self).fetch_index ==> old(self).dry_run
                    || #[trigger] old(self).report.remotes@[k] is Invalid,
            final(self).report.fetches@ == old(self).report.fetches@ + passed_over_fetches(
                old(self).report.remotes@,
                start as int,
                final(self).fetch_index as int,
            ),
            *final(self) == (Pipeline {
                phase: final(self).phase,
                fetch_index: final(self).fetch_index,
                report: Report { fetches: final(self).report.fetches, ..old(self).report },
                ..*old(self)
            }),
    {
        let end = next_fetch(&self.report.remotes, start, self.dry_run, &mut self.report.fetches);
        self.fetch_index = end;
        if end < self.report.remotes.len() {
            self.phase = Phase::Fetching;
        } else {
            self.phase = Phase::Scanning;
        }
    }

    /// Reports the unnamed remotes from `start` on, then asks for the next
    /// lookup or moves on to fetching.
    fn continue_validation(&mut self, start: usize)
        requires
            start <= old(self).remote_names@.len(),
            old(self).report.remotes@.len() == start,
        ensures
            final(self).report.remotes@.len() <= old(self).remote_names@.len(),
            old(self).report.remotes@.is_prefix_of(final(self).report.remotes@),
            forall|k: int|
                start <= k < final(self).report.remotes@.len() && old(self).remote_names@[k] is None
                    ==> #[trigger] final(self).report.remotes@[k] is Invalid,
            final(self).phase is Validating ==> final(self).remote_index
                < old(self).remote_names@.len() && old(self).remote_names@[final(
                self).remote_index as int] is Some && final(self).report.remotes@.len()
                == final(self).remote_index,
            final(self).phase is Validating || final(self).phase is Scanning || (
            final(self).phase is Fetching && !old(self).dry_run && final(self).fetch_index
                < final(self).report.remotes@.len() && final(
                self).report.remotes@[final(self).fetch_index as int] is Valid),
            !(final(self).phase is Validating) ==> final(self).report.remotes@.len()
                == old(self).remote_names@.len(),
            final(self).remote_index <= old(self).remote_names@.len(),
            final(self).report.remotes@ == old(self).report.remotes@ + unnamed_remotes(
                start as int,
                final(self).remote_index as int,
            ),
            start <= final(self).remote_index,
            forall|k: int|
                start <= k < final(self).remote_index ==> #[trigger] old(self).remote_names@[k] is None,
            final(self).phase is Validating ==> final(self).report.fetches == old(self).report.fetches
                && final(self).fetch_index == old(self).fetch_index,
            !(final(self).phase is Validating) ==> final(self).remote_index == old(
                self,
            ).remote_names@.len() && final(self).report.fetches@ == old(self).report.fetches@
                + passed_over_fetches(final(self).report.remotes@, 0, final(self).fetch_index as int)
                && (final(self).phase is Scanning ==> final(self).fetch_index
                == final(self).report.remotes@.len()),
            !(final(self).phase is Validating) ==> forall|k: int|
                0 <= k < final(self).fetch_index ==> old(self).dry_run
                    || #[trigger] final(self).report.remotes@[k] is Invalid,
            *final(self) == (Pipeline {
                phase: final(self).phase,
                remote_index: final(self).remote_index,
                fetch_index: final(self).fetch_index,
                report: Report {
                    remotes: final(self).report.remotes,
                    fetches: final(self).report.fetches,
                    ..old(self).report
                },
                ..*old(self)
            }),
    {
        let end = skip_unnamed_remotes(&self.remote_names, start, &mut self.report.remotes);
        self.remote_index = end;
        if end < self.remote_names.len() {
            self.phase = Phase::Validating;
        } else {
            self.continue_fetching(0);
        }
    }

    /// Reports the branches from `start` on that will not be merged, then
    /// asks for the next reconciliation or moves on to the submodules.
    fn continue_merging(&mut self, start: usize)
        requires
            start <= old(self).branches@.len(),
        ensures
            final(self).phase is ListingSubmodules || (final(self).phase is Merging
                && !old(self).dry_run && final(self).branch_index < old(self).branches@.len()
                && mergeable(old(self).branches@[final(self).branch_index as int])),
            start <= final(self).branch_index,
            final(self).report.branches@ == old(self).report.branches@ + skipped_branches(
                old(self).branches@,
                start as int,
                final(self).branch_index as int,
                old(self).dry_run,
            ),
            final(self).phase is ListingSubmodules ==> final(self).branch_index
                == old(self).branches@.len(),
            forall|k: int|
                start <= k < final(self).branch_index ==> old(self).dry_run || !mergeable(
                    #[trigger] old(self).branches@[k],
                ),
            *final(self) == (Pipeline {
                phase: final(self).phase,
                branch_index: final(self).branch_index,
                report: Report { branches: final(self).report.branches, ..old(self).report },
                ..*old(self)
            }),
    {
        let end = next_mergeable(&self.branches, start, self.dry_run, &mut self.report.branches);
        self.branch_index = end;
        if end < self.branches.len() {
            self.phase = Phase::Merging;
        } else {
            self.phase = Phase::ListingSubmodules;
        }
    }

    /// Reports the unnamed submodules from `start` on, then asks for the
    /// next synchronisation or winds the run up.
    fn continue_syncing(&mut self, start: usize)
        requires
            start <= old(self).submodules@.len(),
        ensures
            (final(self).phase is Syncing && final(self).submodule_index
                < old(self).submodules@.len() && old(self).submodules@[final(
                self).submodule_index as int] is Some) || final(self).phase == (
            if old(self).snapshot is Held {
                Phase::Restoring
            } else {
                Phase::Finished
            }),
            final(self).report.submodules@ == old(self).report.submodules@ + unnamed_submodules(
                start as int,
                final(self).submodule_index as int,
            ),
            !(final(self).phase is Syncing) ==> final(self).submodule_index
                == old(self).submodules@.len(),
            forall|k: int|
                start <= k < final(self).submodule_index ==> #[trigger] old(self).submodules@[k] is None,
            *final(self) == (Pipeline {
                phase: final(self).phase,
                submodule_index: final(self).submodule_index,
                report: Report { submodules: final(self).report.submodules, ..old(self).report },
                ..*old(self)
            }),
    {
        let end = next_named_submodule(
            &self.submodules,
            start,
            &mut self.report.submodules,
        );
        self.submodule_index = end;
        if end < self.submodules.len() {
            self.phase = Phase::Syncing;
        } else {
            self.wind_up();
        }
    }
}


impl Pipeline {
    fn on_opened(&mut self, res: Result<RepoState, git2::Error>)
        requires
            old(self).wf(),
            old(self).phase == Phase::Opening,
        ensures
            step(*old(self), Event::Opened(res), *final(self)),
            records(*old(self), Event::Opened(res), *final(self)),
    {
        match res {
            Err(e) => {
                self.fatal = Some(Fatal::NotARepository(StageError::with_err("not a repository", e)));
                self.phase = Phase::Finished;
            },
            Ok(RepoState::Busy(op)) => {
                self.fatal = Some(Fatal::RepositoryBusy(op));
                self.phase = Phase::Finished;
            },
            Ok(RepoState::Clean) => {
                self.phase = Phase::ListingRemotes;
            },
        }
    }

    fn on_remotes_listed(&mut self, res: Result<Vec<Option<String>>, git2::Error>)
        requires
            old(self).wf(),
            old(self).phase == Phase::ListingRemotes,
        ensures
            step(*old(self), Event::RemotesListed(res), *final(self)),
            records(*old(self), Event::RemotesListed(res), *final(self)),
    {
        match get_remotes(res) {
            Err(error) => {
                self.fatal = Some(Fatal::NoRemotes(error));
                self.phase = Phase::Finished;
            },
            Ok(names) => {
                self.remote_names = names;
                self.continue_validation(0);
            },
        }
    }

    fn on_remote_looked_up(&mut self, res: Result<Option<String>, git2::Error>)
        requires
            old(self).wf(),
            old(self).phase == Phase::Validating,
        ensures
            step(*old(self), Event::RemoteLookedUp(res), *final(self)),
            records(*old(self), Event::RemoteLookedUp(res), *final(self)),
    {
        let i = self.remote_index;
        let name = match &self.remote_names[i] {
            Some(n) => n.clone(),
            None => String::new(),
        };
        let outcome = match get_remote_validation(name.clone(), res) {
            Ok(remote) => RemoteOutcome::Valid(remote),
            Err(error) => RemoteOutcome::Invalid { name: Some(name), error: error },
        };
        self.report.remotes.push(outcome);
        let ghost mid = self.report.remotes@;
        assert forall|k: int| 0 <= k < mid.len() && self.remote_names@[k] is None implies #[trigger] mid[k] is Invalid by {
            if k < i {
                assert(mid[k] == old(self).report.remotes@[k]);
            }
        }
        let processed = self.report.remotes.len();
        self.continue_validation(processed);
        assert forall|k: int|
            0 <= k < self.report.remotes@.len() && self.remote_names@[k] is None implies #[trigger] self.report.remotes@[k] is Invalid by {
            if k < processed {
                assert(self.report.remotes@[k] == mid[k]);
            }
        }
        assert(old(self).report.remotes@.is_prefix_of(mid));
    }

    fn on_fetched(&mut self, res: Result<(), git2::Error>)
        requires
            old(self).wf(),
            old(self).phase == Phase::Fetching,
        ensures
            step(*old(self), Event::Fetched(res), *final(self)),
            records(*old(self), Event::Fetched(res), *final(self)),
    {
        let i = self.fetch_index;
        let count = self.report.remotes.len();
        let name = match &self.report.remotes[i] {
            RemoteOutcome::Valid(r) => r.name.clone(),
            RemoteOutcome::Invalid { .. } => String::new(),
        };
        let outcome = match res {
            Ok(()) => FetchOutcome::Fetched(name),
            Err(e) => FetchOutcome::Failed {
                name: name,
                error: StageError::with_err("fetch failed", e),
            },
        };
        self.report.fetches.push(outcome);
        self.continue_fetching(if i < count { i + 1 } else { count });
    }

    fn on_status_scanned(&mut self, res: Result<Vec<u32>, git2::Error>)
        requires
            old(self).wf(),
            old(self).phase == Phase::Scanning,
        ensures
            step(*old(self), Event::StatusScanned(res), *final(self)),
            records(*old(self), Event::StatusScanned(res), *final(self)),
    {
        match res {
            Err(e) => {
                self.fatal = Some(
                    Fatal::StatusFailed(StageError::with_err("cannot scan working tree status", e)),
                );
                self.phase = Phase::Finished;
            },
            Ok(scan) => {
                let dirty = is_dirty(&scan);
                self.dirty = dirty;
                if dirty {
                    self.phase = Phase::Saving;
                } else {
                    self.phase = Phase::ListingBranches;
                }
            },
        }
    }

    fn on_snapshot_saved(&mut self, res: Result<String, git2::Error>)
        requires
            old(self).wf(),
            old(self).phase == Phase::Saving,
        ensures
            step(*old(self), Event::SnapshotSaved(res), *final(self)),
            records(*old(self), Event::SnapshotSaved(res), *final(self)),
    {
        match res {
            Err(e) => {
                self.fatal = Some(
                    Fatal::StashSaveFailed(StageError::with_err("cannot save local changes", e)),
                );
                self.phase = Phase::Finished;
            },
            Ok(id) => {
                self.snapshot = Snapshot::Held(id);
                self.phase = Phase::ListingBranches;
            },
        }
    }

    fn on_branches_listed(&mut self, res: Result<Vec<LocalBranch>, git2::Error>)
        requires
            old(self).wf(),
            old(self).phase == Phase::ListingBranches,
        ensures
            step(*old(self), Event::BranchesListed(res), *final(self)),
            records(*old(self), Event::BranchesListed(res), *final(self)),
    {
        match res {
            Err(e) => {
                self.fatal = Some(
                    Fatal::ListingFailed(StageError::with_err("cannot list local branches", e)),
                );
                self.wind_up();
            },
            Ok(branches) => {
                self.branches = branches;
                self.continue_merging(0);
            },
        }
    }

    fn on_branch_reconciled(&mut self, res: Result<MergeKind, git2::Error>)
        requires
            old(self).wf(),
            old(self).phase == Phase::Merging,
        ensures
            step(*old(self), Event::BranchReconciled(res), *final(self)),
            records(*old(self), Event::BranchReconciled(res), *final(self)),
    {
        let i = self.branch_index;
        let count = self.branches.len();
        let name = copy_name(&self.branches[i].name);
        let upstream = match &self.branches[i].upstream {
            Some(up) => copy_name(&up.name),
            None => None,
        };
        let outcome = match res {
            Ok(MergeKind::UpToDate) => MergeOutcome::Skipped("already up to date"),
            Ok(MergeKind::FastForwarded) => MergeOutcome::FastForwarded,
            Ok(MergeKind::Merged) => MergeOutcome::Merged,
            Ok(MergeKind::Conflicted) => MergeOutcome::Conflicted,
            Err(e) => MergeOutcome::Failed(StageError::with_err("merge failed", e)),
        };
        let ghost before = self.report.branches@;
        self.report.branches.push(BranchReport { name: name, upstream: upstream, outcome: outcome });
        let ghost mid = self.report.branches@;
        assert(before.is_prefix_of(mid));
        self.continue_merging(if i < count { i + 1 } else { count });
        assert(mid.is_prefix_of(self.report.branches@));
    }

    fn on_submodules_listed(&mut self, res: Result<Vec<Option<String>>, git2::Error>)
        requires
            old(self).wf(),
            old(self).phase == Phase::ListingSubmodules,
        ensures
            step(*old(self), Event::SubmodulesListed(res), *final(self)),
            records(*old(self), Event::SubmodulesListed(res), *final(self)),
    {
        match res {
            Err(e) => {
                self.fatal = Some(
                    Fatal::ListingFailed(StageError::with_err("cannot list submodules", e)),
                );
                self.wind_up();
            },
            Ok(submodules) => {
                self.submodules = submodules;
                self.continue_syncing(0);
            },
        }
    }

    fn on_submodule_synced(&mut self, res: Result<(), git2::Error>)
        requires
            old(self).wf(),
            old(self).phase == Phase::Syncing,
        ensures
            step(*old(self), Event::SubmoduleSynced(res), *final(self)),
            records(*old(self), Event::SubmoduleSynced(res), *final(self)),
    {
        let i = self.submodule_index;
        let count = self.submodules.len();
        let name = match &self.submodules[i] {
            Some(n) => n.clone(),
            None => String::new(),
        };
        let outcome = match res {
            Ok(()) => SubmoduleOutcome::Synced(name),
            Err(e) => SubmoduleOutcome::Failed {
                name: name,
                error: StageError::with_err("submodule sync failed", e),
            },
        };
        self.report.submodules.push(outcome);
        self.continue_syncing(if i < count { i + 1 } else { count });
    }

    fn on_snapshot_restored(&mut self, res: Result<(), git2::Error>)
        requires
            old(self).wf(),
            old(self).phase == Phase::Restoring,
        ensures
            step(*old(self), Event::SnapshotRestored(res), *final(self)),
            records(*old(self), Event::SnapshotRestored(res), *final(self)),
    {
        let id = match &self.snapshot {
            Snapshot::Held(id) => id.clone(),
            _ => String::new(),
        };
        match res {
            Ok(()) => {
                self.snapshot = Snapshot::Restored;
            },
            Err(e) => {
                self.fatal = Some(
                    Fatal::StashRestoreFailed {
                        snapshot: id,
                        error: StageError::with_err("cannot restore local changes", e),
                    },
                );
            },
        }
        self.phase = Phase::Finished;
    }

    /// Takes what came of the last action. An event that does not answer
    /// the pending action leaves the run as it is.
    pub fn advance(&mut self, event: Event)
        requires
            old(self).wf(),
        ensures
            step(*old(self), event, *final(self)),
            records(*old(self), event, *final(self)),
    {
        match event {
            Event::Opened(res) => if self.phase == Phase::Opening {
                self.on_opened(res);
            },
            Event::RemotesListed(res) => if self.phase == Phase::ListingRemotes {
                self.on_remotes_listed(res);
            },
            Event::RemoteLookedUp(res) => if self.phase == Phase::Validating {
                self.on_remote_looked_up(res);
            },
            Event::Fetched(res) => if self.phase == Phase::Fetching {
                self.on_fetched(res);
            },
            Event::StatusScanned(res) => if self.phase == Phase::Scanning {
                self.on_status_scanned(res);
            },
            Event::SnapshotSaved(res) => if self.phase == Phase::Saving {
                self.on_snapshot_saved(res);
            },
            Event::BranchesListed(res) => if self.phase == Phase::ListingBranches {
                self.on_branches_listed(res);
            },
            Event::BranchReconciled(res) => if self.phase == Phase::Merging {
                self.on_branch_reconciled(res);
            },
            Event::SubmodulesListed(res) => if self.phase == Phase::ListingSubmodules {
                self.on_submodules_listed(res);
            },
            Event::SubmoduleSynced(res) => if self.phase == Phase::Syncing {
                self.on_submodule_synced(res);
            },
            Event::SnapshotRestored(res) => if self.phase == Phase::Restoring {
                self.on_snapshot_restored(res);
            },
        }
    }
}

} // verus!
