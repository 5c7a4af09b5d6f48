use crate::dirty::scan_is_dirty;
use crate::outcome::{Fatal, MergeKind, MergeOutcome, RepoState};
use crate::pipeline::{answers, rank, records, step, Action, Event, Phase, Pipeline};
use vstd::prelude::*;

verus! {

/// A run of the machine: the states that `advance` went through from a fresh
/// start, where each event answers the action of the state before it (once
/// the run is over, events change nothing).
pub open spec fn is_run(states: Seq<Pipeline>, events: Seq<Event>, dry_run: bool) -> bool {
    &&& states.len() == events.len() + 1
    &&& states[0].is_initial(dry_run)
    &&& forall|i: int|
        0 <= i < events.len() ==> #[trigger] step(states[i], events[i], states[i + 1]) && records(
            states[i],
            events[i],
            states[i + 1],
        )
    &&& forall|i: int|
        0 <= i < events.len() && !(states[i].phase is Finished) ==> answers(
            #[trigger] states[i].phase,
            events[i],
        )
}

proof fn lemma_step_at(states: Seq<Pipeline>, events: Seq<Event>, dry_run: bool, i: int)
    requires
        is_run(states, events, dry_run),
        0 < i < states.len(),
    ensures
        step(states[i - 1], events[i - 1], states[i]),
        records(states[i - 1], events[i - 1], states[i]),
{
    let k = i - 1;
    assert(step(states[k], events[k], states[k + 1]));
    assert(k + 1 == i);
}

proof fn lemma_run_wf(states: Seq<Pipeline>, events: Seq<Event>, dry_run: bool, i: int)
    requires
        is_run(states, events, dry_run),
        0 <= i < states.len(),
    ensures
        states[i].wf(),
        states[i].dry_run == dry_run,
    decreases i,
{
    if i > 0 {
        lemma_run_wf(states, events, dry_run, i - 1);
        lemma_step_at(states, events, dry_run, i);
    }
}

proof fn lemma_rank_grows(states: Seq<Pipeline>, events: Seq<Event>, dry_run: bool, i: int, j: int)
    requires
        is_run(states, events, dry_run),
        0 <= i <= j < states.len(),
    ensures
        rank(states[i].phase) <= rank(states[j].phase),
    decreases j - i,
{
    if i < j {
        lemma_rank_grows(states, events, dry_run, i, j - 1);
        lemma_step_at(states, events, dry_run, j);
    }
}

/// A step out of `ph` on an event that answers it leaves `ph` behind for good.
proof fn lemma_left_for_good(
    states: Seq<Pipeline>,
    events: Seq<Event>,
    dry_run: bool,
    i: int,
    j: int,
)
    requires
        is_run(states, events, dry_run),
        0 <= i < j < states.len(),
        states[i].phase is Saving || states[i].phase is Restoring,
    ensures
        rank(states[j].phase) > rank(states[i].phase),
{
    lemma_step_at(states, events, dry_run, i + 1);
    lemma_rank_grows(states, events, dry_run, i + 1, j);
}

/// A repository that is busy with an unfinished operation ends the run at
/// once with that fatal condition: no remote, branch or submodule is ever
/// looked at.
pub proof fn busy_repository_stops_the_run(
    states: Seq<Pipeline>,
    events: Seq<Event>,
    dry_run: bool,
    op: String,
)
    requires
        is_run(states, events, dry_run),
        events.len() >= 1,
        events[0] == Event::Opened(Ok::<RepoState, git2::Error>(RepoState::Busy(op))),
    ensures
        forall|i: int|
            1 <= i < states.len() ==> #[trigger] states[i].action_of() == Action::Finish
                && states[i].fatal == Some(Fatal::RepositoryBusy(op)),
{
    assert forall|i: int| 1 <= i < states.len() implies #[trigger] states[i].action_of()
        == Action::Finish && states[i].fatal == Some(Fatal::RepositoryBusy(op)) by {
        lemma_stays_finished(states, events, dry_run, i);
    }
}

proof fn lemma_stays_finished(states: Seq<Pipeline>, events: Seq<Event>, dry_run: bool, i: int)
    requires
        is_run(states, events, dry_run),
        events.len() >= 1,
        events[0] is Opened && events[0]->Opened_0 is Ok && events[0]->Opened_0->Ok_0 is Busy,
        1 <= i < states.len(),
    ensures
        states[i] == states[1],
        states[1].phase is Finished,
        states[1].fatal == Some(Fatal::RepositoryBusy(events[0]->Opened_0->Ok_0->Busy_0)),
    decreases i,
{
    lemma_step_at(states, events, dry_run, 1);
    if i > 1 {
        lemma_stays_finished(states, events, dry_run, i - 1);
        lemma_step_at(states, events, dry_run, i);
    }
}

/// Each configured remote is reported exactly once, one entry per remote in
/// configured order; one whose name is not text is reported invalid, and a
/// fetch only ever goes to a remote that validation accepted. Entries, once
/// written, never change.
pub proof fn invalid_remotes_are_never_fetched(
    states: Seq<Pipeline>,
    events: Seq<Event>,
    dry_run: bool,
)
    requires
        is_run(states, events, dry_run),
    ensures
        forall|i: int|
            0 <= i < states.len() && rank(#[trigger] states[i].phase) >= 3 ==> states[i].report.remotes@.len()
                == states[i].remote_names@.len(),
        forall|i: int, k: int|
            0 <= i < states.len() && 0 <= k < states[i].report.remotes@.len()
                && #[trigger] states[i].remote_names@[k] is None ==> states[i].report.remotes@[k] is Invalid,
        forall|i: int|
            0 <= i < states.len() && (#[trigger] states[i].action_of()) is Fetch ==> {
                let r = states[i].report.remotes@[states[i].fetch_index as int];
                &&& 0 <= states[i].fetch_index < states[i].report.remotes@.len()
                &&& r is Valid
                &&& states[i].action_of()->Fetch_0 == r->Valid_0.name
            },
        forall|i: int, j: int|
            0 <= i <= j < states.len() ==> (#[trigger] states[i].report.remotes@).is_prefix_of(
                #[trigger] states[j].report.remotes@,
            ),
{
    assert forall|i: int| 0 <= i < states.len() implies (#[trigger] states[i]).wf() by {
        lemma_run_wf(states, events, dry_run, i);
    }
    assert forall|i: int, j: int| 0 <= i <= j < states.len() implies (
    #[trigger] states[i].report.remotes@).is_prefix_of(#[trigger] states[j].report.remotes@) by {
        lemma_remotes_prefix(states, events, dry_run, i, j);
    }
}

proof fn lemma_remotes_prefix(
    states: Seq<Pipeline>,
    events: Seq<Event>,
    dry_run: bool,
    i: int,
    j: int,
)
    requires
        is_run(states, events, dry_run),
        0 <= i <= j < states.len(),
    ensures
        states[i].report.remotes@.is_prefix_of(states[j].report.remotes@),
    decreases j - i,
{
    if i < j {
        lemma_remotes_prefix(states, events, dry_run, i, j - 1);
        lemma_step_at(states, events, dry_run, j);
    }
}

/// A dry run never asks for a fetch or a merge.
pub proof fn dry_run_never_fetches_or_merges(states: Seq<Pipeline>, events: Seq<Event>)
    requires
        is_run(states, events, true),
    ensures
        forall|i: int|
            0 <= i < states.len() ==> !((#[trigger] states[i].action_of()) is Fetch)
                && !(states[i].action_of() is Reconcile),
{
    assert forall|i: int| 0 <= i < states.len() implies !((#[trigger] states[i].action_of()) is Fetch)
        && !(states[i].action_of() is Reconcile) by {
        lemma_run_wf(states, events, true, i);
    }
}

/// Local changes are bracketed by one snapshot: a snapshot is taken at
/// most once and only when the scan found the working copy dirty; every
/// merge and submodule step comes after it and runs with the snapshot held
/// exactly when the copy was dirty; the restore is asked for at most once,
/// after every such step.
pub proof fn snapshot_brackets_merges(states: Seq<Pipeline>, events: Seq<Event>, dry_run: bool)
    requires
        is_run(states, events, dry_run),
    ensures
        forall|i: int|
            0 <= i < states.len() && #[trigger] states[i].action_of() == Action::SaveSnapshot
                ==> states[i].dirty,
        forall|i: int, j: int|
            0 <= i < j < states.len() && #[trigger] states[i].action_of() == Action::SaveSnapshot
                ==> #[trigger] states[j].action_of() != Action::SaveSnapshot,
        forall|i: int, j: int|
            0 <= i < j < states.len() && (#[trigger] states[i].action_of()) is RestoreSnapshot
                ==> !((#[trigger] states[j].action_of()) is RestoreSnapshot),
        forall|i: int|
            0 <= i < states.len() && ((#[trigger] states[i].action_of()) is Reconcile
                || states[i].action_of() is SyncSubmodule) ==> (states[i].dirty
                <==> states[i].snapshot is Held),
        forall|i: int, j: int|
            0 <= i < states.len() && 0 <= j < states.len() && ((#[trigger] states[i].action_of()) is Reconcile
                || states[i].action_of() is SyncSubmodule) ==> (#[trigger] states[j].action_of()
                == Action::SaveSnapshot ==> j < i) && (states[j].action_of() is RestoreSnapshot
                ==> i < j),
{
    assert forall|i: int| 0 <= i < states.len() implies (#[trigger] states[i]).wf() by {
        lemma_run_wf(states, events, dry_run, i);
    }
    assert forall|i: int, j: int|
        0 <= i < j < states.len() && #[trigger] states[i].action_of()
            == Action::SaveSnapshot implies #[trigger] states[j].action_of()
            != Action::SaveSnapshot by {
        lemma_left_for_good(states, events, dry_run, i, j);
    }
    assert forall|i: int, j: int|
        0 <= i < j < states.len() && (#[trigger] states[i].action_of()) is RestoreSnapshot implies !(
        (#[trigger] states[j].action_of()) is RestoreSnapshot) by {
        lemma_left_for_good(states, events, dry_run, i, j);
    }
    assert forall|i: int, j: int|
        0 <= i < states.len() && 0 <= j < states.len() && ((#[trigger] states[i].action_of()) is Reconcile
            || states[i].action_of() is SyncSubmodule) implies (#[trigger] states[j].action_of()
        == Action::SaveSnapshot ==> j < i) && (states[j].action_of() is RestoreSnapshot ==> i
        < j) by {
        if j <= i {
            lemma_rank_grows(states, events, dry_run, j, i);
        } else {
            lemma_rank_grows(states, events, dry_run, i, j);
        }
    }
}

/// A conflict on one branch is recorded against that branch and the run goes
/// on: with the next branch to merge, or with the submodules.
pub proof fn conflict_does_not_stop_the_run(pre: Pipeline, post: Pipeline)
    requires
        pre.wf(),
        pre.phase is Merging,
        step(pre, Event::BranchReconciled(Ok::<MergeKind, git2::Error>(MergeKind::Conflicted)), post),
    ensures
        post.fatal is None,
        post.phase is Merging && post.branch_index > pre.branch_index
            || post.phase is ListingSubmodules,
        post.report.branches@.len() > pre.report.branches@.len(),
        post.report.branches@[pre.report.branches@.len() as int].outcome == MergeOutcome::Conflicted,
        post.report.branches@[pre.report.branches@.len() as int].name
            == pre.branches@[pre.branch_index as int].name,
{
}

/// Validation runs whatever the mode: once the remotes are listed, the first
/// one whose name is text is looked up next, in a dry run too.
pub proof fn remotes_are_validated_in_every_mode(
    pre: Pipeline,
    names: Vec<Option<String>>,
    post: Pipeline,
)
    requires
        pre.wf(),
        pre.phase is ListingRemotes,
        names@.len() > 0,
        names@[0] is Some,
        step(pre, Event::RemotesListed(Ok::<Vec<Option<String>>, git2::Error>(names)), post),
        records(pre, Event::RemotesListed(Ok::<Vec<Option<String>>, git2::Error>(names)), post),
    ensures
        post.action_of() == Action::LookUpRemote(names@[0]->Some_0),
{
    if post.remote_index > 0 {
        assert(names@[0] is None);
    }
}

proof fn lemma_held_until_restore(
    states: Seq<Pipeline>,
    events: Seq<Event>,
    dry_run: bool,
    start: int,
    k: int,
)
    requires
        is_run(states, events, dry_run),
        0 <= start <= k < states.len(),
        states[start].snapshot is Held,
        !(states[start].phase is Finished),
        forall|j: int| start <= j < k ==> !(#[trigger] states[j].phase is Restoring),
    ensures
        states[k].snapshot is Held,
        !(states[k].phase is Finished),
    decreases k - start,
{
    if k > start {
        lemma_held_until_restore(states, events, dry_run, start, k - 1);
        lemma_step_at(states, events, dry_run, k);
    }
}

/// A snapshot that was taken is always handed back: a run that has finished
/// asked for the restore after taking it.
pub proof fn snapshot_is_restored_before_the_end(
    states: Seq<Pipeline>,
    events: Seq<Event>,
    dry_run: bool,
    i: int,
)
    requires
        is_run(states, events, dry_run),
        0 <= i,
        i + 1 < states.len(),
        states[i].action_of() == Action::SaveSnapshot,
        states[i + 1].snapshot is Held,
        states.last().phase is Finished,
    ensures
        exists|j: int| i < j < states.len() && (#[trigger] states[j].action_of()) is RestoreSnapshot,
{
    lemma_step_at(states, events, dry_run, i + 1);
    if forall|j: int| i < j < states.len() ==> !((#[trigger] states[j].action_of()) is RestoreSnapshot) {
        assert forall|j: int| i + 1 <= j < states.len() - 1 implies !(
        #[trigger] states[j].phase is Restoring) by {
            assert(!(states[j].action_of() is RestoreSnapshot));
        }
        lemma_held_until_restore(states, events, dry_run, i + 1, states.len() - 1);
    }
}

/// A scan that finds the working copy dirty is followed at once by taking
/// the snapshot, before any branch is looked at.
pub proof fn dirty_scan_takes_the_snapshot(
    states: Seq<Pipeline>,
    events: Seq<Event>,
    dry_run: bool,
    i: int,
    scan: Vec<u32>,
)
    requires
        is_run(states, events, dry_run),
        0 <= i < events.len(),
        states[i].phase is Scanning,
        events[i] == Event::StatusScanned(Ok::<Vec<u32>, git2::Error>(scan)),
        scan_is_dirty(scan@),
    ensures
        states[i + 1].action_of() == Action::SaveSnapshot,
{
    lemma_step_at(states, events, dry_run, i + 1);
}

proof fn lemma_snapshot_stays_absent(
    states: Seq<Pipeline>,
    events: Seq<Event>,
    dry_run: bool,
    start: int,
    k: int,
)
    requires
        is_run(states, events, dry_run),
        0 <= start <= k < states.len(),
        states[start].snapshot is Absent,
        rank(states[start].phase) >= 6,
    ensures
        states[k].snapshot is Absent,
    decreases k - start,
{
    if k > start {
        lemma_snapshot_stays_absent(states, events, dry_run, start, k - 1);
        lemma_rank_grows(states, events, dry_run, start, k - 1);
        lemma_run_wf(states, events, dry_run, k - 1);
        lemma_step_at(states, events, dry_run, k);
    }
}

/// A scan that finds the working copy clean means that no snapshot is ever
/// taken and no restore is ever asked for in the run.
pub proof fn clean_scan_never_touches_the_stash(
    states: Seq<Pipeline>,
    events: Seq<Event>,
    dry_run: bool,
    i: int,
    scan: Vec<u32>,
)
    requires
        is_run(states, events, dry_run),
        0 <= i < events.len(),
        states[i].phase is Scanning,
        events[i] == Event::StatusScanned(Ok::<Vec<u32>, git2::Error>(scan)),
        !scan_is_dirty(scan@),
    ensures
        forall|j: int|
            0 <= j < states.len() ==> (#[trigger] states[j].action_of()) != Action::SaveSnapshot
                && !(states[j].action_of() is RestoreSnapshot),
{
    lemma_step_at(states, events, dry_run, i + 1);
    lemma_run_wf(states, events, dry_run, i + 1);
    assert forall|j: int| 0 <= j < states.len() implies (#[trigger] states[j].action_of())
        != Action::SaveSnapshot && !(states[j].action_of() is RestoreSnapshot) by {
        lemma_run_wf(states, events, dry_run, j);
        if j <= i {
            lemma_rank_grows(states, events, dry_run, j, i);
        } else {
            lemma_rank_grows(states, events, dry_run, i + 1, j);
            lemma_snapshot_stays_absent(states, events, dry_run, i + 1, j);
        }
    }
}

} // verus!
