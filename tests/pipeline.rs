use git_rup::outcome::{
    BranchReport, Fatal, FetchOutcome, LocalBranch, MergeKind, MergeOutcome, RepoState,
    SubmoduleOutcome, Upstream,
};
use git_rup::pipeline::{Action, Event, Phase, Pipeline, Snapshot};
use git_rup::remotes::RemoteOutcome;

fn cause(text: &str) -> git2::Error {
    git2::Error::from_str(text)
}

fn names(list: &[Option<&str>]) -> Vec<Option<String>> {
    list.iter().map(|n| n.map(|s| s.to_string())).collect()
}

fn tracking(local: &str, upstream: &str) -> LocalBranch {
    LocalBranch {
        name: Some(local.to_string()),
        upstream: Some(Upstream { name: Some(upstream.to_string()) }),
    }
}

/// Feeds the events in order, checking that each answers the pending action,
/// and returns the actions asked for along the way (the last one included).
fn drive(p: &mut Pipeline, events: Vec<Event>) -> Vec<Action> {
    let mut actions = vec![p.action()];
    for e in events {
        p.advance(e);
        actions.push(p.action());
    }
    actions
}

#[test]
fn busy_repository_is_fatal_before_remotes() {
    let mut p = Pipeline::new(false);
    let actions = drive(&mut p, vec![Event::Opened(Ok(RepoState::Busy("rebase".to_string())))]);
    assert_eq!(actions, vec![Action::Open, Action::Finish]);
    assert_eq!(p.fatal, Some(Fatal::RepositoryBusy("rebase".to_string())));
    assert_eq!(p.exit_code(), 1);
    p.advance(Event::RemotesListed(Ok(names(&[Some("origin")]))));
    assert_eq!(p.action(), Action::Finish);
    assert!(p.report.remotes.is_empty());
}

#[test]
fn missing_repository_is_fatal() {
    let mut p = Pipeline::new(false);
    p.advance(Event::Opened(Err(cause("could not find repository"))));
    assert!(p.is_finished());
    assert!(matches!(p.fatal, Some(Fatal::NotARepository(ref e)) if e.msg == "not a repository"));
    assert_eq!(p.exit_code(), 1);
}

#[test]
fn empty_remote_list_is_fatal() {
    let mut p = Pipeline::new(false);
    let actions = drive(
        &mut p,
        vec![Event::Opened(Ok(RepoState::Clean)), Event::RemotesListed(Ok(vec![]))],
    );
    assert_eq!(actions, vec![Action::Open, Action::ListRemotes, Action::Finish]);
    assert!(
        matches!(p.fatal, Some(Fatal::NoRemotes(ref e)) if e.msg == "does not have remote repository" && e.err.is_none())
    );
}

#[test]
fn unnamed_remote_is_reported_once_and_not_fetched() {
    let mut p = Pipeline::new(false);
    let actions = drive(
        &mut p,
        vec![
            Event::Opened(Ok(RepoState::Clean)),
            Event::RemotesListed(Ok(names(&[None, Some("origin")]))),
            Event::RemoteLookedUp(Ok(Some("https://example.org/r.git".to_string()))),
            Event::Fetched(Ok(())),
        ],
    );
    assert_eq!(
        actions,
        vec![
            Action::Open,
            Action::ListRemotes,
            Action::LookUpRemote("origin".to_string()),
            Action::Fetch("origin".to_string()),
            Action::ScanStatus,
        ]
    );
    assert_eq!(p.report.remotes.len(), 2);
    assert!(matches!(p.report.remotes[0], RemoteOutcome::Invalid { name: None, .. }));
    assert!(matches!(p.report.remotes[1], RemoteOutcome::Valid(ref r) if r.name == "origin"));
    assert_eq!(p.report.fetches, vec![FetchOutcome::Fetched("origin".to_string())]);
}

#[test]
fn remote_with_unreadable_url_is_never_fetched() {
    let mut p = Pipeline::new(false);
    let actions = drive(
        &mut p,
        vec![
            Event::Opened(Ok(RepoState::Clean)),
            Event::RemotesListed(Ok(names(&[Some("origin")]))),
            Event::RemoteLookedUp(Ok(None)),
            Event::StatusScanned(Ok(vec![])),
            Event::BranchesListed(Ok(vec![])),
            Event::SubmodulesListed(Ok(vec![])),
        ],
    );
    assert!(!actions.iter().any(|a| matches!(a, Action::Fetch(_))));
    assert_eq!(p.report.remotes.len(), 1);
    assert!(matches!(
        p.report.remotes[0],
        RemoteOutcome::Invalid { name: Some(ref n), ref error } if n == "origin" && error.msg == "non-representable remote URL"
    ));
    assert!(p.report.fetches.is_empty());
    assert!(p.is_finished());
    assert_eq!(p.exit_code(), 0);
}

#[test]
fn failed_lookup_and_failed_fetch_are_not_fatal() {
    let mut p = Pipeline::new(false);
    drive(
        &mut p,
        vec![
            Event::Opened(Ok(RepoState::Clean)),
            Event::RemotesListed(Ok(names(&[Some("gone"), Some("down"), Some("up")]))),
            Event::RemoteLookedUp(Err(cause("remote 'gone' does not exist"))),
            Event::RemoteLookedUp(Ok(Some("https://down.example/r.git".to_string()))),
            Event::RemoteLookedUp(Ok(Some("https://up.example/r.git".to_string()))),
            Event::Fetched(Err(cause("network unreachable"))),
            Event::Fetched(Ok(())),
        ],
    );
    assert!(matches!(
        p.report.remotes[0],
        RemoteOutcome::Invalid { ref error, .. } if error.msg == "remote lookup failed" && error.err.is_some()
    ));
    assert!(matches!(
        p.report.fetches[0],
        FetchOutcome::Failed { ref name, ref error } if name == "down" && error.msg == "fetch failed"
    ));
    assert_eq!(p.report.fetches[1], FetchOutcome::Fetched("up".to_string()));
    assert_eq!(p.phase, Phase::Scanning);
    assert!(p.fatal.is_none());
}

#[test]
fn dry_run_validates_but_never_fetches_or_merges() {
    let mut p = Pipeline::new(true);
    let actions = drive(
        &mut p,
        vec![
            Event::Opened(Ok(RepoState::Clean)),
            Event::RemotesListed(Ok(names(&[Some("origin")]))),
            Event::RemoteLookedUp(Ok(Some("https://example.org/r.git".to_string()))),
            Event::StatusScanned(Ok(vec![])),
            Event::BranchesListed(Ok(vec![tracking("main", "origin/main")])),
            Event::SubmodulesListed(Ok(vec![])),
        ],
    );
    assert!(actions.contains(&Action::LookUpRemote("origin".to_string())));
    assert!(!actions.iter().any(|a| matches!(a, Action::Fetch(_) | Action::Reconcile { .. })));
    assert_eq!(p.report.fetches, vec![FetchOutcome::Skipped("origin".to_string())]);
    assert_eq!(p.report.branches[0].outcome, MergeOutcome::Skipped("dry-run"));
    assert_eq!(p.exit_code(), 0);
}

#[test]
fn clean_fast_forward_takes_no_snapshot() {
    let mut p = Pipeline::new(false);
    let actions = drive(
        &mut p,
        vec![
            Event::Opened(Ok(RepoState::Clean)),
            Event::RemotesListed(Ok(names(&[Some("origin")]))),
            Event::RemoteLookedUp(Ok(Some("/srv/upstream.git".to_string()))),
            Event::Fetched(Ok(())),
            Event::StatusScanned(Ok(vec![0x4000])),
            Event::BranchesListed(Ok(vec![tracking("main", "origin/main")])),
            Event::BranchReconciled(Ok(MergeKind::FastForwarded)),
            Event::SubmodulesListed(Ok(vec![])),
        ],
    );
    assert!(actions.contains(&Action::Reconcile {
        local: "main".to_string(),
        upstream: "origin/main".to_string(),
    }));
    assert!(!actions.contains(&Action::SaveSnapshot));
    assert!(!actions.iter().any(|a| matches!(a, Action::RestoreSnapshot(_))));
    assert!(!p.dirty);
    assert_eq!(p.snapshot, Snapshot::Absent);
    assert_eq!(p.report.branches[0].outcome, MergeOutcome::FastForwarded);
    assert_eq!(p.exit_code(), 0);
}

#[test]
fn dirty_copy_with_conflict_is_snapshotted_and_restored() {
    let mut p = Pipeline::new(false);
    let actions = drive(
        &mut p,
        vec![
            Event::Opened(Ok(RepoState::Clean)),
            Event::RemotesListed(Ok(names(&[Some("origin")]))),
            Event::RemoteLookedUp(Ok(Some("/srv/upstream.git".to_string()))),
            Event::Fetched(Ok(())),
            Event::StatusScanned(Ok(vec![0x100])),
            Event::SnapshotSaved(Ok("4b825dc642cb6eb9a060e54bf8d69288fbee4904".to_string())),
            Event::BranchesListed(Ok(vec![tracking("main", "origin/main")])),
            Event::BranchReconciled(Ok(MergeKind::Conflicted)),
            Event::SubmodulesListed(Ok(vec![])),
            Event::SnapshotRestored(Ok(())),
        ],
    );
    let save = actions.iter().position(|a| *a == Action::SaveSnapshot).unwrap();
    let merge = actions.iter().position(|a| matches!(a, Action::Reconcile { .. })).unwrap();
    let restore = actions.iter().position(|a| matches!(a, Action::RestoreSnapshot(_))).unwrap();
    assert!(save < merge && merge < restore);
    assert_eq!(actions.iter().filter(|a| **a == Action::SaveSnapshot).count(), 1);
    assert_eq!(
        actions[restore],
        Action::RestoreSnapshot("4b825dc642cb6eb9a060e54bf8d69288fbee4904".to_string())
    );
    assert_eq!(
        p.report.branches,
        vec![BranchReport {
            name: Some("main".to_string()),
            upstream: Some("origin/main".to_string()),
            outcome: MergeOutcome::Conflicted,
        }]
    );
    assert_eq!(p.snapshot, Snapshot::Restored);
    assert_eq!(p.exit_code(), 0);
}

#[test]
fn conflict_does_not_stop_later_branches_or_submodules() {
    let mut p = Pipeline::new(false);
    let actions = drive(
        &mut p,
        vec![
            Event::Opened(Ok(RepoState::Clean)),
            Event::RemotesListed(Ok(names(&[Some("origin")]))),
            Event::RemoteLookedUp(Ok(Some("/srv/upstream.git".to_string()))),
            Event::Fetched(Ok(())),
            Event::StatusScanned(Ok(vec![])),
            Event::BranchesListed(Ok(vec![
                tracking("main", "origin/main"),
                tracking("dev", "origin/dev"),
            ])),
            Event::BranchReconciled(Ok(MergeKind::Conflicted)),
            Event::BranchReconciled(Ok(MergeKind::Merged)),
            Event::SubmodulesListed(Ok(names(&[Some("vendor/lib")]))),
            Event::SubmoduleSynced(Ok(())),
        ],
    );
    assert!(actions.contains(&Action::Reconcile {
        local: "dev".to_string(),
        upstream: "origin/dev".to_string(),
    }));
    assert!(actions.contains(&Action::SyncSubmodule("vendor/lib".to_string())));
    assert_eq!(p.report.branches[0].outcome, MergeOutcome::Conflicted);
    assert_eq!(p.report.branches[1].outcome, MergeOutcome::Merged);
    assert_eq!(p.report.submodules, vec![SubmoduleOutcome::Synced("vendor/lib".to_string())]);
    assert_eq!(p.exit_code(), 0);
}

#[test]
fn branches_without_upstream_or_readable_names_are_skipped() {
    let mut p = Pipeline::new(false);
    drive(
        &mut p,
        vec![
            Event::Opened(Ok(RepoState::Clean)),
            Event::RemotesListed(Ok(names(&[Some("origin")]))),
            Event::RemoteLookedUp(Ok(Some("/srv/upstream.git".to_string()))),
            Event::Fetched(Ok(())),
            Event::StatusScanned(Ok(vec![])),
            Event::BranchesListed(Ok(vec![
                LocalBranch { name: Some("local-only".to_string()), upstream: None },
                LocalBranch { name: None, upstream: Some(Upstream { name: Some("origin/x".to_string()) }) },
                tracking("main", "origin/main"),
            ])),
            Event::BranchReconciled(Ok(MergeKind::UpToDate)),
            Event::BranchReconciled(Err(cause("late event"))),
        ],
    );
    assert_eq!(p.report.branches.len(), 3);
    assert_eq!(p.report.branches[0].outcome, MergeOutcome::NoUpstream);
    assert_eq!(p.report.branches[1].outcome, MergeOutcome::Skipped("non-representable name"));
    assert_eq!(p.report.branches[2].outcome, MergeOutcome::Skipped("already up to date"));
    assert_eq!(p.action(), Action::ListSubmodules);
}

#[test]
fn merge_and_submodule_failures_are_per_item() {
    let mut p = Pipeline::new(false);
    drive(
        &mut p,
        vec![
            Event::Opened(Ok(RepoState::Clean)),
            Event::RemotesListed(Ok(names(&[Some("origin")]))),
            Event::RemoteLookedUp(Ok(Some("/srv/upstream.git".to_string()))),
            Event::Fetched(Ok(())),
            Event::StatusScanned(Ok(vec![])),
            Event::BranchesListed(Ok(vec![tracking("main", "origin/main")])),
            Event::BranchReconciled(Err(cause("object not found"))),
            Event::SubmodulesListed(Ok(names(&[None, Some("a"), Some("b")]))),
            Event::SubmoduleSynced(Err(cause("no url"))),
            Event::SubmoduleSynced(Ok(())),
        ],
    );
    assert!(matches!(p.report.branches[0].outcome, MergeOutcome::Failed(ref e) if e.msg == "merge failed"));
    assert_eq!(p.report.submodules[0], SubmoduleOutcome::NonRepresentable);
    assert!(matches!(
        p.report.submodules[1],
        SubmoduleOutcome::Failed { ref name, ref error } if name == "a" && error.msg == "submodule sync failed"
    ));
    assert_eq!(p.report.submodules[2], SubmoduleOutcome::Synced("b".to_string()));
    assert!(p.is_finished());
    assert_eq!(p.exit_code(), 0);
}

#[test]
fn failed_snapshot_aborts_before_merging() {
    let mut p = Pipeline::new(false);
    let actions = drive(
        &mut p,
        vec![
            Event::Opened(Ok(RepoState::Clean)),
            Event::RemotesListed(Ok(names(&[Some("origin")]))),
            Event::RemoteLookedUp(Ok(Some("/srv/upstream.git".to_string()))),
            Event::Fetched(Ok(())),
            Event::StatusScanned(Ok(vec![0x2])),
            Event::SnapshotSaved(Err(cause("cannot stash"))),
        ],
    );
    assert_eq!(*actions.last().unwrap(), Action::Finish);
    assert!(!actions.contains(&Action::ListBranches));
    assert!(matches!(p.fatal, Some(Fatal::StashSaveFailed(ref e)) if e.msg == "cannot save local changes"));
    assert_eq!(p.exit_code(), 1);
}

#[test]
fn failed_restore_names_the_snapshot() {
    let mut p = Pipeline::new(false);
    drive(
        &mut p,
        vec![
            Event::Opened(Ok(RepoState::Clean)),
            Event::RemotesListed(Ok(names(&[Some("origin")]))),
            Event::RemoteLookedUp(Ok(Some("/srv/upstream.git".to_string()))),
            Event::Fetched(Ok(())),
            Event::StatusScanned(Ok(vec![0x80])),
            Event::SnapshotSaved(Ok("abc123".to_string())),
            Event::BranchesListed(Ok(vec![])),
            Event::SubmodulesListed(Ok(vec![])),
            Event::SnapshotRestored(Err(cause("conflict in stash"))),
        ],
    );
    assert!(matches!(
        p.fatal,
        Some(Fatal::StashRestoreFailed { ref snapshot, ref error }) if snapshot == "abc123" && error.msg == "cannot restore local changes"
    ));
    assert_eq!(p.snapshot, Snapshot::Held("abc123".to_string()));
    assert_eq!(p.exit_code(), 1);
}

#[test]
fn listing_failure_after_snapshot_still_restores() {
    let mut p = Pipeline::new(false);
    let actions = drive(
        &mut p,
        vec![
            Event::Opened(Ok(RepoState::Clean)),
            Event::RemotesListed(Ok(names(&[Some("origin")]))),
            Event::RemoteLookedUp(Ok(Some("/srv/upstream.git".to_string()))),
            Event::Fetched(Ok(())),
            Event::StatusScanned(Ok(vec![0x100])),
            Event::SnapshotSaved(Ok("s1".to_string())),
            Event::BranchesListed(Err(cause("corrupt refs"))),
            Event::SnapshotRestored(Ok(())),
        ],
    );
    assert!(actions.contains(&Action::RestoreSnapshot("s1".to_string())));
    assert!(matches!(p.fatal, Some(Fatal::ListingFailed(ref e)) if e.msg == "cannot list local branches"));
    assert_eq!(p.snapshot, Snapshot::Restored);
    assert_eq!(p.exit_code(), 1);
}

#[test]
fn status_scan_failure_is_fatal() {
    let mut p = Pipeline::new(false);
    drive(
        &mut p,
        vec![
            Event::Opened(Ok(RepoState::Clean)),
            Event::RemotesListed(Ok(names(&[None]))),
            Event::StatusScanned(Err(cause("index locked"))),
        ],
    );
    assert!(matches!(p.fatal, Some(Fatal::StatusFailed(_))));
    assert_eq!(p.exit_code(), 1);
}

#[test]
fn event_out_of_turn_changes_nothing() {
    let mut p = Pipeline::new(false);
    p.advance(Event::Fetched(Ok(())));
    assert_eq!(p.phase, Phase::Opening);
    assert_eq!(p.action(), Action::Open);
}

#[test]
fn unnamed_remote_carries_the_name_or_url_message() {
    let mut p = Pipeline::new(false);
    drive(
        &mut p,
        vec![
            Event::Opened(Ok(RepoState::Clean)),
            Event::RemotesListed(Ok(names(&[None]))),
        ],
    );
    assert!(matches!(
        p.report.remotes[0],
        RemoteOutcome::Invalid { name: None, ref error }
            if error.msg == "non-representable remote name/URL" && error.err.is_none()
    ));
    assert_eq!(p.action(), Action::ScanStatus);
}

#[test]
fn dry_run_reports_every_branch_kind() {
    let mut p = Pipeline::new(true);
    let actions = drive(
        &mut p,
        vec![
            Event::Opened(Ok(RepoState::Clean)),
            Event::RemotesListed(Ok(names(&[Some("origin")]))),
            Event::RemoteLookedUp(Ok(Some("/srv/upstream.git".to_string()))),
            Event::StatusScanned(Ok(vec![])),
            Event::BranchesListed(Ok(vec![
                tracking("main", "origin/main"),
                LocalBranch { name: Some("scratch".to_string()), upstream: None },
                LocalBranch { name: Some("odd".to_string()), upstream: Some(Upstream { name: None }) },
            ])),
        ],
    );
    assert_eq!(*actions.last().unwrap(), Action::ListSubmodules);
    let outcomes: Vec<&MergeOutcome> = p.report.branches.iter().map(|b| &b.outcome).collect();
    assert_eq!(
        outcomes,
        vec![
            &MergeOutcome::Skipped("dry-run"),
            &MergeOutcome::NoUpstream,
            &MergeOutcome::Skipped("non-representable name"),
        ]
    );
}
