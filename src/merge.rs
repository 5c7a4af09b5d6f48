use vstd::prelude::*;

verus! {

/// How a local branch is brought level with its upstream.
#[derive(Debug, Clone, Copy, PartialEq, Eq, Structural)]
pub enum Reconciliation {
    /// The upstream is already contained in the branch.
    Nothing,
    /// The branch tip is moved forward to the upstream tip.
    FastForward,
    /// The two tips are merged into a new commit, unless that conflicts.
    MergeCommits,
}

/// Relies on `git2::MergeAnalysis::ANALYSIS_UP_TO_DATE`: the flag that
/// libgit2's merge analysis sets when every input is already reachable
/// (`GIT_MERGE_ANALYSIS_UP_TO_DATE`, bit 1).
#[verifier::external_body]
fn up_to_date_flag() -> (r: u32)
    ensures
        r == 2u32,
{
    git2::MergeAnalysis::ANALYSIS_UP_TO_DATE.bits()
}

/// Relies on `git2::MergeAnalysis::ANALYSIS_FASTFORWARD`: the flag that
/// libgit2's merge analysis sets when the input descends from the branch
/// tip (`GIT_MERGE_ANALYSIS_FASTFORWARD`, bit 2).
#[verifier::external_body]
fn fast_forward_flag() -> (r: u32)
    ensures
        r == 4u32,
{
    git2::MergeAnalysis::ANALYSIS_FASTFORWARD.bits()
}

/// The reconciliation that a merge analysis calls for: nothing when up to
/// date, a fast-forward when possible, a merge otherwise.
pub open spec fn reconciliation_for(analysis: u32) -> Reconciliation {
    if analysis & 2u32 != 0 {
        Reconciliation::Nothing
    } else if analysis & 4u32 != 0 {
        Reconciliation::FastForward
    } else {
        Reconciliation::MergeCommits
    }
}

/// Chooses the reconciliation from the flag bits of a merge analysis.
pub fn plan_reconciliation(analysis: u32) -> (r: Reconciliation)
    ensures
        r == reconciliation_for(analysis),
{
    if analysis & up_to_date_flag() != 0 {
        Reconciliation::Nothing
    } else if analysis & fast_forward_flag() != 0 {
        Reconciliation::FastForward
    } else {
        Reconciliation::MergeCommits
    }
}

} // verus!
