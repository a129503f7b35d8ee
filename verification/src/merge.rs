//! The merge stage: how the fetched commit relates to the local branch, and
//! what is done about it.

use vstd::prelude::*;
use git2::{Oid, Repository};
use crate::engine::{
    checkout_head, checkout_options, cleanup_state, commit_with_parents, default_signature,
    find_annotated_commit, find_commit, find_tree, force_checkout, index_has_conflicts,
    merge_analysis_bits, merge_into_worktree, point_reference_at, repository_index,
    resolve_reference, set_head, write_index_tree,
};
use crate::error::SyncError;
use crate::refname::branch_ref;

verus! {

/// The engine's bit for histories that have diverged.
pub const ANALYSIS_NORMAL: u32 = 1;

/// The engine's bit for a local branch that is behind the fetched commit.
pub const ANALYSIS_FAST_FORWARD: u32 = 4;

/// The three ways in which a fetched commit relates to the local branch.
#[derive(Clone, Copy, Debug, PartialEq, Eq, Structural)]
pub enum MergeKind {
    /// The local branch already holds the fetched commit.
    UpToDate,
    /// The local branch is an ancestor of the fetched commit.
    FastForward,
    /// The two histories have diverged.
    Normal,
}

/// What a merge did.
#[derive(Debug)]
pub enum MergeOutcome {
    /// Nothing was changed.
    UpToDate,
    /// The branch now points at `tip`; no commit was created.
    FastForwarded { tip: Oid },
    /// A merge commit was created with the two parents given.
    Merged { commit: Oid, first_parent: Oid, second_parent: Oid },
}

impl MergeOutcome {
    /// Whether the outcome is one that a merge of `fetched` can have: the
    /// branch was left alone, or it now points at `fetched`, or `fetched` is
    /// the second parent of the new commit.
    pub open spec fn is_merge_of(&self, fetched: Oid) -> bool {
        match *self {
            MergeOutcome::UpToDate => true,
            MergeOutcome::FastForwarded { tip } => tip == fetched,
            MergeOutcome::Merged { second_parent, .. } => second_parent == fetched,
        }
    }
}

/// The kind of merge for the bits of an analysis. A possible fast-forward
/// is preferred to a merge; where neither is offered there is nothing to do.
pub open spec fn spec_classify_merge(bits: u32) -> MergeKind {
    if bits & ANALYSIS_FAST_FORWARD != 0 {
        MergeKind::FastForward
    } else if bits & ANALYSIS_NORMAL != 0 {
        MergeKind::Normal
    } else {
        MergeKind::UpToDate
    }
}

/// Classifies the result of a merge analysis.
pub fn classify_merge(bits: u32) -> (kind: MergeKind)
    ensures
        kind == spec_classify_merge(bits),
{
    if bits & ANALYSIS_FAST_FORWARD != 0 {
        MergeKind::FastForward
    } else if bits & ANALYSIS_NORMAL != 0 {
        MergeKind::Normal
    } else {
        MergeKind::UpToDate
    }
}

/// The kind of merge for an attempted analysis; a failed analysis is a
/// failed merge.
pub fn merge_kind_from(analysis: &Result<u32, git2::Error>) -> (kind: Result<MergeKind, SyncError>)
    ensures
        kind.is_ok() == analysis.is_ok(),
        analysis.is_ok() ==> kind->Ok_0 == spec_classify_merge(analysis->Ok_0),
        analysis.is_err() ==> kind->Err_0 is MergeFailed,
{
    match analysis {
        Ok(bits) => Ok(classify_merge(*bits)),
        Err(_) => Err(SyncError::MergeFailed),
    }
}

/// Whether a three-way merge may be committed: only where it left no
/// conflicts in the index; conflicts are reported as `MergeConflict`.
pub fn commit_allowed(conflicts: bool) -> (allowed: Result<(), SyncError>)
    ensures
        allowed.is_ok() == !conflicts,
        conflicts ==> allowed->Err_0 is MergeConflict,
{
    if conflicts {
        Err(SyncError::MergeConflict)
    } else {
        Ok(())
    }
}

/// Advances the local branch to the fetched commit and updates the working
/// tree. Succeeds only as a fast-forward to `fetched`; every failure of the
/// engine is `MergeFailed`.
pub fn fast_forward(repository: &Repository, branch: &str, fetched: Oid) -> (outcome: Result<
    MergeOutcome,
    SyncError,
>)
    ensures
        outcome.is_ok() ==> outcome->Ok_0 == (MergeOutcome::FastForwarded { tip: fetched }),
        outcome.is_err() ==> outcome->Err_0 is MergeFailed,
{
    let name = branch_ref(branch);
    if point_reference_at(repository, name.as_str(), fetched, true, "fast-forward").is_err() {
        return Err(SyncError::MergeFailed);
    }
    if set_head(repository, name.as_str()).is_err() {
        return Err(SyncError::MergeFailed);
    }
    let mut options = checkout_options();
    force_checkout(&mut options);
    if checkout_head(repository, &mut options).is_err() {
        return Err(SyncError::MergeFailed);
    }
    Ok(MergeOutcome::FastForwarded { tip: fetched })
}

/// Merges the fetched commit into the checked-out branch, whose tip is
/// `ours`. Succeeds only with a commit whose parents are `ours` and
/// `fetched`, in that order. Conflicts are reported as `MergeConflict` before
/// any commit is made or any reference is moved, and the repository stays in
/// its merging state; every failure of the engine is `MergeFailed`.
pub fn normal_merge(repository: &Repository, ours: Oid, fetched: Oid) -> (outcome: Result<
    MergeOutcome,
    SyncError,
>)
    ensures
        outcome.is_ok() ==> {
            &&& outcome->Ok_0 is Merged
            &&& outcome->Ok_0->first_parent == ours
            &&& outcome->Ok_0->second_parent == fetched
        },
        outcome.is_err() ==> outcome->Err_0 is MergeConflict || outcome->Err_0 is MergeFailed,
{
    let theirs = match find_annotated_commit(repository, fetched) {
        Ok(commit) => commit,
        Err(_) => {
            return Err(SyncError::MergeFailed);
        },
    };
    if merge_into_worktree(repository, &theirs).is_err() {
        return Err(SyncError::MergeFailed);
    }
    let mut index = match repository_index(repository) {
        Ok(index) => index,
        Err(_) => {
            return Err(SyncError::MergeFailed);
        },
    };
    match commit_allowed(index_has_conflicts(&index)) {
        Ok(()) => {},
        Err(e) => {
            return Err(e);
        },
    }
    let tree_id = match write_index_tree(&mut index) {
        Ok(id) => id,
        Err(_) => {
            return Err(SyncError::MergeFailed);
        },
    };
    let tree = match find_tree(repository, tree_id) {
        Ok(tree) => tree,
        Err(_) => {
            return Err(SyncError::MergeFailed);
        },
    };
    let signature = match default_signature(repository) {
        Ok(signature) => signature,
        Err(_) => {
            return Err(SyncError::MergeFailed);
        },
    };
    let first = match find_commit(repository, ours) {
        Ok(commit) => commit,
        Err(_) => {
            return Err(SyncError::MergeFailed);
        },
    };
    let second = match find_commit(repository, fetched) {
        Ok(commit) => commit,
        Err(_) => {
            return Err(SyncError::MergeFailed);
        },
    };
    let commit = match commit_with_parents(
        repository,
        "HEAD",
        &signature,
        "merge fetched commit",
        &tree,
        &first,
        &second,
    ) {
        Ok(id) => id,
        Err(_) => {
            return Err(SyncError::MergeFailed);
        },
    };
    if cleanup_state(repository).is_err() {
        return Err(SyncError::MergeFailed);
    }
    Ok(MergeOutcome::Merged { commit, first_parent: ours, second_parent: fetched })
}

/// Merges the fetched commit into the checked-out branch, for an attempt to
/// resolve the tip of that branch. Without a tip nothing is merged and the
/// merge has failed; with one, a success is a commit whose parents are that
/// tip and `fetched`, in that order.
pub fn merge_onto_tip(repository: &Repository, local_tip: &Result<Oid, git2::Error>, fetched: Oid) -> (outcome:
    Result<MergeOutcome, SyncError>)
    ensures
        local_tip.is_err() ==> outcome.is_err() && outcome->Err_0 is MergeFailed,
        local_tip.is_ok() && outcome.is_ok() ==> {
            &&& outcome->Ok_0 is Merged
            &&& outcome->Ok_0->first_parent == local_tip->Ok_0
            &&& outcome->Ok_0->second_parent == fetched
        },
        outcome.is_err() ==> outcome->Err_0 is MergeConflict || outcome->Err_0 is MergeFailed,
{
    match local_tip {
        Ok(ours) => normal_merge(repository, *ours, fetched),
        Err(_) => Err(SyncError::MergeFailed),
    }
}

/// Carries out the merge of the given kind. Nothing is touched where the
/// branch is up to date; a fast-forward creates no commit; only diverged
/// histories can end in `MergeConflict`.
pub fn apply_merge(repository: &Repository, branch: &str, fetched: Oid, kind: MergeKind) -> (outcome:
    Result<MergeOutcome, SyncError>)
    ensures
        kind == MergeKind::UpToDate ==> outcome.is_ok() && outcome->Ok_0 is UpToDate,
        kind == MergeKind::FastForward && outcome.is_ok() ==> {
            outcome->Ok_0 == (MergeOutcome::FastForwarded { tip: fetched })
        },
        kind == MergeKind::FastForward && outcome.is_err() ==> outcome->Err_0 is MergeFailed,
        kind == MergeKind::Normal && outcome.is_ok() ==> {
            &&& outcome->Ok_0 is Merged
            &&& outcome->Ok_0->second_parent == fetched
        },
        kind == MergeKind::Normal && outcome.is_err() ==> {
            ||| outcome->Err_0 is MergeConflict
            ||| outcome->Err_0 is MergeFailed
        },
{
    match kind {
        MergeKind::UpToDate => Ok(MergeOutcome::UpToDate),
        MergeKind::FastForward => fast_forward(repository, branch, fetched),
        MergeKind::Normal => {
            let local_tip = resolve_reference(repository, "HEAD");
            merge_onto_tip(repository, &local_tip, fetched)
        },
    }
}

/// Carries out the merge that an attempted analysis calls for. A failed
/// analysis is `MergeFailed`; an up-to-date branch is left alone; a
/// fast-forward succeeds only by making `fetched` the tip; diverged histories
/// succeed only with a commit whose second parent is `fetched`, and only they
/// can end in `MergeConflict`.
pub fn merge_analysed(
    repository: &Repository,
    branch: &str,
    fetched: Oid,
    analysis: &Result<u32, git2::Error>,
) -> (outcome: Result<MergeOutcome, SyncError>)
    ensures
        analysis.is_err() ==> outcome.is_err() && outcome->Err_0 is MergeFailed,
        analysis.is_ok() ==> match spec_classify_merge(analysis->Ok_0) {
            MergeKind::UpToDate => outcome.is_ok() && outcome->Ok_0 is UpToDate,
            MergeKind::FastForward => {
                &&& outcome.is_ok() ==> outcome->Ok_0 == (
                MergeOutcome::FastForwarded { tip: fetched })
                &&& outcome.is_err() ==> outcome->Err_0 is MergeFailed
            },
            MergeKind::Normal => {
                &&& outcome.is_ok() ==> outcome->Ok_0 is Merged && outcome->Ok_0->second_parent
                    == fetched
                &&& outcome.is_err() ==> outcome->Err_0 is MergeConflict
                    || outcome->Err_0 is MergeFailed
            },
        },
{
    match merge_kind_from(analysis) {
        Ok(kind) => apply_merge(repository, branch, fetched, kind),
        Err(e) => Err(e),
    }
}

/// The merge stage: asks the engine how `fetched` relates to the checked-out
/// branch and carries out the merge that the answer calls for.
pub fn do_merge(repository: &Repository, branch: &str, fetched: Oid) -> (outcome: Result<
    MergeOutcome,
    SyncError,
>)
    ensures
        outcome.is_ok() ==> outcome->Ok_0.is_merge_of(fetched),
        outcome.is_err() ==> outcome->Err_0 is MergeConflict || outcome->Err_0 is MergeFailed,
{
    let analysis = match find_annotated_commit(repository, fetched) {
        Ok(theirs) => merge_analysis_bits(repository, &theirs),
        Err(cause) => Err(cause),
    };
    merge_analysed(repository, branch, fetched, &analysis)
}

} // verus!
