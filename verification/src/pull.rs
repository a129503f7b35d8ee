//! A pull: the fetch stage, then the merge stage.

use vstd::prelude::*;
use git2::{Oid, Remote, Repository};
use crate::engine::{fetch_branch, find_remote, resolve_reference};
use crate::error::SyncError;
use crate::merge::{do_merge, MergeOutcome};

verus! {

/// The remote for a lookup by name: the remote that was found, or
/// `RemoteNotFound` for every failed lookup.
pub fn remote_from<'a>(found: Result<Remote<'a>, git2::Error>) -> (remote: Result<
    Remote<'a>,
    SyncError,
>)
    ensures
        found.is_ok() ==> remote == Ok::<Remote<'a>, SyncError>(found->Ok_0),
        found.is_err() ==> remote == Err::<Remote<'a>, SyncError>(SyncError::RemoteNotFound),
{
    match found {
        Ok(remote) => Ok(remote),
        Err(_) => Err(SyncError::RemoteNotFound),
    }
}

/// The commit for an attempt to transfer and then resolve the fetch head:
/// the commit that it resolved to, or `FetchFailed` with the engine's error
/// where either step failed.
pub fn fetched_commit_from(resolved: Result<Oid, git2::Error>) -> (fetched: Result<Oid, SyncError>)
    ensures
        resolved.is_ok() ==> fetched == Ok::<Oid, SyncError>(resolved->Ok_0),
        resolved.is_err() ==> fetched == Err::<Oid, SyncError>(
            SyncError::FetchFailed(resolved->Err_0),
        ),
{
    match resolved {
        Ok(id) => Ok(id),
        Err(cause) => Err(SyncError::FetchFailed(cause)),
    }
}

/// The fetch stage: resolves the remote by name, downloads the branch in
/// one transfer and gives the commit that was fetched. An unknown remote is
/// `RemoteNotFound`; every later failure is `FetchFailed` with the engine's
/// error.
pub fn do_fetch(repository: &Repository, remote_name: &str, branch: &str) -> (fetched: Result<
    Oid,
    SyncError,
>)
    ensures
        fetched.is_err() ==> fetched->Err_0 is RemoteNotFound || fetched->Err_0 is FetchFailed,
{
    let mut remote = match remote_from(find_remote(repository, remote_name)) {
        Ok(remote) => remote,
        Err(e) => {
            return Err(e);
        },
    };
    let resolved = match fetch_branch(&mut remote, branch) {
        Ok(()) => resolve_reference(repository, "FETCH_HEAD"),
        Err(cause) => Err(cause),
    };
    fetched_commit_from(resolved)
}

/// What a pull did: the commit that was fetched, and what became of it.
#[derive(Debug)]
pub struct PullReport {
    pub fetched: Oid,
    pub outcome: MergeOutcome,
}

/// Hands the result of the fetch stage to the merge stage. A failed fetch is
/// passed on as it is and nothing is merged; a fetched commit is merged into
/// `branch`, and whatever the merge does, it does with that commit.
pub fn merge_fetched(repository: &Repository, branch: &str, fetched: Result<Oid, SyncError>) -> (report:
    Result<PullReport, SyncError>)
    ensures
        fetched.is_err() ==> report == Err::<PullReport, SyncError>(fetched->Err_0),
        fetched.is_ok() && report.is_ok() ==> {
            &&& report->Ok_0.fetched == fetched->Ok_0
            &&& report->Ok_0.outcome.is_merge_of(fetched->Ok_0)
        },
        fetched.is_ok() && report.is_err() ==> {
            ||| report->Err_0 is MergeConflict
            ||| report->Err_0 is MergeFailed
        },
{
    match fetched {
        Ok(id) => {
            match do_merge(repository, branch, id) {
                Ok(outcome) => Ok(PullReport { fetched: id, outcome }),
                Err(e) => Err(e),
            }
        },
        Err(e) => Err(e),
    }
}

/// Pulls `remote_branch` from the remote named `remote_name`: one fetch,
/// then the merge of what was fetched. The report of a pull that succeeded
/// names the fetched commit, and the outcome is a merge of that commit.
pub fn fetch_repository_from_remote(
    remote_name: &str,
    remote_branch: &str,
    repository: &Repository,
) -> (report: Result<PullReport, SyncError>)
    ensures
        report.is_ok() ==> report->Ok_0.outcome.is_merge_of(report->Ok_0.fetched),
{
    let fetched = do_fetch(repository, remote_name, remote_branch);
    merge_fetched(repository, remote_branch, fetched)
}

} // verus!
