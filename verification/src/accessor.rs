//! Read-only summaries of a repository for a status display.
//!
//! An absent repository is never an error here: it gives the empty answer.

use vstd::prelude::*;
use vstd::string::*;
use git2::Repository;
use std::path::PathBuf;
use git2::BranchType;
use crate::engine::{
    diff_files_changed, diff_index_to_workdir, list_branch_names, open_repository,
    path_from_text, path_text, reference_name, repository_head, tag_names,
};
use crate::error::AccessError;
use crate::refname::{bare_branch_name, spec_bare_branch_name};

verus! {

/// The texts of a sequence of strings.
pub open spec fn texts(names: Seq<String>) -> Seq<Seq<char>> {
    names.map_values(|name: String| name@)
}

/// The entries of a listing that are text, in the order of the listing.
pub open spec fn present_names(entries: Seq<Option<String>>) -> Seq<Seq<char>>
    decreases entries.len(),
{
    if entries.len() == 0 {
        Seq::empty()
    } else {
        let earlier = present_names(entries.drop_last());
        match entries.last() {
            Some(name) => earlier.push(name@),
            None => earlier,
        }
    }
}

/// Whether every entry of a branch listing was read and is text.
pub open spec fn all_named(entries: Seq<Result<Option<String>, git2::Error>>) -> bool {
    forall|i: int| 0 <= i < entries.len() ==> (#[trigger] entries[i]) matches Ok(Some(_))
}

/// The names of a branch listing in which every entry is text.
pub open spec fn branch_names(entries: Seq<Result<Option<String>, git2::Error>>) -> Seq<
    Seq<char>,
> {
    Seq::new(entries.len(), |i: int| entries[i]->Ok_0->Some_0@)
}

/// The handle for an attempt to open a repository: the repository where the
/// attempt succeeded, absence for every failure.
pub fn repository_from(opened: Result<Repository, git2::Error>) -> (handle: Option<Repository>)
    ensures
        handle.is_some() == opened.is_ok(),
        opened.is_ok() ==> handle == Some(opened->Ok_0),
{
    match opened {
        Ok(repository) => Some(repository),
        Err(_) => None,
    }
}

/// Whether `path` designates a repository that can be opened. A path with
/// a NUL in its text designates none; for every other path the answer is
/// that of the engine for what is on disk now.
pub fn is_repository(path: PathBuf) -> (valid: bool)
    ensures
        path_text(path).contains('\0') ==> !valid,
{
    repository_from(open_repository(&path)).is_some()
}

/// Opens the repository at `path`; any failure gives `None`. A path with a
/// NUL in it is never opened.
pub fn get_repository(path: &String) -> (handle: Option<Repository>)
    ensures
        path@.contains('\0') ==> handle.is_none(),
{
    let location = path_from_text(path.as_str());
    repository_from(open_repository(&location))
}

/// The tag names of a listing: every entry that is text, in the listing's
/// order; none where the listing failed.
pub fn collect_tag_names(listing: &Result<Vec<Option<String>>, git2::Error>) -> (tags: Vec<String>)
    ensures
        listing.is_err() ==> tags@.len() == 0,
        listing.is_ok() ==> texts(tags@) == present_names(listing->Ok_0@),
{
    let mut tags: Vec<String> = Vec::new();
    match listing {
        Ok(entries) => {
            assert(texts(tags@) =~= present_names(entries@.take(0)));
            let mut i: usize = 0;
            while i < entries.len()
                invariant
                    i <= entries.len(),
                    texts(tags@) == present_names(entries@.take(i as int)),
                decreases entries.len() - i,
            {
                proof {
                    assert(entries@.take(i + 1).drop_last() =~= entries@.take(i as int));
                    assert(entries@.take(i + 1).last() == entries@[i as int]);
                }
                let ghost before = tags@;
                match &entries[i] {
                    Some(name) => {
                        tags.push(name.clone());
                        assert(texts(tags@) =~= texts(before).push(name@));
                    },
                    None => {},
                }
                i += 1;
            }
            assert(entries@.take(i as int) =~= entries@);
        },
        Err(_) => {},
    }
    tags
}

/// Every tag name of the repository, in the engine's order; empty for an
/// absent repository.
pub fn get_repository_tags(repository: &Option<Repository>) -> (tags: Vec<String>)
    ensures
        repository.is_none() ==> tags@.len() == 0,
{
    match repository {
        Some(r) => {
            let listing = tag_names(r);
            collect_tag_names(&listing)
        },
        None => Vec::new(),
    }
}

/// The branch names of a listing, in the listing's order. One entry that
/// could not be read, or is not text, fails the whole enumeration.
pub fn collect_branch_names(listing: &Result<Vec<Result<Option<String>, git2::Error>>, git2::Error>)
    -> (branches: Result<Vec<String>, AccessError>)
    ensures
        branches.is_ok() <==> listing.is_ok() && all_named(listing->Ok_0@),
        branches.is_ok() ==> texts(branches->Ok_0@) == branch_names(listing->Ok_0@),
        branches.is_err() ==> branches->Err_0 == AccessError::EnumerationFailed,
{
    match listing {
        Ok(entries) => {
            let mut names: Vec<String> = Vec::new();
            let mut i: usize = 0;
            while i < entries.len()
                invariant
                    i <= entries.len(),
                    names@.len() == i,
                    listing.is_ok() && listing->Ok_0@ == entries@,
                    forall|j: int| 0 <= j < i ==> (#[trigger] entries@[j]) matches Ok(Some(_)),
                    forall|j: int|
                        0 <= j < i ==> (#[trigger] names@[j])@ == entries@[j]->Ok_0->Some_0@,
                decreases entries.len() - i,
            {
                match &entries[i] {
                    Ok(Some(name)) => {
                        names.push(name.clone());
                    },
                    _ => {
                        assert(!(entries@[i as int] matches Ok(Some(_))));
                        return Err(AccessError::EnumerationFailed);
                    },
                }
                i += 1;
            }
            assert(texts(names@) =~= branch_names(entries@));
            Ok(names)
        },
        Err(_) => Err(AccessError::EnumerationFailed),
    }
}

/// Every local branch name of the repository; empty for an absent
/// repository.
pub fn get_repository_branches(repository: &Option<Repository>) -> (branches: Result<
    Vec<String>,
    AccessError,
>)
    ensures
        repository.is_none() ==> branches.is_ok() && branches->Ok_0@.len() == 0,
        branches.is_err() ==> branches->Err_0 == AccessError::EnumerationFailed,
{
    match repository {
        Some(r) => {
            let listing = list_branch_names(r, Some(BranchType::Local));
            collect_branch_names(&listing)
        },
        None => Ok(Vec::new()),
    }
}

/// The branch name for an attempt to read the name of the reference that
/// HEAD resolves to: that name without the branch namespace, so a detached
/// HEAD is surfaced under its own name; `HeadUnresolved` where HEAD did not
/// resolve or its name could not be read.
pub fn active_branch_from(head: &Result<String, git2::Error>) -> (branch: Result<
    String,
    AccessError,
>)
    ensures
        branch.is_ok() == head.is_ok(),
        head.is_ok() ==> branch->Ok_0@ == spec_bare_branch_name(head->Ok_0@),
        head.is_err() ==> branch == Err::<String, AccessError>(AccessError::HeadUnresolved),
{
    match head {
        Ok(name) => Ok(bare_branch_name(name.as_str())),
        Err(_) => Err(AccessError::HeadUnresolved),
    }
}

/// The name of the checked-out branch; the empty string for an absent
/// repository, `HeadUnresolved` where HEAD resolves to nothing, as it does
/// before the first commit.
pub fn get_repository_active_branch(repository: &Option<Repository>) -> (branch: Result<
    String,
    AccessError,
>)
    ensures
        repository.is_none() ==> branch.is_ok() && branch->Ok_0@.len() == 0,
        branch.is_err() ==> branch->Err_0 == AccessError::HeadUnresolved,
{
    match repository {
        Some(r) => {
            let name = match repository_head(r) {
                Ok(head) => reference_name(&head),
                Err(cause) => Err(cause),
            };
            active_branch_from(&name)
        },
        None => Ok(String::new()),
    }
}

/// The count for an attempt to diff and count; `None` where the diff or its
/// statistics could not be computed.
pub fn files_changed_from(diff: &Result<usize, git2::Error>) -> (count: Option<usize>)
    ensures
        count.is_some() == diff.is_ok(),
        diff.is_ok() ==> count == Some(diff->Ok_0),
{
    match diff {
        Ok(n) => Some(*n),
        Err(_) => None,
    }
}

/// The number of files that differ between the index and the working tree;
/// `None` for an absent repository or a diff that cannot be computed.
pub fn get_files_changed(repository: &Option<Repository>) -> (count: Option<usize>)
    ensures
        repository.is_none() ==> count.is_none(),
{
    match repository {
        Some(r) => {
            let counted = match diff_index_to_workdir(r) {
                Ok(diff) => diff_files_changed(&diff),
                Err(cause) => Err(cause),
            };
            files_changed_from(&counted)
        },
        None => None,
    }
}

} // verus!
