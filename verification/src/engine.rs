//! The trusted layer: the version-control engine (`git2`), the home-directory
//! lookup (`dirs`) and the path type of the standard library.
//!
//! Nothing in this file is proved. Each item says which outside function it
//! stands for and what, if anything, is claimed of it. What the engine finds
//! on disk or on the network is never claimed: those functions have no
//! postcondition, and their callers are verified for every outcome. The
//! claims made are about paths: that a path made from a string has that
//! string as its text, that joining is a function of its two arguments, and
//! that no path with a NUL in its text can be opened.

use vstd::prelude::*;
use git2::build::CheckoutBuilder;
use git2::{
    AnnotatedCommit, BranchType, Commit, Cred, Diff, Index, Oid, Reference, Remote, Repository,
    Signature, Tree,
};
use std::path::PathBuf;
use crate::credentials::{git_credentials_callback, AcceptedMechanisms};

verus! {

/// `git2::Repository`, an open repository. Opaque.
#[verifier::external_type_specification]
#[verifier::external_body]
pub struct ExRepository(git2::Repository);

/// `git2::Error`, the engine's error. Opaque.
#[verifier::external_type_specification]
#[verifier::external_body]
pub struct ExEngineError(git2::Error);

/// `git2::Cred`, authentication material for one attempt. Opaque.
#[verifier::external_type_specification]
#[verifier::external_body]
pub struct ExCred(git2::Cred);

/// `git2::Oid`, the identity of an object in the repository. Opaque; two
/// values are told apart only by the engine.
#[verifier::external_type_specification]
#[verifier::external_body]
pub struct ExOid(git2::Oid);

/// `git2::Remote`, a remote resolved by name from a repository. Opaque.
#[verifier::external_type_specification]
#[verifier::external_body]
pub struct ExRemote<'a>(git2::Remote<'a>);

/// `git2::Reference`, a reference looked up in a repository. Opaque.
#[verifier::external_type_specification]
#[verifier::external_body]
pub struct ExReference<'a>(git2::Reference<'a>);

/// `git2::Diff`, a computed set of differences. Opaque.
#[verifier::external_type_specification]
#[verifier::external_body]
pub struct ExDiff<'a>(git2::Diff<'a>);

/// `git2::AnnotatedCommit`, a commit prepared as the input of a merge.
/// Opaque.
#[verifier::external_type_specification]
#[verifier::external_body]
pub struct ExAnnotatedCommit<'a>(git2::AnnotatedCommit<'a>);

/// `git2::Index`, the staging area of a repository. Opaque.
#[verifier::external_type_specification]
#[verifier::external_body]
pub struct ExIndex(git2::Index);

/// `git2::Tree`, a tree object. Opaque.
#[verifier::external_type_specification]
#[verifier::external_body]
pub struct ExTree<'a>(git2::Tree<'a>);

/// `git2::Commit`, a commit object. Opaque.
#[verifier::external_type_specification]
#[verifier::external_body]
pub struct ExCommit<'a>(git2::Commit<'a>);

/// `git2::Signature`, the author or committer of a commit. Opaque.
#[verifier::external_type_specification]
#[verifier::external_body]
pub struct ExSignature<'a>(git2::Signature<'a>);

/// `git2::build::CheckoutBuilder`, the options of a checkout. Opaque.
#[verifier::external_type_specification]
#[verifier::external_body]
pub struct ExCheckoutBuilder<'a>(git2::build::CheckoutBuilder<'a>);

/// `git2::BranchType`, the two kinds of branch, local and remote. Its
/// variants are visible to verified code.
#[verifier::external_type_specification]
pub struct ExBranchType(git2::BranchType);

/// `std::path::PathBuf`, a filesystem path. Opaque.
#[verifier::external_type_specification]
#[verifier::external_body]
pub struct ExPathBuf(std::path::PathBuf);

/// The text of a path: what `Path::to_string_lossy` gives for it.
pub uninterp spec fn path_text(path: PathBuf) -> Seq<char>;

/// `PathBuf::from` on a string: the path that the text spells. Claimed: the
/// text of the path is the string it was made from.
#[verifier::external_body]
pub(crate) fn path_from_text(text: &str) -> (path: PathBuf)
    ensures
        path_text(path) == text@,
{
    PathBuf::from(text)
}

/// The path that `Path::join` gives for a base and one component. The join
/// reads nothing but its two arguments.
pub uninterp spec fn path_joined(base: PathBuf, component: Seq<char>) -> PathBuf;

/// `Path::join`: the path extended by one component. The result is given
/// its name; nothing else is claimed of it.
#[verifier::external_body]
pub(crate) fn path_join(base: &PathBuf, component: &str) -> (path: PathBuf)
    ensures
        path == path_joined(*base, component@),
{
    base.join(component)
}

/// `dirs::home_dir`: the home directory of the current user, where the
/// environment names one. Nothing is claimed of the result.
#[verifier::external_body]
pub(crate) fn home_directory() -> (home: Option<PathBuf>) {
    dirs::home_dir()
}

/// `git2::Repository::open`. The path is turned into a C string before the
/// engine is asked, so a path whose text holds a NUL fails whatever is on
/// disk: that is claimed. For every other path the result depends on what is
/// on disk, and nothing is claimed of it.
#[verifier::external_body]
pub(crate) fn open_repository(path: &PathBuf) -> (opened: Result<Repository, git2::Error>)
    ensures
        path_text(*path).contains('\0') ==> opened.is_err(),
{
    Repository::open(path)
}

/// `git2::Repository::tag_names` without a pattern, each entry handed out as
/// text; an entry that is not text comes out as `None`. Nothing is claimed
/// of the result.
#[verifier::external_body]
pub(crate) fn tag_names(repository: &Repository) -> (listing: Result<
    Vec<Option<String>>,
    git2::Error,
>) {
    let names = repository.tag_names(None)?;
    Ok(names.iter().map(|entry| entry.ok().flatten().map(String::from)).collect())
}

/// `git2::Repository::branches` with the given filter, each entry handed out
/// as the result of `git2::Branch::name`. Nothing is claimed of the result.
#[verifier::external_body]
pub(crate) fn list_branch_names(repository: &Repository, filter: Option<BranchType>) -> (listing:
    Result<Vec<Result<Option<String>, git2::Error>>, git2::Error>) {
    let branches = repository.branches(filter)?;
    Ok(branches.map(|entry| entry.and_then(|(b, _)| b.name().map(|n| n.map(String::from)))).collect())
}

/// `git2::Repository::head`: the reference that HEAD resolves to. Nothing
/// is claimed of the result.
#[verifier::external_body]
pub(crate) fn repository_head<'a>(repository: &'a Repository) -> (head: Result<
    Reference<'a>,
    git2::Error,
>) {
    repository.head()
}

/// `git2::Reference::name`: the full name of a reference, as an owned
/// string; an error where the name is not text. Nothing is claimed of the
/// result.
#[verifier::external_body]
pub(crate) fn reference_name(reference: &Reference<'_>) -> (name: Result<String, git2::Error>) {
    reference.name().map(String::from)
}

/// `git2::Repository::diff_index_to_workdir` on the repository's own index
/// with default options. Nothing is claimed of the result.
#[verifier::external_body]
pub(crate) fn diff_index_to_workdir<'a>(repository: &'a Repository) -> (diff: Result<
    Diff<'a>,
    git2::Error,
>) {
    repository.diff_index_to_workdir(None, None)
}

/// `git2::Diff::stats`, handed out as the `files_changed` of the statistics.
/// Nothing is claimed of the result.
#[verifier::external_body]
pub(crate) fn diff_files_changed(diff: &Diff<'_>) -> (count: Result<usize, git2::Error>) {
    diff.stats().map(|stats| stats.files_changed())
}

/// `git2::Cred::ssh_key` with no public key and no passphrase. The key file
/// is not read here. Nothing is claimed of the result.
#[verifier::external_body]
pub(crate) fn ssh_key_credential(username: &str, private_key: &PathBuf) -> (credential: Result<
    Cred,
    git2::Error,
>) {
    Cred::ssh_key(username, None, private_key, None)
}

/// `git2::Error::from_str`: an engine error with the given message. Nothing
/// is claimed of the result.
#[verifier::external_body]
pub(crate) fn engine_error(message: &str) -> (error: git2::Error) {
    git2::Error::from_str(message)
}

/// `git2::Repository::find_remote`. Nothing is claimed of the result.
#[verifier::external_body]
pub(crate) fn find_remote<'a>(repository: &'a Repository, name: &str) -> (remote: Result<
    Remote<'a>,
    git2::Error,
>) {
    repository.find_remote(name)
}

/// `git2::Remote::fetch` for one branch, with the credential resolver of
/// this library installed as the credentials callback. Nothing is claimed of
/// the result.
#[verifier::external_body]
pub(crate) fn fetch_branch(remote: &mut Remote<'_>, branch: &str) -> (fetched: Result<
    (),
    git2::Error,
>) {
    let mut callbacks = git2::RemoteCallbacks::new();
    callbacks.credentials(|url, user, allowed| {
        git_credentials_callback(url, user, AcceptedMechanisms { bits: allowed.bits() })
    });
    let mut options = git2::FetchOptions::new();
    options.remote_callbacks(callbacks);
    remote.fetch(&[branch], Some(&mut options), None)
}

/// `git2::Repository::refname_to_id`: the object that a reference resolves
/// to. Nothing is claimed of the result.
#[verifier::external_body]
pub(crate) fn resolve_reference(repository: &Repository, name: &str) -> (id: Result<
    Oid,
    git2::Error,
>) {
    repository.refname_to_id(name)
}

/// `git2::Repository::find_annotated_commit`. Nothing is claimed of the
/// result.
#[verifier::external_body]
pub(crate) fn find_annotated_commit<'a>(repository: &'a Repository, id: Oid) -> (commit: Result<
    AnnotatedCommit<'a>,
    git2::Error,
>) {
    repository.find_annotated_commit(id)
}

/// `git2::Repository::merge_analysis` of one commit against HEAD, handed out
/// as the bits of the returned `git2::MergeAnalysis`. Nothing is claimed of
/// the result.
#[verifier::external_body]
pub(crate) fn merge_analysis_bits(repository: &Repository, theirs: &AnnotatedCommit<'_>) -> (bits:
    Result<u32, git2::Error>) {
    repository.merge_analysis(&[theirs]).map(|(analysis, _)| analysis.bits())
}

/// `git2::Repository::reference`: creates the named reference pointing at
/// the object; with `force` an existing one is overwritten. Nothing is
/// claimed of the result.
#[verifier::external_body]
pub(crate) fn point_reference_at(
    repository: &Repository,
    name: &str,
    target: Oid,
    force: bool,
    log_message: &str,
) -> (done: Result<(), git2::Error>) {
    repository.reference(name, target, force, log_message).map(|_| ())
}

/// `git2::Repository::set_head`. Nothing is claimed of the result.
#[verifier::external_body]
pub(crate) fn set_head(repository: &Repository, name: &str) -> (done: Result<(), git2::Error>) {
    repository.set_head(name)
}

/// `git2::build::CheckoutBuilder::new`: the options of a checkout, all at
/// their defaults. Nothing is claimed of the result.
#[verifier::external_body]
pub(crate) fn checkout_options() -> (options: CheckoutBuilder<'static>) {
    CheckoutBuilder::new()
}

/// `git2::build::CheckoutBuilder::force`: asks for a checkout that makes the
/// working tree match its target, discarding what is in the way. Nothing is
/// claimed of the options afterwards.
#[verifier::external_body]
pub(crate) fn force_checkout(options: &mut CheckoutBuilder<'_>) {
    options.force();
}

/// `git2::Repository::checkout_head` with the given options. Nothing is
/// claimed of the result.
#[verifier::external_body]
pub(crate) fn checkout_head(repository: &Repository, options: &mut CheckoutBuilder<'_>) -> (done:
    Result<(), git2::Error>) {
    repository.checkout_head(Some(options))
}

/// `git2::Repository::merge` of one commit into HEAD with default options:
/// the three-way merge is written to the index and the working tree, and the
/// repository is left in its merging state. Nothing is claimed of the
/// result.
#[verifier::external_body]
pub(crate) fn merge_into_worktree(repository: &Repository, theirs: &AnnotatedCommit<'_>) -> (done:
    Result<(), git2::Error>) {
    repository.merge(&[theirs], None, None)
}

/// `git2::Repository::index`. Nothing is claimed of the result.
#[verifier::external_body]
pub(crate) fn repository_index(repository: &Repository) -> (index: Result<Index, git2::Error>) {
    repository.index()
}

/// `git2::Index::has_conflicts`. Nothing is claimed of the result.
#[verifier::external_body]
pub(crate) fn index_has_conflicts(index: &Index) -> (conflicts: bool) {
    index.has_conflicts()
}

/// `git2::Index::write_tree`: the index written out as a tree of the
/// repository. Nothing is claimed of the result or of the index afterwards.
#[verifier::external_body]
pub(crate) fn write_index_tree(index: &mut Index) -> (tree: Result<Oid, git2::Error>) {
    index.write_tree()
}

/// `git2::Repository::find_tree`. Nothing is claimed of the result.
#[verifier::external_body]
pub(crate) fn find_tree<'a>(repository: &'a Repository, id: Oid) -> (tree: Result<
    Tree<'a>,
    git2::Error,
>) {
    repository.find_tree(id)
}

/// `git2::Repository::find_commit`. Nothing is claimed of the result.
#[verifier::external_body]
pub(crate) fn find_commit<'a>(repository: &'a Repository, id: Oid) -> (commit: Result<
    Commit<'a>,
    git2::Error,
>) {
    repository.find_commit(id)
}

/// `git2::Repository::signature`: the signature that the repository's
/// configuration gives for now. Nothing is claimed of the result.
#[verifier::external_body]
pub(crate) fn default_signature(repository: &Repository) -> (signature: Result<
    Signature<'static>,
    git2::Error,
>) {
    repository.signature()
}

/// `git2::Repository::commit` that updates the named reference, with one
/// signature as author and committer and with two parents in the order
/// given. Nothing is claimed of the result.
#[verifier::external_body]
pub(crate) fn commit_with_parents(
    repository: &Repository,
    update_ref: &str,
    signature: &Signature<'_>,
    message: &str,
    tree: &Tree<'_>,
    first_parent: &Commit<'_>,
    second_parent: &Commit<'_>,
) -> (commit: Result<Oid, git2::Error>) {
    repository.commit(Some(update_ref), signature, signature, message, tree, &[first_parent, second_parent])
}

/// `git2::Repository::cleanup_state`: ends the merging state. Nothing is
/// claimed of the result.
#[verifier::external_body]
pub(crate) fn cleanup_state(repository: &Repository) -> (done: Result<(), git2::Error>) {
    repository.cleanup_state()
}

} // verus!
