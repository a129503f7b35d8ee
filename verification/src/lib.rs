//! Synchronization-and-status core of a terminal git client.
//!
//! The crate answers the questions a status screen asks of a repository
//! (tags, branches, active branch, number of changed files) and carries out a
//! pull: a fetch from a named remote followed by a merge of what was fetched.
//! Every decision is verified; the version-control engine itself is reached
//! through the small trusted layer in [`engine`].

pub mod accessor;
pub mod credentials;
pub mod engine;
pub mod error;
pub mod merge;
pub mod pull;
pub mod refname;

pub use accessor::{
    get_files_changed, get_repository, get_repository_active_branch, get_repository_branches,
    get_repository_tags, is_repository,
};
pub use credentials::git_credentials_callback;
pub use pull::fetch_repository_from_remote;
