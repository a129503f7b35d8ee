//! The credential resolver: what to answer when a remote asks for
//! authentication material.
//!
//! Only key-pair authentication is offered. The decision is made on plain
//! values; the home directory is looked up only after the decision fell on
//! a key, and the key file itself is never read here.

use vstd::prelude::*;
use vstd::string::*;
use git2::Cred;
use std::path::PathBuf;
use crate::engine::{
    engine_error, home_directory, path_join, path_joined, ssh_key_credential,
};
use crate::error::CredentialError;

verus! {

/// The bit by which the engine marks key-pair authentication in a set of
/// mechanisms.
pub const SSH_KEY_MECHANISM: u32 = 2;

/// The set of authentication mechanisms that a remote accepts, as the bit
/// set that the engine reports.
#[derive(Clone, Copy, Debug)]
pub struct AcceptedMechanisms {
    pub bits: u32,
}

impl AcceptedMechanisms {
    /// Whether key-pair authentication is in the set.
    pub open spec fn spec_allows_ssh_key(&self) -> bool {
        self.bits & SSH_KEY_MECHANISM != 0
    }

    /// Whether key-pair authentication is in the set.
    #[verifier::when_used_as_spec(spec_allows_ssh_key)]
    pub fn allows_ssh_key(&self) -> (allowed: bool)
        ensures
            allowed == self.spec_allows_ssh_key(),
    {
        self.bits & SSH_KEY_MECHANISM != 0
    }
}

/// A decision for key-pair authentication: who authenticates, and where the
/// private key lies below the home directory.
#[derive(Debug)]
pub struct KeyRequest {
    pub username: String,
    pub key_directory: String,
    pub key_file: String,
}

/// The directory below the home directory that holds the default key.
pub open spec fn default_key_directory() -> Seq<char> {
    seq!['.', 's', 's', 'h']
}

/// The file name of the default private key.
pub open spec fn default_key_file() -> Seq<char> {
    seq!['i', 'd', '_', 'r', 's', 'a']
}

/// Decides how to authenticate against `url`.
///
/// Without key-pair authentication among the accepted mechanisms the answer
/// is `AuthUnavailable`, whatever the username; with it and without a
/// username, `NoUsername`; otherwise a request for the default private key
/// of that user.
pub fn resolve_credentials(
    url: &str,
    candidate_username: Option<&str>,
    accepted: AcceptedMechanisms,
) -> (decision: Result<KeyRequest, CredentialError>)
    ensures
        !accepted.allows_ssh_key() <==> decision == Err::<KeyRequest, CredentialError>(
            CredentialError::AuthUnavailable,
        ),
        accepted.allows_ssh_key() && candidate_username.is_none() <==> decision == Err::<
            KeyRequest,
            CredentialError,
        >(CredentialError::NoUsername),
        accepted.allows_ssh_key() && candidate_username.is_some() <==> decision.is_ok(),
        decision.is_ok() ==> {
            &&& decision->Ok_0.username@ == candidate_username->Some_0@
            &&& decision->Ok_0.key_directory@ == default_key_directory()
            &&& decision->Ok_0.key_file@ == default_key_file()
        },
{
    if !accepted.allows_ssh_key() {
        return Err(CredentialError::AuthUnavailable);
    }
    match candidate_username {
        None => Err(CredentialError::NoUsername),
        Some(user) => {
            proof {
                reveal_strlit(".ssh");
                reveal_strlit("id_rsa");
                assert(".ssh"@ =~= default_key_directory());
                assert("id_rsa"@ =~= default_key_file());
            }
            Ok(
                KeyRequest {
                    username: String::from_str(user),
                    key_directory: String::from_str(".ssh"),
                    key_file: String::from_str("id_rsa"),
                },
            )
        },
    }
}

/// What the engine is told when the resolver declines.
pub open spec fn spec_failure_text(error: CredentialError) -> Seq<char> {
    match error {
        CredentialError::AuthUnavailable => "no credential option available"@,
        CredentialError::NoUsername => "no username to authenticate as"@,
    }
}

/// The message for a failure of the resolver.
pub fn failure_text(error: CredentialError) -> (text: &'static str)
    ensures
        text@ == spec_failure_text(error),
{
    match error {
        CredentialError::AuthUnavailable => "no credential option available",
        CredentialError::NoUsername => "no username to authenticate as",
    }
}

/// Where the private key of a request lies, for a lookup of the home
/// directory: the key file in the key directory below that home; nowhere
/// without a home directory.
pub fn private_key_location(home: Option<PathBuf>, request: &KeyRequest) -> (location: Option<
    PathBuf,
>)
    ensures
        location.is_some() == home.is_some(),
        home.is_some() ==> location == Some(
            path_joined(
                path_joined(home->Some_0, request.key_directory@),
                request.key_file@,
            ),
        ),
{
    match home {
        Some(home) => {
            let directory = path_join(&home, request.key_directory.as_str());
            Some(path_join(&directory, request.key_file.as_str()))
        },
        None => None,
    }
}

/// Answers the engine's request for credentials: a key credential for the
/// default private key of the user, or an error where the resolver declines
/// or no home directory is known.
pub fn git_credentials_callback(
    url: &str,
    user_from_url: Option<&str>,
    cred_types_allowed: AcceptedMechanisms,
) -> (credential: Result<Cred, git2::Error>)
    ensures
        !cred_types_allowed.allows_ssh_key() || user_from_url.is_none() ==> credential.is_err(),
{
    match resolve_credentials(url, user_from_url, cred_types_allowed) {
        Ok(request) => {
            match private_key_location(home_directory(), &request) {
                Some(private_key) => ssh_key_credential(request.username.as_str(), &private_key),
                None => Err(engine_error("no home directory to look for a key in")),
            }
        },
        Err(declined) => Err(engine_error(failure_text(declined))),
    }
}

} // verus!
