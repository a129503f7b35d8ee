use repo_sync::credentials::{
    failure_text, private_key_location, resolve_credentials, AcceptedMechanisms, SSH_KEY_MECHANISM,
};
use repo_sync::error::{CredentialError, SyncError};
use repo_sync::git_credentials_callback;
use repo_sync::merge::{classify_merge, commit_allowed, merge_kind_from, MergeKind};
use std::path::PathBuf;

const URL: &str = "ssh://git@example.com/project.git";

#[test]
fn key_mechanism_bit_is_the_engines() {
    assert_eq!(SSH_KEY_MECHANISM, git2::CredentialType::SSH_KEY.bits());
}

#[test]
fn allows_ssh_key_reads_the_bit() {
    assert!(AcceptedMechanisms { bits: 2 }.allows_ssh_key());
    assert!(AcceptedMechanisms { bits: 7 }.allows_ssh_key());
    assert!(!AcceptedMechanisms { bits: 0 }.allows_ssh_key());
    assert!(!AcceptedMechanisms { bits: 1 | 4 | 8 | 16 | 32 }.allows_ssh_key());
}

#[test]
fn no_key_mechanism_is_auth_unavailable() {
    let accepted = AcceptedMechanisms { bits: git2::CredentialType::USER_PASS_PLAINTEXT.bits() };
    let decision = resolve_credentials(URL, Some("git"), accepted);
    assert!(matches!(decision, Err(CredentialError::AuthUnavailable)));
}

#[test]
fn no_key_mechanism_is_auth_unavailable_without_username() {
    let decision = resolve_credentials(URL, None, AcceptedMechanisms { bits: 0 });
    assert!(matches!(decision, Err(CredentialError::AuthUnavailable)));
}

#[test]
fn key_mechanism_without_username_is_no_username() {
    let decision = resolve_credentials(URL, None, AcceptedMechanisms { bits: 2 });
    assert!(matches!(decision, Err(CredentialError::NoUsername)));
}

#[test]
fn key_mechanism_with_username_asks_for_default_key() {
    let accepted = AcceptedMechanisms { bits: git2::CredentialType::all().bits() };
    let request = resolve_credentials(URL, Some("git"), accepted).unwrap();
    assert_eq!(request.username, "git");
    assert_eq!(request.key_directory, ".ssh");
    assert_eq!(request.key_file, "id_rsa");
}

#[test]
fn callback_declines_without_key_mechanism() {
    let accepted = AcceptedMechanisms { bits: 1 };
    assert!(git_credentials_callback(URL, Some("git"), accepted).is_err());
    assert!(git_credentials_callback(URL, None, accepted).is_err());
}

#[test]
fn callback_declines_without_username() {
    assert!(git_credentials_callback(URL, None, AcceptedMechanisms { bits: 2 }).is_err());
}

#[test]
fn callback_builds_key_credential_where_home_is_known() {
    let credential = git_credentials_callback(URL, Some("git"), AcceptedMechanisms { bits: 2 });
    if dirs::home_dir().is_some() {
        assert!(credential.is_ok());
    } else {
        assert!(credential.is_err());
    }
}

#[test]
fn classification_of_single_bits() {
    assert_eq!(classify_merge(git2::MergeAnalysis::ANALYSIS_UP_TO_DATE.bits()), MergeKind::UpToDate);
    assert_eq!(classify_merge(git2::MergeAnalysis::ANALYSIS_FASTFORWARD.bits()), MergeKind::FastForward);
    assert_eq!(classify_merge(git2::MergeAnalysis::ANALYSIS_NORMAL.bits()), MergeKind::Normal);
    assert_eq!(classify_merge(0), MergeKind::UpToDate);
}

#[test]
fn classification_prefers_fast_forward() {
    assert_eq!(classify_merge(1 | 4), MergeKind::FastForward);
    assert_eq!(classify_merge(8 | 4), MergeKind::FastForward);
    assert_eq!(classify_merge(u32::MAX), MergeKind::FastForward);
}

#[test]
fn classification_ignores_other_bits() {
    assert_eq!(classify_merge(8), MergeKind::UpToDate);
    assert_eq!(classify_merge(2 | 1), MergeKind::Normal);
    assert_eq!(classify_merge(u32::MAX - 4), MergeKind::Normal);
    assert_eq!(classify_merge(u32::MAX - 5), MergeKind::UpToDate);
}

#[test]
fn merge_kind_from_analysis() {
    assert!(matches!(merge_kind_from(&Ok(4)), Ok(MergeKind::FastForward)));
    assert!(matches!(merge_kind_from(&Ok(2)), Ok(MergeKind::UpToDate)));
    let failed = Err(git2::Error::from_str("locked"));
    assert!(matches!(merge_kind_from(&failed), Err(SyncError::MergeFailed)));
}

#[test]
fn commit_allowed_only_without_conflicts() {
    assert!(matches!(commit_allowed(false), Ok(())));
    assert!(matches!(commit_allowed(true), Err(SyncError::MergeConflict)));
}

#[test]
fn private_key_lies_below_the_home_directory() {
    let request = resolve_credentials(URL, Some("git"), AcceptedMechanisms { bits: 2 }).unwrap();
    let location = private_key_location(Some(PathBuf::from("/home/git")), &request);
    assert_eq!(location, Some(PathBuf::from("/home/git/.ssh/id_rsa")));
}

#[test]
fn no_home_directory_gives_no_key_location() {
    let request = resolve_credentials(URL, Some("git"), AcceptedMechanisms { bits: 2 }).unwrap();
    assert_eq!(private_key_location(None, &request), None);
}

#[test]
fn each_failure_has_its_own_text() {
    assert_eq!(failure_text(CredentialError::AuthUnavailable), "no credential option available");
    assert_eq!(failure_text(CredentialError::NoUsername), "no username to authenticate as");
}

#[test]
fn callback_reports_the_failure_of_the_resolver() {
    let no_key = git_credentials_callback(URL, Some("git"), AcceptedMechanisms { bits: 1 });
    match no_key {
        Err(e) => assert_eq!(e.message(), "no credential option available"),
        Ok(_) => panic!("a credential without a key mechanism"),
    }
    let no_user = git_credentials_callback(URL, None, AcceptedMechanisms { bits: 2 });
    match no_user {
        Err(e) => assert_eq!(e.message(), "no username to authenticate as"),
        Ok(_) => panic!("a credential without a username"),
    }
}
