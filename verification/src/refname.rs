//! Reference names: the namespace under which local branches live.

use vstd::prelude::*;
use vstd::string::*;

verus! {

/// The namespace prefix of every local branch reference, `refs/heads/`.
pub open spec fn heads_prefix() -> Seq<char> {
    seq!['r', 'e', 'f', 's', '/', 'h', 'e', 'a', 'd', 's', '/']
}

/// The name shown for a reference: the full name without the leading branch
/// namespace, or the full name itself where it lies outside that namespace.
pub open spec fn spec_bare_branch_name(full: Seq<char>) -> Seq<char> {
    if heads_prefix().is_prefix_of(full) {
        full.skip(heads_prefix().len() as int)
    } else {
        full
    }
}

/// The full reference name of a local branch.
pub open spec fn spec_branch_ref(branch: Seq<char>) -> Seq<char> {
    heads_prefix() + branch
}

/// The branch namespace prefix as a string.
pub fn heads_prefix_str() -> (prefix: &'static str)
    ensures
        prefix@ == heads_prefix(),
{
    let prefix = "refs/heads/";
    proof {
        reveal_strlit("refs/heads/");
        assert(prefix@ =~= heads_prefix());
    }
    prefix
}

/// Strips the branch namespace from a full reference name.
pub fn bare_branch_name(full: &str) -> (bare: String)
    ensures
        bare@ == spec_bare_branch_name(full@),
{
    let prefix = heads_prefix_str();
    let n: usize = full.unicode_len();
    let k: usize = prefix.unicode_len();
    if n < k {
        return String::from_str(full);
    }
    let mut i: usize = 0;
    while i < k
        invariant
            i <= k <= n,
            prefix@ == heads_prefix(),
            k == prefix@.len(),
            n == full@.len(),
            forall|j: int| 0 <= j < i ==> full@[j] == prefix@[j],
        decreases k - i,
    {
        if full.get_char(i) != prefix.get_char(i) {
            proof {
                let head = full@.subrange(0, k as int);
                assert(head[i as int] != heads_prefix()[i as int]);
            }
            return String::from_str(full);
        }
        i += 1;
    }
    proof {
        assert(full@.subrange(0, k as int) =~= heads_prefix());
    }
    String::from_str(full.substring_char(k, n))
}

/// Builds the full reference name of a local branch.
pub fn branch_ref(branch: &str) -> (full: String)
    ensures
        full@ == spec_branch_ref(branch@),
{
    String::from_str(heads_prefix_str()).concat(branch)
}

/// Stripping the namespace from the full reference name of a branch gives
/// the branch name back, whatever the name is.
pub proof fn lemma_bare_name_of_branch_ref(branch: Seq<char>)
    ensures
        spec_bare_branch_name(spec_branch_ref(branch)) == branch,
{
    let full = spec_branch_ref(branch);
    assert(full.subrange(0, heads_prefix().len() as int) =~= heads_prefix());
    assert(full.skip(heads_prefix().len() as int) =~= branch);
}

/// A name outside the branch namespace is surfaced unchanged.
pub proof fn lemma_bare_name_outside_namespace(full: Seq<char>)
    requires
        !heads_prefix().is_prefix_of(full),
    ensures
        spec_bare_branch_name(full) == full,
{
}

} // verus!
