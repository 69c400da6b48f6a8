//! The names and messages the library hands to the engine.
use vstd::prelude::*;
use crate::ids::{hex_of, ObjectId};

verus! {

/// The full name of a local branch.
pub open spec fn branch_ref(branch: Seq<char>) -> Seq<char> {
    "refs/heads/"@ + branch
}

/// The full name of the remote-tracking reference of a branch.
pub open spec fn tracking_ref(remote: Seq<char>, branch: Seq<char>) -> Seq<char> {
    "refs/remotes/"@ + remote + "/"@ + branch
}

/// The short name of a remote branch, as upstream settings use it.
pub open spec fn upstream_of(remote: Seq<char>, branch: Seq<char>) -> Seq<char> {
    remote + "/"@ + branch
}

/// The refspec that pushes a branch to the branch of the same name. A
/// leading `+` lets the remote branch be overwritten.
pub open spec fn push_refspec(branch: Seq<char>, force: bool) -> Seq<char> {
    (if force {
        "+"@
    } else {
        Seq::<char>::empty()
    }) + branch_ref(branch) + ":"@ + branch_ref(branch)
}

/// The refspec that fetches every branch of a remote into its remote-tracking references.
pub open spec fn fetch_all_refspec(remote: Seq<char>) -> Seq<char> {
    "refs/heads/*:refs/remotes/"@ + remote + "/*"@
}

/// The message of a merge commit.
pub open spec fn merge_message(remote: Seq<char>, branch: Seq<char>) -> Seq<char> {
    "Merge remote-tracking branch '"@ + remote + "/"@ + branch + "' into "@ + branch
}

/// The reflog entry of a fast-forward.
pub open spec fn fast_forward_log(refname: Seq<char>, target: Seq<u8>) -> Seq<char> {
    "Fast-Forward: Setting "@ + refname + " to id: "@ + hex_of(target)
}

/// The full name of a local branch.
pub fn branch_ref_name(branch: &str) -> (name: String)
    ensures
        name@ == branch_ref(branch@),
{
    let mut name = String::from_str("refs/heads/");
    name.append(branch);
    name
}

/// The full name of the remote-tracking reference of a branch.
pub fn tracking_ref_name(remote: &str, branch: &str) -> (name: String)
    ensures
        name@ == tracking_ref(remote@, branch@),
{
    let mut name = String::from_str("refs/remotes/");
    name.append(remote);
    name.append("/");
    name.append(branch);
    name
}

/// The short name of a remote branch.
pub fn upstream_name(remote: &str, branch: &str) -> (name: String)
    ensures
        name@ == upstream_of(remote@, branch@),
{
    let mut name = String::from_str(remote);
    name.append("/");
    name.append(branch);
    name
}

/// The refspec that pushes a branch to the branch of the same name.
pub fn make_push_refspec(branch: &str, force: bool) -> (refspec: String)
    ensures
        refspec@ == push_refspec(branch@, force),
{
    let mut refspec = String::new();
    if force {
        refspec.append("+");
    }
    let name = branch_ref_name(branch);
    refspec.append(name.as_str());
    refspec.append(":");
    refspec.append(name.as_str());
    assert(refspec@ =~= push_refspec(branch@, force));
    refspec
}

/// The refspec that fetches every branch of a remote.
pub fn make_fetch_all_refspec(remote: &str) -> (refspec: String)
    ensures
        refspec@ == fetch_all_refspec(remote@),
{
    let mut refspec = String::from_str("refs/heads/*:refs/remotes/");
    refspec.append(remote);
    refspec.append("/*");
    refspec
}

/// The message of a merge commit.
pub fn make_merge_message(remote: &str, branch: &str) -> (message: String)
    ensures
        message@ == merge_message(remote@, branch@),
{
    let mut message = String::from_str("Merge remote-tracking branch '");
    message.append(remote);
    message.append("/");
    message.append(branch);
    message.append("' into ");
    message.append(branch);
    message
}

/// The reflog entry of a fast-forward.
pub fn make_fast_forward_log(refname: &str, target: &ObjectId) -> (log: String)
    ensures
        log@ == fast_forward_log(refname@, target@),
{
    let mut log = String::from_str("Fast-Forward: Setting ");
    log.append(refname);
    log.append(" to id: ");
    let hex = target.to_hex();
    log.append(hex.as_str());
    log
}

} // verus!
