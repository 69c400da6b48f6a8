//! Talking to a named remote: every fetch and push goes through here, each
//! with a credential negotiator of its own.
use vstd::prelude::*;
use crate::credentials::{create_callbacks, KeyDirectory};
use crate::error::{lift, lift_transport, Precondition, SyncError};
use crate::names::{make_push_refspec, push_refspec};
use crate::text::same_text;
use crate::trusted::git::{find_remote, install_callbacks, remote_fetch, remote_push};

verus! {

/// What a push did.
#[derive(Debug, PartialEq, Eq)]
pub enum PushOutcome {
    /// The remote is not configured; nothing was pushed.
    NoRemote,
    /// The refspec was pushed.
    Pushed { refspec: String },
}

/// Whether a remote of this name is configured.
pub fn has_remote(repo: &git2::Repository, name: &str) -> (found: bool) {
    find_remote(repo, name).is_ok()
}

/// Fetches `refspec` from the remote.
///
/// The remote is looked up by name and asked for the refspec, with a fresh
/// negotiation from [`create_callbacks`]. A remote that is not configured is
/// the engine's failure; a fetch that fails is an authentication failure
/// where the engine classes it so, and a transport failure otherwise.
pub fn fetch(repo: &git2::Repository, remote_name: &str, refspec: &str, keys: &KeyDirectory) -> (r:
    Result<(), SyncError>)
    ensures
        r matches Err(e) ==> e is Engine || e is Auth || e is Transport,
{
    let mut remote = lift(find_remote(repo, remote_name))?;
    let negotiation = create_callbacks(keys.duplicate());
    lift_transport(remote_fetch(&mut remote, refspec, install_callbacks(negotiation)))
}

/// Pushes `branch` to the branch of the same name on the remote.
///
/// The literal `HEAD` is refused as a branch name, and only it. Without a
/// remote of that name nothing happens. Otherwise the refspec of
/// [`push_refspec`] is pushed; whether the remote takes it is its affair.
pub fn push(
    repo: &git2::Repository,
    remote_name: &str,
    branch: &str,
    force: bool,
    keys: &KeyDirectory,
) -> (r: Result<PushOutcome, SyncError>)
    ensures
        branch@ == "HEAD"@ <==> r == Err::<PushOutcome, SyncError>(
            SyncError::Precondition(Precondition::PushHead),
        ),
        r matches Ok(PushOutcome::Pushed { refspec }) ==> refspec@ == push_refspec(branch@, force),
        r matches Err(e) ==> (e is Engine || e is Auth || e is Transport || e
            == SyncError::Precondition(Precondition::PushHead)),
{
    if same_text(branch, "HEAD") {
        return Err(SyncError::Precondition(Precondition::PushHead));
    }
    if !has_remote(repo, remote_name) {
        return Ok(PushOutcome::NoRemote);
    }
    let mut remote = lift(find_remote(repo, remote_name))?;
    let refspec = make_push_refspec(branch, force);
    let negotiation = create_callbacks(keys.duplicate());
    lift_transport(remote_push(&mut remote, refspec.as_str(), install_callbacks(negotiation)))?;
    Ok(PushOutcome::Pushed { refspec })
}

} // verus!
