//! Joining a local history to a remote one that may share nothing with it.
//!
//! The local commits are replayed one at a time onto the fetched tip. The
//! first replayed commit that conflicts ends the replay: it is given up as a
//! whole, the repository goes back to where it was, and the operation fails.
//! Nothing is resolved automatically here.
use vstd::prelude::*;
use crate::analysis::id_view;
use crate::credentials::KeyDirectory;
use crate::error::{engine_failure, lift, SyncError};
use crate::ids::ObjectId;
use crate::names::{
    branch_ref_name,
    make_fetch_all_refspec,
    tracking_ref_name,
    upstream_name,
    upstream_of,
};
use crate::sync::{checkout_mode, tip_of, CheckoutOccasion};
use crate::text::text_view;
use crate::transport::fetch;
use crate::trusted::git::{
    annotated_commit,
    annotated_id,
    branch_set_upstream,
    checkout_head,
    create_branch,
    find_branch,
    find_commit,
    find_reference,
    index_has_conflicts,
    rebase_abort,
    rebase_commit,
    rebase_finish,
    rebase_len,
    rebase_next,
    reference_shorthand,
    repo_head,
    repo_index,
    repo_signature,
    set_head,
    start_rebase,
};

verus! {

/// What follows a replayed commit.
#[derive(Debug, Clone, Copy, PartialEq, Eq, Structural)]
pub enum ReplayDecision {
    /// Record the commit and go on.
    Record,
    /// Give the whole replay up and fail.
    AbortAndFail,
}

/// Whose name a replayed commit carries as its author.
#[derive(Debug, Clone, Copy, PartialEq, Eq, Structural)]
pub enum ReplayAuthor {
    /// The author of the commit that is replayed.
    Original,
    /// The identity that records the replayed commit.
    Committer,
}

/// How the local branch is to be brought onto the remote one.
#[derive(Debug, Clone, Copy, PartialEq, Eq, Structural)]
pub enum AlignmentPlan {
    /// Create the branch at the remote tip and check it out.
    Initialize,
    /// Nothing: the two tips are the same commit.
    Keep,
    /// Replay the local commits onto the remote tip.
    Replay,
}

/// How the local branch was brought onto the remote one.
#[derive(Debug, Clone, Copy, PartialEq, Eq, Structural)]
pub enum Alignment {
    /// There was no local history: the branch was created at the remote tip.
    Initialized,
    /// Local and remote tip were the same commit.
    AlreadyAligned,
    /// This many local commits were replayed onto the remote tip.
    Replayed(usize),
}

/// What a reconciliation did.
#[derive(Debug, PartialEq, Eq)]
pub enum ReconcileOutcome {
    /// The remote has no branch of the local branch's name.
    RemoteEmpty { branch: String },
    /// The local branch now builds on the remote one and tracks it.
    Tracking {
        /// The local branch.
        branch: String,
        /// The remote branch it tracks.
        upstream: String,
        /// The commit HEAD pointed at before, if it pointed at one.
        local: Option<ObjectId>,
        /// The tip of the remote branch.
        remote: ObjectId,
        /// What was done to align the two.
        alignment: Alignment,
    },
}

/// The plan behind an alignment.
pub open spec fn plan_behind(alignment: Alignment) -> AlignmentPlan {
    match alignment {
        Alignment::Initialized => AlignmentPlan::Initialize,
        Alignment::AlreadyAligned => AlignmentPlan::Keep,
        Alignment::Replayed(_) => AlignmentPlan::Replay,
    }
}

/// How a local tip is brought onto a remote tip: without local history the
/// branch starts at the remote tip; the same commit on both sides needs
/// nothing; anything else is replayed.
pub open spec fn alignment_for(local: Option<Seq<u8>>, remote: Seq<u8>) -> AlignmentPlan {
    match local {
        None => AlignmentPlan::Initialize,
        Some(l) => if l == remote {
            AlignmentPlan::Keep
        } else {
            AlignmentPlan::Replay
        },
    }
}

/// A conflict ends the replay; anything else is recorded.
pub open spec fn replay_decision(conflicted: bool) -> ReplayDecision {
    if conflicted {
        ReplayDecision::AbortAndFail
    } else {
        ReplayDecision::Record
    }
}

/// The name under which the local branch is reconciled: the branch HEAD is
/// on, `main` where HEAD names none.
pub open spec fn branch_or_main(shorthand: Option<Seq<char>>) -> Seq<char> {
    match shorthand {
        Some(name) => name,
        None => "main"@,
    }
}

/// Decides how the local tip is brought onto the remote tip.
pub fn plan_alignment(local: &Option<ObjectId>, remote: &ObjectId) -> (plan: AlignmentPlan)
    ensures
        plan == alignment_for(id_view(*local), remote@),
{
    match local {
        None => AlignmentPlan::Initialize,
        Some(l) => if l.same(remote) {
            AlignmentPlan::Keep
        } else {
            AlignmentPlan::Replay
        },
    }
}

/// The author of a replayed commit: the one the commit had. Only the
/// committer is the identity of the operation that replays it.
pub fn replayed_author() -> (author: ReplayAuthor)
    ensures
        author == ReplayAuthor::Original,
{
    ReplayAuthor::Original
}

/// Decides what follows a replayed commit.
pub fn decide_replay(conflicted: bool) -> (decision: ReplayDecision)
    ensures
        decision == replay_decision(conflicted),
{
    if conflicted {
        ReplayDecision::AbortAndFail
    } else {
        ReplayDecision::Record
    }
}

/// The name under which the local branch is reconciled.
pub fn local_branch_name(shorthand: Option<String>) -> (name: String)
    ensures
        name@ == branch_or_main(text_view(shorthand)),
{
    match shorthand {
        Some(name) => name,
        None => String::from_str("main"),
    }
}

/// Judges a replayed commit: a conflict fails the replay with the number of
/// the step, counted from zero; a clean step passes.
pub fn judge_step(conflicted: bool, step: usize) -> (r: Result<(), SyncError>)
    ensures
        conflicted <==> r == Err::<(), SyncError>(SyncError::Conflict { step }),
        !conflicted <==> r == Ok::<(), SyncError>(()),
{
    match decide_replay(conflicted) {
        ReplayDecision::AbortAndFail => Err(SyncError::Conflict { step }),
        ReplayDecision::Record => Ok(()),
    }
}

/// The failure of a replay that was given up for `cause`: the cause itself
/// where the replay could be undone, and the failure to undo it where not.
pub fn after_abort(cause: SyncError, aborted: Result<(), SyncError>) -> (e: SyncError)
    ensures
        aborted is Ok ==> e == cause,
        aborted matches Err(failure) ==> e == failure,
{
    match aborted {
        Ok(()) => cause,
        Err(failure) => failure,
    }
}

/// Applies the commits of a replay in turn and finishes it. Stops at the
/// first step that fails or that [`judge_step`] fails, and leaves the replay
/// as it is then.
fn replay_steps(repo: &git2::Repository, rebase: &mut git2::Rebase<'_>) -> (r: Result<
    usize,
    SyncError,
>)
    ensures
        r matches Err(e) ==> e is Engine || e is Conflict,
{
    let total = rebase_len(rebase);
    let mut done: usize = 0;
    while done < total
        invariant
            done <= total,
        decreases total - done,
    {
        match rebase_next(rebase) {
            None => {
                break ;
            },
            Some(Err(e)) => {
                return Err(engine_failure(&e));
            },
            Some(Ok(())) => {},
        }
        let index = lift(repo_index(repo))?;
        judge_step(index_has_conflicts(&index), done)?;
        let committer = lift(repo_signature(repo))?;
        lift(rebase_commit(rebase, replayed_author(), &committer))?;
        done += 1;
    }
    lift(rebase_finish(rebase))?;
    Ok(done)
}

/// Replays the commits of the current branch that `upstream` lacks onto it.
///
/// As many commits as the engine announces are applied in turn. After each
/// one the index is looked at: by [`judge_step`] a conflict fails the replay
/// with the number of the step, and a clean step is recorded with the author
/// [`replayed_author`] names and the configured committer. When all are
/// recorded the replay is finished. Returns how many commits were recorded.
///
/// Whatever fails once the replay has begun, a conflict or a step of the
/// engine, the replay is aborted before the failure is returned, so that none
/// is left in progress; the failure is then the one [`after_abort`] gives.
pub fn replay(repo: &git2::Repository, upstream: &git2::AnnotatedCommit<'_>) -> (r: Result<
    usize,
    SyncError,
>)
    ensures
        r matches Err(e) ==> e is Engine || e is Conflict,
{
    let mut rebase = lift(start_rebase(repo, upstream))?;
    match replay_steps(repo, &mut rebase) {
        Ok(recorded) => Ok(recorded),
        Err(cause) => Err(after_abort(cause, lift(rebase_abort(&mut rebase)))),
    }
}

/// Brings the local branch onto the remote branch of the same name and makes
/// it track that branch.
///
/// All branches of the remote are fetched into its remote-tracking
/// references. Where the remote has no branch of the local name, nothing else
/// is done. Otherwise the local branch is aligned as [`alignment_for`] says
/// for the commit HEAD points at: created at the remote tip and checked out,
/// left alone, or replayed by [`replay`]. In the end the local branch tracks
/// the remote one.
pub fn sync_unrelated_histories(repo: &git2::Repository, remote_name: &str, keys: &KeyDirectory) -> (r:
    Result<ReconcileOutcome, SyncError>)
    ensures
        r matches Ok(ReconcileOutcome::Tracking { branch, upstream, local, remote, alignment })
            ==> upstream@ == upstream_of(remote_name@, branch@) && plan_behind(alignment)
            == alignment_for(id_view(local), remote@),
        r matches Err(e) ==> (e is Engine || e is Auth || e is Transport || e is Conflict),
{
    let refspec = make_fetch_all_refspec(remote_name);
    fetch(repo, remote_name, refspec.as_str(), keys)?;
    let shorthand = match repo_head(repo) {
        Ok(head) => reference_shorthand(&head),
        Err(_) => None,
    };
    let branch = local_branch_name(shorthand);
    let remote_ref_name = tracking_ref_name(remote_name, branch.as_str());
    let remote_ref = match find_reference(repo, remote_ref_name.as_str()) {
        Ok(reference) => reference,
        Err(_) => {
            return Ok(ReconcileOutcome::RemoteEmpty { branch });
        },
    };
    let upstream_commit = lift(annotated_commit(repo, &remote_ref))?;
    let remote = annotated_id(&upstream_commit);
    let remote_commit = lift(find_commit(repo, &remote))?;
    let local = match repo_head(repo) {
        Ok(head) => Some(tip_of(repo, &head)?),
        Err(_) => None,
    };
    let alignment = match plan_alignment(&local, &remote) {
        AlignmentPlan::Initialize => {
            let created = lift(create_branch(repo, branch.as_str(), &remote_commit))?;
            let refname = branch_ref_name(branch.as_str());
            lift(set_head(repo, refname.as_str()))?;
            lift(checkout_head(repo, checkout_mode(CheckoutOccasion::FirstLink)))?;
            Alignment::Initialized
        },
        AlignmentPlan::Keep => Alignment::AlreadyAligned,
        AlignmentPlan::Replay => Alignment::Replayed(replay(repo, &upstream_commit)?),
    };
    let mut local_branch = lift(find_branch(repo, branch.as_str(), false))?;
    let upstream = upstream_name(remote_name, branch.as_str());
    lift(branch_set_upstream(&mut local_branch, upstream.as_str()))?;
    Ok(ReconcileOutcome::Tracking { branch, upstream, local, remote, alignment })
}

} // verus!
