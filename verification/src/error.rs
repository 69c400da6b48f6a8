//! Failures of the synchronisation operations.
use vstd::prelude::*;
use crate::conflicts::FileWrite;
use crate::text::{decimal, to_decimal};
use crate::trusted::git::{error_kind, error_message};

verus! {

/// How the engine classed a failure, as far as the library tells failures apart.
#[derive(Debug, Clone, Copy, PartialEq, Eq, Structural)]
pub enum FailureKind {
    /// The requested object or reference does not exist.
    NotFound,
    /// Authentication with the remote failed.
    Auth,
    /// Any other failure.
    Other,
}

/// A failure of the engine as plain values.
#[derive(Debug, PartialEq, Eq)]
pub struct EngineFailure {
    /// How the engine classed the failure.
    pub kind: FailureKind,
    /// The engine's text for it.
    pub message: String,
}

/// A condition the caller has to establish before an operation can run.
#[derive(Debug, Clone, Copy, PartialEq, Eq, Structural)]
pub enum Precondition {
    /// The branch to push was given as the literal `HEAD`.
    PushHead,
    /// Amending was asked for, but there is no commit to amend.
    NothingToAmend,
    /// The repository has no working directory.
    NoWorkdir,
    /// HEAD does not resolve to a name.
    NotOnBranch,
    /// The two histories share no commit.
    NoCommonAncestor,
    /// The working tree has uncommitted or untracked changes.
    DirtyTree,
    /// The full name of a branch cannot be read.
    UnreadableBranchName,
}

/// Why an operation failed.
#[derive(Debug, PartialEq, Eq)]
pub enum SyncError {
    /// The operation was not applicable in the repository's current state.
    Precondition(Precondition),
    /// The remote refused every credential that was offered.
    Auth { message: String },
    /// Replaying local commits hit a conflict at the given step, counted from
    /// zero; the replay was undone.
    Conflict { step: usize },
    /// A merge met paths that were deleted locally and changed remotely.
    /// They are not resolved automatically, and nothing was committed.
    Unresolved { paths: Vec<String> },
    /// A file of the working directory could not be written.
    Io { path: String, message: String },
    /// Fetching from or pushing to the remote failed.
    Transport { message: String },
    /// The object store reported a failure.
    Engine { message: String },
    /// The operation failed for `cause` after a merge had resolved conflicts.
    /// The remote versions it kept are still to be written: they are handed
    /// over with the failure, so that none is lost.
    Interrupted { cause: Box<SyncError>, artifacts: Vec<FileWrite> },
}

/// The text shown for a precondition that does not hold.
pub open spec fn precondition_text(p: Precondition) -> Seq<char> {
    match p {
        Precondition::PushHead => "Cannot push 'HEAD'. You must be on a named branch."@,
        Precondition::NothingToAmend => "No commit to amend"@,
        Precondition::NoWorkdir => "Repository has no workdir"@,
        Precondition::NotOnBranch => "Not on a valid branch"@,
        Precondition::NoCommonAncestor => "No common ancestor. Link the remote to replay local history onto it."@,
        Precondition::DirtyTree => "You have unstaged changes or untracked files."@,
        Precondition::UnreadableBranchName => "Branch refname not found"@,
    }
}

/// The text shown for a failure.
pub open spec fn error_text(e: SyncError) -> Seq<char>
    decreases e,
{
    match e {
        SyncError::Precondition(p) => precondition_text(p),
        SyncError::Auth { message } => message@,
        SyncError::Conflict { step } => "Conflict! Rebase aborted. Resolve manually."@,
        SyncError::Unresolved { paths } => "Conflict! "@ + decimal(paths@.len())
            + " path(s) deleted locally and changed remotely. Resolve manually."@,
        SyncError::Io { path, message } => "Failed to write "@ + path@ + ": "@ + message@,
        SyncError::Transport { message } => message@,
        SyncError::Engine { message } => message@,
        SyncError::Interrupted { cause, artifacts } => error_text(*cause),
    }
}

impl Precondition {
    /// The text shown when this precondition does not hold.
    pub fn message(&self) -> (s: String)
        ensures
            s@ == precondition_text(*self),
    {
        match self {
            Precondition::PushHead => String::from_str(
                "Cannot push 'HEAD'. You must be on a named branch.",
            ),
            Precondition::NothingToAmend => String::from_str("No commit to amend"),
            Precondition::NoWorkdir => String::from_str("Repository has no workdir"),
            Precondition::NotOnBranch => String::from_str("Not on a valid branch"),
            Precondition::NoCommonAncestor => String::from_str(
                "No common ancestor. Link the remote to replay local history onto it.",
            ),
            Precondition::DirtyTree => String::from_str(
                "You have unstaged changes or untracked files.",
            ),
            Precondition::UnreadableBranchName => String::from_str("Branch refname not found"),
        }
    }
}

impl SyncError {
    /// The text shown for this failure.
    pub fn message(&self) -> (s: String)
        ensures
            s@ == error_text(*self),
        decreases self,
    {
        match self {
            SyncError::Precondition(p) => p.message(),
            SyncError::Auth { message } => message.clone(),
            SyncError::Conflict { step } => String::from_str(
                "Conflict! Rebase aborted. Resolve manually.",
            ),
            SyncError::Unresolved { paths } => {
                let mut s = String::from_str("Conflict! ");
                s.append(to_decimal(paths.len() as u64).as_str());
                s.append(" path(s) deleted locally and changed remotely. Resolve manually.");
                s
            },
            SyncError::Io { path, message } => {
                let mut s = String::from_str("Failed to write ");
                s.append(path.as_str());
                s.append(": ");
                s.append(message.as_str());
                s
            },
            SyncError::Transport { message } => message.clone(),
            SyncError::Engine { message } => message.clone(),
            SyncError::Interrupted { cause, artifacts } => cause.message(),
        }
    }
}

/// The failure of an operation that had resolved conflicts before: the
/// cause itself where no remote version is waiting to be written, else the
/// cause together with those that are.
pub fn interrupted(cause: SyncError, artifacts: Vec<FileWrite>) -> (e: SyncError)
    ensures
        artifacts@.len() == 0 ==> e == cause,
        artifacts@.len() > 0 ==> e == (SyncError::Interrupted {
            cause: Box::new(cause),
            artifacts,
        }),
{
    if artifacts.len() == 0 {
        cause
    } else {
        SyncError::Interrupted { cause: Box::new(cause), artifacts }
    }
}

/// Reads an engine failure into plain values: its kind and its text.
fn describe_failure(e: &git2::Error) -> (failure: EngineFailure) {
    EngineFailure { kind: error_kind(e), message: error_message(e) }
}

/// Turns an engine failure into the library's error.
pub fn engine_failure(e: &git2::Error) -> (err: SyncError)
    ensures
        err is Engine,
{
    SyncError::Engine { message: error_message(e) }
}

/// Turns a failed fetch or push into the library's error: an authentication
/// failure where the engine classed it so, a transport failure otherwise.
/// The text is the engine's.
pub fn transport_failure(failure: &EngineFailure) -> (err: SyncError)
    ensures
        failure.kind == FailureKind::Auth ==> (err matches SyncError::Auth { message }
            && message@ == failure.message@),
        failure.kind != FailureKind::Auth ==> (err matches SyncError::Transport { message }
            && message@ == failure.message@),
{
    match failure.kind {
        FailureKind::Auth => SyncError::Auth { message: failure.message.clone() },
        _ => SyncError::Transport { message: failure.message.clone() },
    }
}

/// Carries a result over, with an engine failure turned into the library's error.
pub fn lift<T>(r: Result<T, git2::Error>) -> (out: Result<T, SyncError>)
    ensures
        r is Ok <==> out is Ok,
        r is Ok ==> out->Ok_0 == r->Ok_0,
        out is Err ==> out->Err_0 is Engine,
{
    match r {
        Ok(v) => Ok(v),
        Err(e) => Err(engine_failure(&e)),
    }
}

/// Carries the result of a fetch or push over.
pub fn lift_transport<T>(r: Result<T, git2::Error>) -> (out: Result<T, SyncError>)
    ensures
        r is Ok <==> out is Ok,
        r is Ok ==> out->Ok_0 == r->Ok_0,
        out is Err ==> out->Err_0 is Auth || out->Err_0 is Transport,
{
    match r {
        Ok(v) => Ok(v),
        Err(e) => Err(transport_failure(&describe_failure(&e))),
    }
}

} // verus!
