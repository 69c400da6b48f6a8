//! Resolving a conflicted index outside of a merge.
use vstd::prelude::*;
use crate::conflicts::{prepare_resolution, stage_resolution, Resolution, ResolutionPlan};
use crate::error::{lift, Precondition, SyncError};
use crate::trusted::git::{index_has_conflicts, index_write, repo_index, repo_workdir};

verus! {

/// The stages in which a prepared resolution is carried out.
#[derive(Debug, Clone, Copy, PartialEq, Eq, Structural)]
pub enum ResolutionPhase {
    /// The restores are written: each resolved path gets its local version.
    Restore,
    /// The resolution is staged by [`conclude_resolution`].
    Stage,
    /// The artifacts are written: the remote versions are kept beside the paths.
    Keep,
    /// Nothing is left to do.
    Done,
}

/// The phase that follows a phase that went through: the local versions are
/// on disk before they are staged, and the remote versions are kept last,
/// when the resolution stands.
pub open spec fn phase_after(phase: ResolutionPhase) -> ResolutionPhase {
    match phase {
        ResolutionPhase::Restore => ResolutionPhase::Stage,
        ResolutionPhase::Stage => ResolutionPhase::Keep,
        ResolutionPhase::Keep => ResolutionPhase::Done,
        ResolutionPhase::Done => ResolutionPhase::Done,
    }
}

/// What a resolve request led to.
#[derive(Debug, PartialEq, Eq)]
pub enum ResolveOutcome {
    /// Cleanup was asked for: the `.theirs` files under `workdir` are to be
    /// found and deleted. The repository was not touched.
    Cleanup { workdir: String },
    /// The index has conflicts, and this is their resolution. Nothing was
    /// changed yet: the caller carries it out phase by phase, from
    /// [`first_phase`] on by [`next_phase`].
    Conflicted { resolution: Resolution },
    /// The index has no conflicts. `.theirs` files that an earlier resolution
    /// left under `workdir` are still there to be merged by hand.
    NothingConflicted { workdir: String },
}

/// The phase with which carrying out a resolution begins.
pub fn first_phase() -> (phase: ResolutionPhase)
    ensures
        phase == ResolutionPhase::Restore,
{
    ResolutionPhase::Restore
}

/// The phase that follows a phase that went through; see [`phase_after`].
/// A phase that failed is followed by none: the resolution stops there.
pub fn next_phase(phase: ResolutionPhase) -> (next: ResolutionPhase)
    ensures
        next == phase_after(phase),
{
    match phase {
        ResolutionPhase::Restore => ResolutionPhase::Stage,
        ResolutionPhase::Stage => ResolutionPhase::Keep,
        ResolutionPhase::Keep => ResolutionPhase::Done,
        ResolutionPhase::Done => ResolutionPhase::Done,
    }
}

/// Prepares the resolution of the repository's index, or starts a cleanup.
///
/// A repository without a working directory is refused. With `cleanup` the
/// repository is left alone and the caller is told where to look for
/// `.theirs` files to delete. Otherwise the conflicts of the index, if it has
/// any, are planned by [`prepare_resolution`]. Nothing is changed and
/// nothing is committed.
pub fn resolve(repo: &git2::Repository, cleanup: bool) -> (r: Result<ResolveOutcome, SyncError>)
    ensures
        cleanup ==> (r matches Ok(ResolveOutcome::Cleanup { workdir }) || r
            == Err::<ResolveOutcome, SyncError>(SyncError::Precondition(Precondition::NoWorkdir))),
        !cleanup ==> !(r matches Ok(ResolveOutcome::Cleanup { workdir })),
        r matches Ok(ResolveOutcome::Conflicted { resolution }) ==> resolution.follows_plan(),
        r matches Err(e) ==> (e is Engine || e == SyncError::Precondition(
            Precondition::NoWorkdir,
        )),
{
    let workdir = match repo_workdir(repo) {
        Some(path) => path,
        None => {
            return Err(SyncError::Precondition(Precondition::NoWorkdir));
        },
    };
    if cleanup {
        return Ok(ResolveOutcome::Cleanup { workdir });
    }
    let index = lift(repo_index(repo))?;
    if index_has_conflicts(&index) {
        let resolution = prepare_resolution(repo, &index)?;
        Ok(ResolveOutcome::Conflicted { resolution })
    } else {
        Ok(ResolveOutcome::NothingConflicted { workdir })
    }
}

/// Stages a prepared resolution in the repository's index and writes the
/// index back. To be called once the restores of the resolution are on disk.
pub fn conclude_resolution(repo: &git2::Repository, plan: &ResolutionPlan) -> (r: Result<
    (),
    SyncError,
>)
    ensures
        r matches Err(e) ==> e is Engine,
{
    let mut index = lift(repo_index(repo))?;
    stage_resolution(&mut index, plan)?;
    lift(index_write(&mut index))
}

} // verus!
