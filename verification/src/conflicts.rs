//! Settling a conflicted index in favour of the local side.
//!
//! Every conflicted path that has a local version keeps it: the local blob is
//! written to the path and staged, and the remote blob, where there is one, is
//! written beside it as `<path>.theirs`. A path without a local version is
//! left conflicted and reported.
//!
//! The library decides and stages; it writes no file. What is to be written
//! comes back as data, with the bytes, for the caller to put on disk.
use vstd::prelude::*;
use crate::error::{lift, SyncError};
use crate::ids::ObjectId;
use crate::text::text_views;
use crate::trusted::git::{
    blob_bytes,
    blob_content,
    index_add,
    index_conflict_remove,
    index_conflicts,
};

verus! {

/// One side of a conflicted path, as the index records it.
#[derive(Debug, PartialEq, Eq)]
pub struct ConflictSide {
    /// The path, relative to the working directory.
    pub path: String,
    /// The blob that holds this side's content.
    pub id: ObjectId,
    /// The file mode of this side.
    pub mode: u32,
}

/// The sides of one conflicted path.
#[derive(Debug, PartialEq, Eq)]
pub struct Conflict {
    /// The common ancestor's version, if the path existed there.
    pub ancestor: Option<ConflictSide>,
    /// The local version, absent when the path was deleted locally.
    pub our: Option<ConflictSide>,
    /// The remote version, absent when the path was deleted remotely.
    pub their: Option<ConflictSide>,
}

/// Which side a file write carries.
#[derive(Debug, Clone, Copy, PartialEq, Eq, Structural)]
pub enum WriteKind {
    /// The local version, written to the conflicted path itself.
    Ours,
    /// The remote version, written to the `.theirs` file beside it.
    Theirs,
}

/// A file the resolution wants written: where, and from which blob.
#[derive(Debug, PartialEq, Eq)]
pub struct WriteTarget {
    /// The file, relative to the working directory.
    pub path: String,
    /// The blob whose bytes go into the file.
    pub source: ObjectId,
    /// Which side of the conflict the blob is.
    pub kind: WriteKind,
}

/// What is to be done about a list of conflicts.
#[derive(Debug, PartialEq, Eq)]
pub struct ResolutionPlan {
    /// The local versions to write to their paths, one per resolved path.
    pub restores: Vec<WriteTarget>,
    /// The remote versions to write beside the resolved paths.
    pub artifacts: Vec<WriteTarget>,
    /// The local sides to stage, one per resolved path.
    pub staged: Vec<ConflictSide>,
    /// The resolved paths whose remote side was deleted: nothing is kept beside them.
    pub remote_absent: Vec<String>,
    /// The paths without a local side, which stay conflicted.
    pub unresolved: Vec<String>,
}

/// A file write with the bytes to write.
#[derive(Debug, PartialEq, Eq)]
pub struct FileWrite {
    /// Where the bytes go and where they come from.
    pub target: WriteTarget,
    /// The bytes of the source blob.
    pub content: Vec<u8>,
}

/// A resolution with everything it takes to carry it out.
///
/// The writes are left to the caller. The order that keeps index and working
/// directory in step is: the restores first; then, if all of them were
/// written, the staging; the artifacts last.
#[derive(Debug, PartialEq, Eq)]
pub struct Resolution {
    /// The conflicts the index held.
    pub conflicts: Vec<Conflict>,
    /// What was decided about them.
    pub plan: ResolutionPlan,
    /// The planned restores with their content.
    pub restores: Vec<FileWrite>,
    /// The planned artifacts with their content.
    pub artifacts: Vec<FileWrite>,
}

/// A conflict side as plain mathematical values.
pub struct SideView {
    pub path: Seq<char>,
    pub id: Seq<u8>,
    pub mode: u32,
}

/// A conflict as plain mathematical values.
pub struct ConflictView {
    pub ancestor: Option<SideView>,
    pub our: Option<SideView>,
    pub their: Option<SideView>,
}

/// A write target as plain mathematical values.
pub struct TargetView {
    pub path: Seq<char>,
    pub source: Seq<u8>,
    pub kind: WriteKind,
}

/// A resolution plan as plain mathematical values.
pub struct PlanView {
    pub restores: Seq<TargetView>,
    pub artifacts: Seq<TargetView>,
    pub staged: Seq<SideView>,
    pub remote_absent: Seq<Seq<char>>,
    pub unresolved: Seq<Seq<char>>,
}

impl View for ConflictSide {
    type V = SideView;

    open spec fn view(&self) -> SideView {
        SideView { path: self.path@, id: self.id@, mode: self.mode }
    }
}

/// The view of an optional side.
pub open spec fn side_view(side: Option<ConflictSide>) -> Option<SideView> {
    match side {
        Some(s) => Some(s@),
        None => None,
    }
}

impl View for Conflict {
    type V = ConflictView;

    open spec fn view(&self) -> ConflictView {
        ConflictView {
            ancestor: side_view(self.ancestor),
            our: side_view(self.our),
            their: side_view(self.their),
        }
    }
}

impl View for WriteTarget {
    type V = TargetView;

    open spec fn view(&self) -> TargetView {
        TargetView { path: self.path@, source: self.source@, kind: self.kind }
    }
}

/// The views of a list of conflicts.
pub open spec fn conflict_views(conflicts: Seq<Conflict>) -> Seq<ConflictView> {
    conflicts.map_values(|c: Conflict| c@)
}

/// The views of a list of write targets.
pub open spec fn target_views(targets: Seq<WriteTarget>) -> Seq<TargetView> {
    targets.map_values(|t: WriteTarget| t@)
}

/// The views of a list of sides.
pub open spec fn side_views(sides: Seq<ConflictSide>) -> Seq<SideView> {
    sides.map_values(|s: ConflictSide| s@)
}

/// The targets of a list of file writes.
pub open spec fn write_targets(writes: Seq<FileWrite>) -> Seq<TargetView> {
    writes.map_values(|w: FileWrite| w.target@)
}

/// Whether each write carries the bytes of the blob that its target names.
pub open spec fn carries_blobs(writes: Seq<FileWrite>) -> bool {
    forall|i: int|
        0 <= i < writes.len() ==> (#[trigger] writes[i]).content@ == blob_bytes(
            writes[i].target.source@,
        )
}

impl Resolution {
    /// Whether the plan is the plan of the conflicts, and the writes are the
    /// planned ones in their order, each with the bytes of its blob.
    pub open spec fn follows_plan(&self) -> bool {
        &&& self.plan@ == plan_of(conflict_views(self.conflicts@))
        &&& write_targets(self.restores@) == self.plan@.restores
        &&& write_targets(self.artifacts@) == self.plan@.artifacts
        &&& carries_blobs(self.restores@)
        &&& carries_blobs(self.artifacts@)
    }
}

impl View for ResolutionPlan {
    type V = PlanView;

    open spec fn view(&self) -> PlanView {
        PlanView {
            restores: target_views(self.restores@),
            artifacts: target_views(self.artifacts@),
            staged: side_views(self.staged@),
            remote_absent: text_views(self.remote_absent@),
            unresolved: text_views(self.unresolved@),
        }
    }
}

/// The file that keeps the remote version of `path`.
pub open spec fn artifact_path(path: Seq<char>) -> Seq<char> {
    path + ".theirs"@
}

/// The path under which a conflict without a local side is reported: the
/// remote side's, else the ancestor's.
pub open spec fn reported_path(c: ConflictView) -> Seq<char> {
    match c.their {
        Some(t) => t.path,
        None => match c.ancestor {
            Some(a) => a.path,
            None => Seq::empty(),
        },
    }
}

/// The write that puts a local side back at its path.
pub open spec fn restore_of(ours: SideView) -> TargetView {
    TargetView { path: ours.path, source: ours.id, kind: WriteKind::Ours }
}

/// The write that keeps a remote side beside the path of the local side.
pub open spec fn artifact_of(ours: SideView, theirs: SideView) -> TargetView {
    TargetView { path: artifact_path(ours.path), source: theirs.id, kind: WriteKind::Theirs }
}

/// The plan for no conflicts.
pub open spec fn empty_plan() -> PlanView {
    PlanView {
        restores: Seq::empty(),
        artifacts: Seq::empty(),
        staged: Seq::empty(),
        remote_absent: Seq::empty(),
        unresolved: Seq::empty(),
    }
}

/// A plan with one more conflict taken in.
///
/// A conflict with a local side is resolved to it: the side is staged and
/// restored, and the remote side is kept as an artifact, or noted as absent.
/// A conflict without a local side is only listed as unresolved.
pub open spec fn plan_with(plan: PlanView, c: ConflictView) -> PlanView {
    match c.our {
        Some(o) => PlanView {
            restores: plan.restores.push(restore_of(o)),
            artifacts: match c.their {
                Some(t) => plan.artifacts.push(artifact_of(o, t)),
                None => plan.artifacts,
            },
            staged: plan.staged.push(o),
            remote_absent: match c.their {
                Some(t) => plan.remote_absent,
                None => plan.remote_absent.push(o.path),
            },
            unresolved: plan.unresolved,
        },
        None => PlanView { unresolved: plan.unresolved.push(reported_path(c)), ..plan },
    }
}

/// The plan for a list of conflicts, taken in order.
pub open spec fn plan_of(conflicts: Seq<ConflictView>) -> PlanView
    decreases conflicts.len(),
{
    if conflicts.len() == 0 {
        empty_plan()
    } else {
        plan_with(plan_of(conflicts.drop_last()), conflicts.last())
    }
}

impl ConflictSide {
    /// A copy of this side.
    pub fn duplicate(&self) -> (side: ConflictSide)
        ensures
            side@ == self@,
    {
        ConflictSide { path: self.path.clone(), id: self.id.clone(), mode: self.mode }
    }
}

impl WriteTarget {
    /// A copy of this target.
    pub fn duplicate(&self) -> (target: WriteTarget)
        ensures
            target@ == self@,
    {
        WriteTarget { path: self.path.clone(), source: self.source.clone(), kind: self.kind }
    }
}

/// Copies a list of paths.
pub fn copy_paths(paths: &Vec<String>) -> (copy: Vec<String>)
    ensures
        text_views(copy@) == text_views(paths@),
{
    let mut copy: Vec<String> = Vec::new();
    let mut i: usize = 0;
    while i < paths.len()
        invariant
            i <= paths.len(),
            text_views(copy@) == text_views(paths@).take(i as int),
        decreases paths.len() - i,
    {
        let ghost before = text_views(copy@);
        copy.push(paths[i].clone());
        assert(text_views(copy@) =~= before.push(paths@[i as int]@));
        assert(text_views(paths@).take(i + 1) =~= text_views(paths@).take(i as int).push(
            paths@[i as int]@,
        ));
        i += 1;
    }
    assert(text_views(paths@).take(i as int) =~= text_views(paths@));
    copy
}

/// The name of the file that keeps the remote version of `path`.
pub fn theirs_path(path: &str) -> (artifact: String)
    ensures
        artifact@ == artifact_path(path@),
{
    let mut artifact = String::from_str(path);
    artifact.append(".theirs");
    artifact
}

fn path_to_report(c: &Conflict) -> (path: String)
    ensures
        path@ == reported_path(c@),
{
    match &c.their {
        Some(t) => t.path.clone(),
        None => match &c.ancestor {
            Some(a) => a.path.clone(),
            None => String::new(),
        },
    }
}

/// Decides what to do about each conflict.
///
/// A conflict with a local side is resolved to it: the local blob is to be
/// written to the path and staged, and the remote blob, if there is one, is to
/// be written to `<path>.theirs`. A conflict without a local side is left
/// unresolved and listed.
pub fn plan_resolution(conflicts: &Vec<Conflict>) -> (plan: ResolutionPlan)
    ensures
        plan@ == plan_of(conflict_views(conflicts@)),
{
    let mut plan = ResolutionPlan {
        restores: Vec::new(),
        artifacts: Vec::new(),
        staged: Vec::new(),
        remote_absent: Vec::new(),
        unresolved: Vec::new(),
    };
    let ghost all = conflict_views(conflicts@);
    assert(all.take(0) =~= Seq::empty());
    assert(plan@.restores =~= Seq::empty() && plan@.artifacts =~= Seq::empty() && plan@.staged
        =~= Seq::empty() && plan@.remote_absent =~= Seq::empty() && plan@.unresolved
        =~= Seq::empty());
    let mut i: usize = 0;
    while i < conflicts.len()
        invariant
            i <= conflicts.len(),
            all == conflict_views(conflicts@),
            plan@ == plan_of(all.take(i as int)),
        decreases conflicts.len() - i,
    {
        let c = &conflicts[i];
        let ghost before = plan@;
        proof {
            assert(all.take(i + 1).drop_last() =~= all.take(i as int));
            assert(all.take(i + 1).last() == c@);
        }
        match &c.our {
            Some(o) => {
                plan.restores.push(
                    WriteTarget { path: o.path.clone(), source: o.id.clone(), kind: WriteKind::Ours },
                );
                match &c.their {
                    Some(t) => {
                        plan.artifacts.push(
                            WriteTarget {
                                path: theirs_path(o.path.as_str()),
                                source: t.id.clone(),
                                kind: WriteKind::Theirs,
                            },
                        );
                    },
                    None => {
                        plan.remote_absent.push(o.path.clone());
                    },
                }
                plan.staged.push(o.duplicate());
            },
            None => {
                plan.unresolved.push(path_to_report(c));
            },
        }
        proof {
            let after = plan_with(before, c@);
            assert(plan@.restores =~= after.restores);
            assert(plan@.artifacts =~= after.artifacts);
            assert(plan@.staged =~= after.staged);
            assert(plan@.remote_absent =~= after.remote_absent);
            assert(plan@.unresolved =~= after.unresolved);
        }
        i += 1;
    }
    assert(all.take(i as int) =~= all);
    plan
}

impl Conflict {
    /// A copy of this conflict.
    pub fn duplicate(&self) -> (c: Conflict)
        ensures
            c@ == self@,
    {
        Conflict {
            ancestor: match &self.ancestor {
                Some(s) => Some(s.duplicate()),
                None => None,
            },
            our: match &self.our {
                Some(s) => Some(s.duplicate()),
                None => None,
            },
            their: match &self.their {
                Some(s) => Some(s.duplicate()),
                None => None,
            },
        }
    }
}

/// The conflicts among `entries` that could be read, in order.
pub open spec fn readable_of(entries: Seq<Option<Conflict>>) -> Seq<ConflictView>
    decreases entries.len(),
{
    if entries.len() == 0 {
        Seq::empty()
    } else {
        match entries.last() {
            Some(c) => readable_of(entries.drop_last()).push(c@),
            None => readable_of(entries.drop_last()),
        }
    }
}

/// Drops the entries that could not be read and keeps the others in order.
pub fn keep_readable(entries: &Vec<Option<Conflict>>) -> (conflicts: Vec<Conflict>)
    ensures
        conflict_views(conflicts@) == readable_of(entries@),
{
    let mut conflicts: Vec<Conflict> = Vec::new();
    assert(entries@.take(0) =~= Seq::empty());
    assert(conflict_views(conflicts@) =~= Seq::empty());
    let mut i: usize = 0;
    while i < entries.len()
        invariant
            i <= entries.len(),
            conflict_views(conflicts@) == readable_of(entries@.take(i as int)),
        decreases entries.len() - i,
    {
        let ghost before = conflict_views(conflicts@);
        proof {
            assert(entries@.take(i + 1).drop_last() =~= entries@.take(i as int));
            assert(entries@.take(i + 1).last() == entries@[i as int]);
        }
        match &entries[i] {
            Some(c) => {
                conflicts.push(c.duplicate());
                assert(conflict_views(conflicts@) =~= before.push(c@));
            },
            None => {},
        }
        i += 1;
    }
    assert(entries@.take(i as int) =~= entries@);
    conflicts
}

/// Reads the conflicted paths of an index. Entries the engine cannot read are left out.
pub fn read_conflicts(index: &git2::Index) -> (r: Result<Vec<Conflict>, SyncError>)
    ensures
        r matches Err(e) ==> e is Engine,
{
    let entries = lift(index_conflicts(index))?;
    Ok(keep_readable(&entries))
}

/// Loads the bytes of the blobs that the targets name: one write for each
/// target, in their order, with the bytes of the target's blob.
pub fn load_writes(repo: &git2::Repository, targets: &Vec<WriteTarget>) -> (r: Result<
    Vec<FileWrite>,
    SyncError,
>)
    ensures
        r matches Ok(writes) ==> write_targets(writes@) == target_views(targets@) && carries_blobs(
            writes@,
        ),
        r matches Err(e) ==> e is Engine,
{
    let mut writes: Vec<FileWrite> = Vec::new();
    assert(write_targets(writes@) =~= target_views(targets@).take(0));
    let mut i: usize = 0;
    while i < targets.len()
        invariant
            i <= targets.len(),
            write_targets(writes@) == target_views(targets@).take(i as int),
            carries_blobs(writes@),
        decreases targets.len() - i,
    {
        let target = &targets[i];
        let content = lift(blob_content(repo, &target.source))?;
        let ghost before = write_targets(writes@);
        writes.push(FileWrite { target: target.duplicate(), content });
        assert(write_targets(writes@) =~= before.push(target@));
        assert(target_views(targets@).take(i + 1) =~= target_views(targets@).take(i as int).push(
            target@,
        ));
        i += 1;
    }
    assert(target_views(targets@).take(i as int) =~= target_views(targets@));
    Ok(writes)
}

/// Reads the conflicts of `index`, plans their resolution and loads the
/// blobs of the planned writes. Nothing is changed, in the index or on disk.
///
/// On success the plan is the plan of the conflicts that were read, and the
/// writes are the planned ones, in order. A failure is the engine's.
pub fn prepare_resolution(repo: &git2::Repository, index: &git2::Index) -> (r: Result<
    Resolution,
    SyncError,
>)
    ensures
        r matches Ok(res) ==> res.follows_plan(),
        r matches Err(e) ==> e is Engine,
{
    let conflicts = read_conflicts(index)?;
    let plan = plan_resolution(&conflicts);
    let restores = load_writes(repo, &plan.restores)?;
    let artifacts = load_writes(repo, &plan.artifacts)?;
    Ok(Resolution { conflicts, plan, restores, artifacts })
}

/// Lets a plan pass that resolves every conflict, and fails with the paths
/// it leaves unresolved where there are any.
pub fn check_resolved(plan: &ResolutionPlan) -> (r: Result<(), SyncError>)
    ensures
        plan@.unresolved.len() == 0 <==> r is Ok,
        r matches Err(e) ==> (e matches SyncError::Unresolved { paths } && text_views(paths@)
            == plan@.unresolved),
{
    if plan.unresolved.len() == 0 {
        Ok(())
    } else {
        Err(SyncError::Unresolved { paths: copy_paths(&plan.unresolved) })
    }
}

/// The flags of a resolved entry: stage zero, the stage of merged entries,
/// and nothing else set.
pub fn merged_entry_flags() -> (flags: u16)
    ensures
        flags == 0,
{
    0
}

/// Stages the local side of every resolved path: the path loses its conflict
/// entries and gets the local blob as its merged entry. The index is changed
/// in memory only.
pub fn stage_resolution(index: &mut git2::Index, plan: &ResolutionPlan) -> (r: Result<
    (),
    SyncError,
>)
    ensures
        r matches Err(e) ==> e is Engine,
{
    let mut k: usize = 0;
    while k < plan.staged.len()
        invariant
            k <= plan.staged.len(),
        decreases plan.staged.len() - k,
    {
        let side = &plan.staged[k];
        lift(index_conflict_remove(index, side.path.as_str()))?;
        lift(index_add(index, side, merged_entry_flags()))?;
        k += 1;
    }
    Ok(())
}

/// Resolves every conflict of `index` that has a local side, in favour of it.
///
/// The resolution is prepared by [`prepare_resolution`] and staged by
/// [`stage_resolution`]. Nothing is written to the working directory: the
/// writes come back with their content, for the caller to perform. The index
/// is changed in memory only, and only once every blob was loaded.
///
/// On success the plan is the plan of the conflicts that were read, and the
/// writes are the planned ones, in order. A failure is the engine's.
pub fn resolve_conflicts_ours(repo: &git2::Repository, index: &mut git2::Index) -> (r: Result<
    Resolution,
    SyncError,
>)
    ensures
        r matches Ok(res) ==> res.follows_plan(),
        r matches Err(e) ==> e is Engine,
{
    let resolution = prepare_resolution(repo, index)?;
    stage_resolution(index, &resolution.plan)?;
    Ok(resolution)
}

/// What a write leaves on disk when it fails or succeeds.
#[derive(Debug, PartialEq, Eq)]
pub enum WriteReport {
    /// The local version is back at its path.
    Restored { path: String },
    /// The remote version was saved beside the path.
    Saved { path: String },
    /// The remote version could not be saved; the merge stands without it.
    NotSaved { path: String, reason: String },
}

/// Judges how a write ended.
///
/// A write that succeeded is reported by its kind. A local version that could
/// not be written is a failure. A remote version that could not be saved is
/// only reported: by then the resolution itself has succeeded.
pub fn after_write(target: &WriteTarget, failure: Option<String>) -> (r: Result<
    WriteReport,
    SyncError,
>)
    ensures
        failure is None && target.kind == WriteKind::Ours ==> (r matches Ok(
            WriteReport::Restored { path },
        ) && path@ == target.path@),
        failure is None && target.kind == WriteKind::Theirs ==> (r matches Ok(
            WriteReport::Saved { path },
        ) && path@ == target.path@),
        failure is Some && target.kind == WriteKind::Ours ==> (r matches Err(
            SyncError::Io { path, message },
        ) && path@ == target.path@ && message@ == failure->0@),
        failure is Some && target.kind == WriteKind::Theirs ==> (r matches Ok(
            WriteReport::NotSaved { path, reason },
        ) && path@ == target.path@ && reason@ == failure->0@),
{
    match failure {
        None => match target.kind {
            WriteKind::Ours => Ok(WriteReport::Restored { path: target.path.clone() }),
            WriteKind::Theirs => Ok(WriteReport::Saved { path: target.path.clone() }),
        },
        Some(reason) => match target.kind {
            WriteKind::Ours => Err(SyncError::Io { path: target.path.clone(), message: reason }),
            WriteKind::Theirs => Ok(WriteReport::NotSaved { path: target.path.clone(), reason }),
        },
    }
}

} // verus!
