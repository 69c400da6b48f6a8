//! Working directory and index under a conflict resolution.
//!
//! The model states what performing the planned writes and staging the
//! planned sides comes to: a write puts the bytes of a blob at a path, and
//! staging a side makes its path hold the side's blob and clears the path's
//! conflict entries.
use vstd::prelude::*;
use crate::artifacts::is_artifact_path;
use crate::conflicts::{
    artifact_of,
    artifact_path,
    plan_of,
    restore_of,
    ConflictView,
    SideView,
    TargetView,
};

verus! {

/// The working directory after the writes were performed in order: each
/// write puts the bytes of its source blob at its path.
pub open spec fn perform_writes(
    files: Map<Seq<char>, Seq<u8>>,
    blobs: Map<Seq<u8>, Seq<u8>>,
    writes: Seq<TargetView>,
) -> Map<Seq<char>, Seq<u8>>
    decreases writes.len(),
{
    if writes.len() == 0 {
        files
    } else {
        perform_writes(files, blobs, writes.drop_last()).insert(
            writes.last().path,
            blobs[writes.last().source],
        )
    }
}

/// The writes of a plan in the order in which they are performed: the
/// restores, then the artifacts.
pub open spec fn planned_writes(conflicts: Seq<ConflictView>) -> Seq<TargetView> {
    plan_of(conflicts).restores + plan_of(conflicts).artifacts
}

/// An index as far as resolution changes it.
pub struct IndexModel {
    /// The blob staged at each merged path.
    pub merged: Map<Seq<char>, Seq<u8>>,
    /// The paths that have conflict entries.
    pub unmerged: Set<Seq<char>>,
}

/// The index after a side was staged: the path holds the side's blob and has
/// no conflict entries any more.
pub open spec fn after_staging(index: IndexModel, side: SideView) -> IndexModel {
    IndexModel {
        merged: index.merged.insert(side.path, side.id),
        unmerged: index.unmerged.remove(side.path),
    }
}

/// The index after the sides were staged in order.
pub open spec fn after_staging_all(index: IndexModel, sides: Seq<SideView>) -> IndexModel
    decreases sides.len(),
{
    if sides.len() == 0 {
        index
    } else {
        after_staging(after_staging_all(index, sides.drop_last()), sides.last())
    }
}

/// Whether every conflict has both a local and a remote side.
pub open spec fn both_sided(conflicts: Seq<ConflictView>) -> bool {
    forall|i: int|
        0 <= i < conflicts.len() ==> (#[trigger] conflicts[i]).our is Some && conflicts[i].their
            is Some
}

/// The path of a conflict that has a local side.
pub open spec fn our_path(c: ConflictView) -> Seq<char> {
    c.our->0.path
}

/// Whether the conflicts sit at different paths.
pub open spec fn distinct_paths(conflicts: Seq<ConflictView>) -> bool {
    forall|i: int, j: int|
        0 <= i < j < conflicts.len() ==> our_path(#[trigger] conflicts[i]) != our_path(
            #[trigger] conflicts[j],
        )
}

/// Whether the conflicts sit at different paths, none of which is the
/// `.theirs` file of a conflicted path.
pub open spec fn separate_paths(conflicts: Seq<ConflictView>) -> bool {
    &&& distinct_paths(conflicts)
    &&& forall|i: int, j: int|
        0 <= i < conflicts.len() && 0 <= j < conflicts.len() ==> our_path(#[trigger] conflicts[i])
            != artifact_path(our_path(#[trigger] conflicts[j]))
}

/// Whether `path` is neither a conflicted path nor the `.theirs` file of one.
pub open spec fn outside_resolution(conflicts: Seq<ConflictView>, path: Seq<char>) -> bool {
    forall|i: int|
        0 <= i < conflicts.len() ==> path != our_path(#[trigger] conflicts[i]) && path
            != artifact_path(our_path(conflicts[i]))
}

/// Whether the store holds the blobs of both sides of every conflict.
pub open spec fn blobs_stored(blobs: Map<Seq<u8>, Seq<u8>>, conflicts: Seq<ConflictView>) -> bool {
    forall|i: int|
        0 <= i < conflicts.len() ==> blobs.dom().contains((#[trigger] conflicts[i]).our->0.id)
            && blobs.dom().contains(conflicts[i].their->0.id)
}

/// Whether the conflicted paths of an index are exactly those of the conflicts.
pub open spec fn conflicted_at(index: IndexModel, conflicts: Seq<ConflictView>) -> bool {
    forall|p: Seq<char>|
        index.unmerged.contains(p) <==> exists|i: int|
            0 <= i < conflicts.len() && our_path(#[trigger] conflicts[i]) == p
}

/// The `.theirs` files of a list of conflicts, in order.
pub open spec fn artifact_paths(conflicts: Seq<ConflictView>) -> Seq<Seq<char>> {
    Seq::new(conflicts.len(), |i: int| artifact_path(our_path(conflicts[i])))
}

/// The `.theirs` files of a working directory.
pub open spec fn theirs_files(files: Map<Seq<char>, Seq<u8>>) -> Set<Seq<char>> {
    Set::new(|p: Seq<char>| files.dom().contains(p) && is_artifact_path(p))
}

/// Whether none of the writes goes to `path`.
pub open spec fn never_written(writes: Seq<TargetView>, path: Seq<char>) -> bool {
    forall|k: int| 0 <= k < writes.len() ==> (#[trigger] writes[k]).path != path
}

/// Whether no write after the one at `i` goes to the same path.
pub open spec fn written_last(writes: Seq<TargetView>, i: int) -> bool {
    forall|k: int| i < k < writes.len() ==> (#[trigger] writes[k]).path != writes[i].path
}

/// Whether none of the sides sits at `path`.
pub open spec fn never_staged(sides: Seq<SideView>, path: Seq<char>) -> bool {
    forall|k: int| 0 <= k < sides.len() ==> (#[trigger] sides[k]).path != path
}

/// Whether no side after the one at `i` sits at the same path.
pub open spec fn staged_last(sides: Seq<SideView>, i: int) -> bool {
    forall|k: int| i < k < sides.len() ==> (#[trigger] sides[k]).path != sides[i].path
}

/// Appending the same suffix to different paths gives different paths.
pub proof fn lemma_artifact_path_injective(a: Seq<char>, b: Seq<char>)
    requires
        artifact_path(a) == artifact_path(b),
    ensures
        a == b,
{
    let s = ".theirs"@;
    assert((a + s).len() == a.len() + s.len());
    assert((b + s).len() == b.len() + s.len());
    assert(a =~= (a + s).subrange(0, a.len() as int));
    assert(b =~= (b + s).subrange(0, b.len() as int));
}

/// The file beside a path is a `.theirs` file.
pub proof fn lemma_artifact_path_is_artifact(path: Seq<char>)
    ensures
        is_artifact_path(artifact_path(path)),
{
    let s = ".theirs"@;
    let a = artifact_path(path);
    assert(a.len() == path.len() + s.len());
    assert(a.subrange(a.len() - s.len(), a.len() as int) =~= s);
}

proof fn lemma_never_written_front(writes: Seq<TargetView>, path: Seq<char>)
    requires
        writes.len() > 0,
    ensures
        never_written(writes, path) <==> never_written(writes.drop_last(), path)
            && writes.last().path != path,
{
    let front = writes.drop_last();
    if never_written(writes, path) {
        assert forall|k: int| 0 <= k < front.len() implies (#[trigger] front[k]).path != path by {
            assert(front[k] == writes[k]);
        }
        assert(writes[writes.len() - 1].path != path);
    }
    if never_written(front, path) && writes.last().path != path {
        assert forall|k: int| 0 <= k < writes.len() implies (#[trigger] writes[k]).path
            != path by {
            if k < front.len() {
                assert(front[k] == writes[k]);
            }
        }
    }
}

/// A path that no write goes to holds what it held.
pub proof fn lemma_unwritten_kept(
    files: Map<Seq<char>, Seq<u8>>,
    blobs: Map<Seq<u8>, Seq<u8>>,
    writes: Seq<TargetView>,
    path: Seq<char>,
)
    requires
        never_written(writes, path),
    ensures
        perform_writes(files, blobs, writes).dom().contains(path) <==> files.dom().contains(path),
        perform_writes(files, blobs, writes)[path] == files[path],
    decreases writes.len(),
{
    if writes.len() > 0 {
        lemma_never_written_front(writes, path);
        lemma_unwritten_kept(files, blobs, writes.drop_last(), path);
    }
}

/// A path holds the blob of the last write that went to it.
pub proof fn lemma_written_last(
    files: Map<Seq<char>, Seq<u8>>,
    blobs: Map<Seq<u8>, Seq<u8>>,
    writes: Seq<TargetView>,
    i: int,
)
    requires
        0 <= i < writes.len(),
        written_last(writes, i),
    ensures
        perform_writes(files, blobs, writes).dom().contains(writes[i].path),
        perform_writes(files, blobs, writes)[writes[i].path] == blobs[writes[i].source],
    decreases writes.len(),
{
    let front = writes.drop_last();
    let n = writes.len() - 1;
    if i < n {
        assert(front[i] == writes[i]);
        assert forall|k: int| i < k < front.len() implies (#[trigger] front[k]).path
            != front[i].path by {
            assert(front[k] == writes[k]);
        }
        lemma_written_last(files, blobs, front, i);
        assert(writes[n].path != writes[i].path);
    }
}

proof fn lemma_never_staged_front(sides: Seq<SideView>, path: Seq<char>)
    requires
        sides.len() > 0,
    ensures
        never_staged(sides, path) <==> never_staged(sides.drop_last(), path) && sides.last().path
            != path,
{
    let front = sides.drop_last();
    if never_staged(sides, path) {
        assert forall|k: int| 0 <= k < front.len() implies (#[trigger] front[k]).path != path by {
            assert(front[k] == sides[k]);
        }
        assert(sides[sides.len() - 1].path != path);
    }
    if never_staged(front, path) && sides.last().path != path {
        assert forall|k: int| 0 <= k < sides.len() implies (#[trigger] sides[k]).path != path by {
            if k < front.len() {
                assert(front[k] == sides[k]);
            }
        }
    }
}

/// A path is conflicted after staging exactly if it was and nothing was staged at it.
pub proof fn lemma_unmerged_after(index: IndexModel, sides: Seq<SideView>, path: Seq<char>)
    ensures
        after_staging_all(index, sides).unmerged.contains(path) <==> index.unmerged.contains(path)
            && never_staged(sides, path),
    decreases sides.len(),
{
    if sides.len() > 0 {
        lemma_unmerged_after(index, sides.drop_last(), path);
        lemma_never_staged_front(sides, path);
    }
}

/// A path at which nothing was staged has staged what it had.
pub proof fn lemma_unstaged_kept(index: IndexModel, sides: Seq<SideView>, path: Seq<char>)
    requires
        never_staged(sides, path),
    ensures
        after_staging_all(index, sides).merged.dom().contains(path) <==> index.merged.dom().contains(
            path,
        ),
        after_staging_all(index, sides).merged[path] == index.merged[path],
    decreases sides.len(),
{
    if sides.len() > 0 {
        lemma_never_staged_front(sides, path);
        lemma_unstaged_kept(index, sides.drop_last(), path);
    }
}

/// A path holds the blob of the last side staged at it.
pub proof fn lemma_staged_last(index: IndexModel, sides: Seq<SideView>, i: int)
    requires
        0 <= i < sides.len(),
        staged_last(sides, i),
    ensures
        after_staging_all(index, sides).merged.dom().contains(sides[i].path),
        after_staging_all(index, sides).merged[sides[i].path] == sides[i].id,
    decreases sides.len(),
{
    let front = sides.drop_last();
    let n = sides.len() - 1;
    if i < n {
        assert(front[i] == sides[i]);
        assert forall|k: int| i < k < front.len() implies (#[trigger] front[k]).path
            != front[i].path by {
            assert(front[k] == sides[k]);
        }
        lemma_staged_last(index, front, i);
        assert(sides[n].path != sides[i].path);
    }
}

proof fn lemma_both_sided_front(conflicts: Seq<ConflictView>)
    requires
        conflicts.len() > 0,
        both_sided(conflicts),
    ensures
        both_sided(conflicts.drop_last()),
        conflicts.last().our is Some,
        conflicts.last().their is Some,
{
    let front = conflicts.drop_last();
    assert(conflicts[conflicts.len() - 1].our is Some);
    assert forall|i: int| 0 <= i < front.len() implies (#[trigger] front[i]).our is Some
        && front[i].their is Some by {
        assert(front[i] == conflicts[i]);
    }
}

/// What the plan decides for conflicts that all have both sides: every one is
/// staged with its local side, restored from its local blob and kept as an
/// artifact from its remote blob, in order; none is reported as unresolved or
/// as lacking a remote side.
pub proof fn lemma_all_resolved(conflicts: Seq<ConflictView>)
    requires
        both_sided(conflicts),
    ensures
        plan_of(conflicts).unresolved.len() == 0,
        plan_of(conflicts).remote_absent.len() == 0,
        plan_of(conflicts).staged.len() == conflicts.len(),
        plan_of(conflicts).restores.len() == conflicts.len(),
        plan_of(conflicts).artifacts.len() == conflicts.len(),
        forall|i: int|
            0 <= i < conflicts.len() ==> #[trigger] plan_of(conflicts).staged[i]
                == conflicts[i].our->0,
        forall|i: int|
            0 <= i < conflicts.len() ==> #[trigger] plan_of(conflicts).restores[i] == restore_of(
                conflicts[i].our->0,
            ),
        forall|i: int|
            0 <= i < conflicts.len() ==> #[trigger] plan_of(conflicts).artifacts[i] == artifact_of(
                conflicts[i].our->0,
                conflicts[i].their->0,
            ),
    decreases conflicts.len(),
{
    if conflicts.len() > 0 {
        lemma_both_sided_front(conflicts);
        lemma_all_resolved(conflicts.drop_last());
        let front = conflicts.drop_last();
        let n = conflicts.len() - 1;
        assert(conflicts.last() == conflicts[n]);
        assert forall|i: int| 0 <= i < conflicts.len() implies #[trigger] plan_of(
            conflicts,
        ).staged[i] == conflicts[i].our->0 by {
            if i < n {
                assert(front[i] == conflicts[i]);
                assert(plan_of(front).staged[i] == front[i].our->0);
            }
        }
        assert forall|i: int| 0 <= i < conflicts.len() implies #[trigger] plan_of(
            conflicts,
        ).restores[i] == restore_of(conflicts[i].our->0) by {
            if i < n {
                assert(front[i] == conflicts[i]);
                assert(plan_of(front).restores[i] == restore_of(front[i].our->0));
            }
        }
        assert forall|i: int| 0 <= i < conflicts.len() implies #[trigger] plan_of(
            conflicts,
        ).artifacts[i] == artifact_of(conflicts[i].our->0, conflicts[i].their->0) by {
            if i < n {
                assert(front[i] == conflicts[i]);
                assert(plan_of(front).artifacts[i] == artifact_of(
                    front[i].our->0,
                    front[i].their->0,
                ));
            }
        }
    }
}

/// What the working directory holds once the planned writes of conflicts
/// with both sides present, at separate paths, were performed: every
/// conflicted path holds the local blob, every `.theirs` file beside one holds
/// the remote blob, and no other file was touched.
pub proof fn lemma_writes_outcome(
    files: Map<Seq<char>, Seq<u8>>,
    blobs: Map<Seq<u8>, Seq<u8>>,
    conflicts: Seq<ConflictView>,
)
    requires
        both_sided(conflicts),
        separate_paths(conflicts),
        blobs_stored(blobs, conflicts),
    ensures
        ({
            let after = perform_writes(files, blobs, planned_writes(conflicts));
            &&& forall|i: int|
                0 <= i < conflicts.len() ==> after.dom().contains(
                    our_path(#[trigger] conflicts[i]),
                ) && after[our_path(conflicts[i])] == blobs[conflicts[i].our->0.id]
            &&& forall|i: int|
                0 <= i < conflicts.len() ==> after.dom().contains(
                    artifact_path(our_path(#[trigger] conflicts[i])),
                ) && after[artifact_path(our_path(conflicts[i]))] == blobs[conflicts[i].their->0.id]
            &&& forall|p: Seq<char>| #[trigger]
                outside_resolution(conflicts, p) ==> (after.dom().contains(p)
                    <==> files.dom().contains(p)) && after[p] == files[p]
        }),
{
    lemma_all_resolved(conflicts);
    let n = conflicts.len() as int;
    let plan = plan_of(conflicts);
    let writes = planned_writes(conflicts);
    let after = perform_writes(files, blobs, writes);
    assert(writes.len() == 2 * n);
    assert forall|k: int| 0 <= k < writes.len() implies (#[trigger] writes[k]).path == (if k < n {
        our_path(conflicts[k])
    } else {
        artifact_path(our_path(conflicts[k - n]))
    }) by {
        if k < n {
            assert(writes[k] == plan.restores[k]);
        } else {
            assert(writes[k] == plan.artifacts[k - n]);
        }
    }
    assert forall|i: int| 0 <= i < conflicts.len() implies after.dom().contains(
        our_path(#[trigger] conflicts[i]),
    ) && after[our_path(conflicts[i])] == blobs[conflicts[i].our->0.id] by {
        assert(writes[i] == plan.restores[i]);
        assert forall|k: int| i < k < writes.len() implies (#[trigger] writes[k]).path
            != writes[i].path by {
            if k < n {
                assert(our_path(conflicts[i]) != our_path(conflicts[k]));
            } else {
                assert(our_path(conflicts[i]) != artifact_path(our_path(conflicts[k - n])));
            }
        }
        lemma_written_last(files, blobs, writes, i);
    }
    assert forall|i: int| 0 <= i < conflicts.len() implies after.dom().contains(
        artifact_path(our_path(#[trigger] conflicts[i])),
    ) && after[artifact_path(our_path(conflicts[i]))] == blobs[conflicts[i].their->0.id] by {
        assert(writes[n + i] == plan.artifacts[i]);
        assert forall|k: int| n + i < k < writes.len() implies (#[trigger] writes[k]).path
            != writes[n + i].path by {
            if artifact_path(our_path(conflicts[k - n])) == artifact_path(our_path(conflicts[i])) {
                lemma_artifact_path_injective(our_path(conflicts[k - n]), our_path(conflicts[i]));
                assert(our_path(conflicts[i]) != our_path(conflicts[k - n]));
            }
        }
        lemma_written_last(files, blobs, writes, n + i);
    }
    assert forall|p: Seq<char>| #[trigger] outside_resolution(conflicts, p) implies (
    after.dom().contains(p) <==> files.dom().contains(p)) && after[p] == files[p] by {
        assert forall|k: int| 0 <= k < writes.len() implies (#[trigger] writes[k]).path != p by {
            if k < n {
                assert(p != our_path(conflicts[k]));
            } else {
                assert(p != artifact_path(our_path(conflicts[k - n])));
            }
        }
        lemma_unwritten_kept(files, blobs, writes, p);
    }
}

/// The `.theirs` files of conflicts at separate paths are as many as the conflicts.
pub proof fn lemma_artifact_count(conflicts: Seq<ConflictView>)
    requires
        separate_paths(conflicts),
    ensures
        artifact_paths(conflicts).no_duplicates(),
        artifact_paths(conflicts).to_set().len() == conflicts.len(),
{
    let paths = artifact_paths(conflicts);
    assert forall|i: int, j: int| 0 <= i < paths.len() && 0 <= j < paths.len() && i != j implies
        paths[i] != paths[j] by {
        if paths[i] == paths[j] {
            lemma_artifact_path_injective(our_path(conflicts[i]), our_path(conflicts[j]));
            if i < j {
                assert(our_path(conflicts[i]) != our_path(conflicts[j]));
            } else {
                assert(our_path(conflicts[j]) != our_path(conflicts[i]));
            }
        }
    }
    paths.unique_seq_to_set();
}

/// Resolving `N` conflicts that all have both sides, at separate paths, in a
/// working directory without `.theirs` files, leaves exactly `N` such files,
/// one beside each conflicted path, holding the remote blob; each conflicted
/// path holds the local blob.
pub proof fn lemma_resolution_leaves_one_artifact_each(
    files: Map<Seq<char>, Seq<u8>>,
    blobs: Map<Seq<u8>, Seq<u8>>,
    conflicts: Seq<ConflictView>,
)
    requires
        both_sided(conflicts),
        separate_paths(conflicts),
        blobs_stored(blobs, conflicts),
        theirs_files(files) == Set::<Seq<char>>::empty(),
        forall|i: int|
            0 <= i < conflicts.len() ==> !is_artifact_path(our_path(#[trigger] conflicts[i])),
    ensures
        ({
            let after = perform_writes(files, blobs, planned_writes(conflicts));
            &&& theirs_files(after) == artifact_paths(conflicts).to_set()
            &&& theirs_files(after).len() == conflicts.len()
            &&& forall|i: int|
                0 <= i < conflicts.len() ==> after[artifact_path(
                    our_path(#[trigger] conflicts[i]),
                )] == blobs[conflicts[i].their->0.id] && after[our_path(conflicts[i])]
                    == blobs[conflicts[i].our->0.id]
        }),
{
    lemma_writes_outcome(files, blobs, conflicts);
    lemma_artifact_count(conflicts);
    let after = perform_writes(files, blobs, planned_writes(conflicts));
    let paths = artifact_paths(conflicts);
    assert forall|p: Seq<char>| theirs_files(after).contains(p) implies paths.to_set().contains(
        p,
    ) by {
        if outside_resolution(conflicts, p) {
            assert(files.dom().contains(p));
            assert(theirs_files(files).contains(p));
        } else {
            let i = choose|i: int|
                0 <= i < conflicts.len() && !(p != our_path(#[trigger] conflicts[i]) && p
                    != artifact_path(our_path(conflicts[i])));
            assert(p != our_path(conflicts[i]));
            assert(paths[i] == p);
        }
    }
    assert forall|p: Seq<char>| paths.to_set().contains(p) implies theirs_files(after).contains(
        p,
    ) by {
        let i = choose|i: int| 0 <= i < paths.len() && paths[i] == p;
        lemma_artifact_path_is_artifact(our_path(conflicts[i]));
        assert(after.dom().contains(artifact_path(our_path(conflicts[i]))));
    }
    assert(theirs_files(after) =~= paths.to_set());
}

/// Staging what the plan says for conflicts that all have both sides leaves
/// no path conflicted, and every conflicted path staged with its local blob.
/// Paths that were not conflicted keep what they had staged.
pub proof fn lemma_staging_clears_conflicts(index: IndexModel, conflicts: Seq<ConflictView>)
    requires
        both_sided(conflicts),
        distinct_paths(conflicts),
        conflicted_at(index, conflicts),
    ensures
        ({
            let after = after_staging_all(index, plan_of(conflicts).staged);
            &&& after.unmerged == Set::<Seq<char>>::empty()
            &&& forall|i: int|
                0 <= i < conflicts.len() ==> after.merged.dom().contains(
                    our_path(#[trigger] conflicts[i]),
                ) && after.merged[our_path(conflicts[i])] == conflicts[i].our->0.id
            &&& forall|p: Seq<char>|
                !(#[trigger] index.unmerged.contains(p)) ==> (after.merged.dom().contains(p)
                    <==> index.merged.dom().contains(p)) && after.merged[p] == index.merged[p]
        }),
{
    lemma_all_resolved(conflicts);
    let staged = plan_of(conflicts).staged;
    let after = after_staging_all(index, staged);
    assert forall|p: Seq<char>| !after.unmerged.contains(p) by {
        lemma_unmerged_after(index, staged, p);
        if index.unmerged.contains(p) {
            let i = choose|i: int| 0 <= i < conflicts.len() && our_path(#[trigger] conflicts[i]) == p;
            assert(staged[i] == conflicts[i].our->0);
            assert(staged[i].path == p);
        }
    }
    assert(after.unmerged =~= Set::<Seq<char>>::empty());
    assert forall|i: int| 0 <= i < conflicts.len() implies after.merged.dom().contains(
        our_path(#[trigger] conflicts[i]),
    ) && after.merged[our_path(conflicts[i])] == conflicts[i].our->0.id by {
        assert(staged[i] == conflicts[i].our->0);
        assert forall|k: int| i < k < staged.len() implies (#[trigger] staged[k]).path
            != staged[i].path by {
            assert(staged[k] == conflicts[k].our->0);
            assert(our_path(conflicts[i]) != our_path(conflicts[k]));
        }
        lemma_staged_last(index, staged, i);
    }
    assert forall|p: Seq<char>| !(#[trigger] index.unmerged.contains(p)) implies (
    after.merged.dom().contains(p) <==> index.merged.dom().contains(p)) && after.merged[p]
        == index.merged[p] by {
        assert forall|k: int| 0 <= k < staged.len() implies (#[trigger] staged[k]).path != p by {
            assert(staged[k] == conflicts[k].our->0);
            if our_path(conflicts[k]) == p {
                assert(index.unmerged.contains(p));
            }
        }
        lemma_unstaged_kept(index, staged, p);
    }
}

} // verus!
