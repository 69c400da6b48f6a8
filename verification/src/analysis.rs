//! How a local tip relates to a fetched tip, and what to do about it.
use vstd::prelude::*;
use crate::error::{FailureKind, SyncError};
use crate::ids::ObjectId;
use crate::trusted::git::{error_kind, error_message, merge_base};

verus! {

/// The relation between the local tip and the fetched tip.
#[derive(Debug, Clone, Copy, PartialEq, Eq, Structural)]
pub enum MergeAnalysis {
    /// The local history already contains the fetched tip.
    UpToDate,
    /// The fetched tip descends from the local tip.
    FastForward,
    /// Neither tip is an ancestor of the other.
    Normal,
}

/// What a sync does after the analysis.
#[derive(Debug, Clone, Copy, PartialEq, Eq, Structural)]
pub enum SyncAction {
    /// Nothing: the local branch is current.
    Nothing,
    /// Move the branch forward to the fetched tip.
    FastForward,
    /// Merge the two tips against their common ancestor.
    Merge,
    /// The histories are unrelated: local commits have to be replayed.
    Reconcile,
}

/// The result of analysing two tips: the relation, and the merge base it was read from.
#[derive(Debug, PartialEq, Eq)]
pub struct Analysis {
    /// How the tips relate.
    pub kind: MergeAnalysis,
    /// The common ancestor the engine found, if it was asked and found one.
    pub base: Option<ObjectId>,
}

/// The bytes of an optional identifier.
pub open spec fn id_view(id: Option<ObjectId>) -> Option<Seq<u8>> {
    match id {
        Some(i) => Some(i@),
        None => None,
    }
}

/// The relation of `local` to `remote`, given their merge base.
///
/// Equal tips are up to date whatever the base. Otherwise the tip that equals
/// the base is the older one; when neither does, the histories have diverged.
pub open spec fn classify(local: Seq<u8>, remote: Seq<u8>, base: Option<Seq<u8>>) -> MergeAnalysis {
    if local == remote || base == Some(remote) {
        MergeAnalysis::UpToDate
    } else if base == Some(local) {
        MergeAnalysis::FastForward
    } else {
        MergeAnalysis::Normal
    }
}

/// The action that follows from an analysis.
pub open spec fn select_action(kind: MergeAnalysis, has_base: bool) -> SyncAction {
    match kind {
        MergeAnalysis::UpToDate => SyncAction::Nothing,
        MergeAnalysis::FastForward => SyncAction::FastForward,
        MergeAnalysis::Normal => if has_base {
            SyncAction::Merge
        } else {
            SyncAction::Reconcile
        },
    }
}

/// Classifies two tips from their merge base.
pub fn classify_tips(local: &ObjectId, remote: &ObjectId, base: &Option<ObjectId>) -> (kind:
    MergeAnalysis)
    ensures
        kind == classify(local@, remote@, id_view(*base)),
{
    if local.same(remote) {
        return MergeAnalysis::UpToDate;
    }
    match base {
        Some(b) => {
            if b.same(remote) {
                MergeAnalysis::UpToDate
            } else if b.same(local) {
                MergeAnalysis::FastForward
            } else {
                MergeAnalysis::Normal
            }
        },
        None => MergeAnalysis::Normal,
    }
}

/// Picks the one action for a relation of two tips; see [`select_action`].
pub fn pick_action(kind: MergeAnalysis, has_base: bool) -> (action: SyncAction)
    ensures
        action == select_action(kind, has_base),
{
    match kind {
        MergeAnalysis::UpToDate => SyncAction::Nothing,
        MergeAnalysis::FastForward => SyncAction::FastForward,
        MergeAnalysis::Normal => {
            if has_base {
                SyncAction::Merge
            } else {
                SyncAction::Reconcile
            }
        },
    }
}

/// Picks the one action that an analysis calls for.
pub fn action_for(analysis: &Analysis) -> (action: SyncAction)
    ensures
        action == select_action(analysis.kind, analysis.base is Some),
{
    pick_action(analysis.kind, analysis.base.is_some())
}

/// Classifies the local tip against the fetched tip.
///
/// Equal tips are up to date without a look at the repository. Otherwise the
/// engine is asked for the merge base, and the answer is classified by
/// [`classify`]; that the tips share no ancestor is an answer, not a failure.
/// Nothing in the repository is changed.
pub fn analyze(repo: &git2::Repository, local: &ObjectId, remote: &ObjectId) -> (r: Result<
    Analysis,
    SyncError,
>)
    ensures
        local@ == remote@ ==> r == Ok::<Analysis, SyncError>(
            Analysis { kind: MergeAnalysis::UpToDate, base: None },
        ),
        r matches Ok(a) ==> a.kind == classify(local@, remote@, id_view(a.base)),
        r matches Err(e) ==> e is Engine,
{
    if local.same(remote) {
        return Ok(Analysis { kind: MergeAnalysis::UpToDate, base: None });
    }
    let base = match merge_base(repo, local, remote) {
        Ok(id) => Some(id),
        Err(e) => {
            if error_kind(&e) == FailureKind::NotFound {
                None
            } else {
                return Err(SyncError::Engine { message: error_message(&e) });
            }
        },
    };
    let kind = classify_tips(local, remote, &base);
    Ok(Analysis { kind, base })
}

/// Whether `to` is reached from `from` by following at most `steps` parent links.
pub open spec fn reaches(
    history: Map<Seq<u8>, Seq<Seq<u8>>>,
    from: Seq<u8>,
    to: Seq<u8>,
    steps: nat,
) -> bool
    decreases steps,
{
    from == to || (steps > 0 && history.dom().contains(from) && exists|i: int|
        0 <= i < history[from].len() && #[trigger] reaches(
            history,
            history[from][i],
            to,
            (steps - 1) as nat,
        ))
}

/// Whether `older` lies in the ancestry of `newer`. Every commit is its own ancestor.
pub open spec fn is_ancestor(
    history: Map<Seq<u8>, Seq<Seq<u8>>>,
    older: Seq<u8>,
    newer: Seq<u8>,
) -> bool {
    exists|steps: nat| reaches(history, newer, older, steps)
}

/// Whether `c` lies in the ancestry of both `x` and `y`.
pub open spec fn is_common_ancestor(
    history: Map<Seq<u8>, Seq<Seq<u8>>>,
    c: Seq<u8>,
    x: Seq<u8>,
    y: Seq<u8>,
) -> bool {
    is_ancestor(history, c, x) && is_ancestor(history, c, y)
}

/// Whether `m` is a merge base of `x` and `y`: a common ancestor that is not
/// itself an ancestor of another common ancestor.
pub open spec fn is_merge_base(
    history: Map<Seq<u8>, Seq<Seq<u8>>>,
    m: Seq<u8>,
    x: Seq<u8>,
    y: Seq<u8>,
) -> bool {
    &&& is_common_ancestor(history, m, x, y)
    &&& forall|c: Seq<u8>|
        #[trigger] is_common_ancestor(history, c, x, y) && is_ancestor(history, m, c) ==> c == m
}

/// Where one tip is an ancestor of the other, the older tip is their only merge base.
pub proof fn lemma_merge_base_of_ancestor(
    history: Map<Seq<u8>, Seq<Seq<u8>>>,
    older: Seq<u8>,
    newer: Seq<u8>,
    m: Seq<u8>,
)
    requires
        is_ancestor(history, older, newer),
        is_merge_base(history, m, older, newer) || is_merge_base(history, m, newer, older),
    ensures
        m == older,
{
    assert(reaches(history, older, older, 0));
    assert(is_ancestor(history, older, older));
    assert(is_common_ancestor(history, older, older, newer));
    assert(is_common_ancestor(history, older, newer, older));
}

/// A tip that is a proper ancestor of the fetched tip can be fast-forwarded
/// to it; in the other direction the local tip already contains the fetched
/// one, so the analysis is up to date and never a fast-forward.
pub proof fn lemma_ancestor_fast_forwards(
    history: Map<Seq<u8>, Seq<Seq<u8>>>,
    a: Seq<u8>,
    b: Seq<u8>,
    base_ab: Seq<u8>,
    base_ba: Seq<u8>,
)
    requires
        is_ancestor(history, a, b),
        a != b,
        is_merge_base(history, base_ab, a, b),
        is_merge_base(history, base_ba, b, a),
    ensures
        classify(a, b, Some(base_ab)) == MergeAnalysis::FastForward,
        classify(b, a, Some(base_ba)) == MergeAnalysis::UpToDate,
{
    lemma_merge_base_of_ancestor(history, a, b, base_ab);
    lemma_merge_base_of_ancestor(history, a, b, base_ba);
}

/// A tip compared with itself is up to date, whatever merge base is reported.
pub proof fn lemma_same_tip_up_to_date(a: Seq<u8>, base: Option<Seq<u8>>)
    ensures
        classify(a, a, base) == MergeAnalysis::UpToDate,
{
}

/// Tips of which neither is an ancestor of the other have diverged.
pub proof fn lemma_diverged_is_normal(
    history: Map<Seq<u8>, Seq<Seq<u8>>>,
    a: Seq<u8>,
    b: Seq<u8>,
    base: Option<Seq<u8>>,
)
    requires
        !is_ancestor(history, a, b),
        !is_ancestor(history, b, a),
        base matches Some(m) ==> is_merge_base(history, m, a, b),
    ensures
        classify(a, b, base) == MergeAnalysis::Normal,
{
    assert(reaches(history, a, a, 0));
    assert(is_ancestor(history, a, a));
}

} // verus!
