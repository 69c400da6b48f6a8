//! References, HEAD and working tree under a fast-forward, and a branch
//! under a replay.
//!
//! The model states how this library reads the engine's operations: moving a
//! branch changes one reference, a forced checkout makes the working tree
//! hold the commit HEAD resolves to, and an aborted replay puts everything
//! back.
use vstd::prelude::*;
use crate::names::branch_ref;
use crate::reconcile::{replay_decision, ReplayDecision};
use crate::sync::{fast_forward_steps, StepView};

verus! {

/// Where HEAD points.
pub enum HeadModel {
    /// At a branch, by its full name.
    Attached(Seq<char>),
    /// At a commit.
    Detached(Seq<u8>),
}

/// References, HEAD and working tree of a repository.
pub struct RepoModel {
    /// The commit each reference points at, by full name.
    pub refs: Map<Seq<char>, Seq<u8>>,
    /// Where HEAD points.
    pub head: HeadModel,
    /// The commit whose tree index and working tree hold.
    pub checked_out: Option<Seq<u8>>,
}

/// The commit HEAD resolves to, if any.
pub open spec fn head_commit(repo: RepoModel) -> Option<Seq<u8>> {
    match repo.head {
        HeadModel::Attached(name) => if repo.refs.dom().contains(name) {
            Some(repo.refs[name])
        } else {
            None
        },
        HeadModel::Detached(id) => Some(id),
    }
}

/// The repository after one step.
pub open spec fn after_step(repo: RepoModel, step: StepView) -> RepoModel {
    match step {
        StepView::MoveBranch { refname, target, log } => RepoModel {
            refs: repo.refs.insert(refname, target),
            ..repo
        },
        StepView::AttachHead { refname } => RepoModel { head: HeadModel::Attached(refname), ..repo },
        StepView::ForceCheckout => RepoModel { checked_out: head_commit(repo), ..repo },
        StepView::DetachHead { target } => RepoModel { head: HeadModel::Detached(target), ..repo },
    }
}

/// The repository after a list of steps, taken in order.
pub open spec fn after_steps(repo: RepoModel, steps: Seq<StepView>) -> RepoModel
    decreases steps.len(),
{
    if steps.len() == 0 {
        repo
    } else {
        after_step(after_steps(repo, steps.drop_last()), steps.last())
    }
}

/// Fast-forwarding an existing branch to a commit leaves the branch at that
/// commit, HEAD on the branch, and index and working tree holding that
/// commit's tree. No other reference moves.
pub proof fn lemma_fast_forward_reaches_target(
    repo: RepoModel,
    branch: Seq<char>,
    target: Seq<u8>,
)
    ensures
        ({
            let after = after_steps(repo, fast_forward_steps(true, branch, target));
            &&& after.refs.dom().contains(branch_ref(branch))
            &&& after.refs[branch_ref(branch)] == target
            &&& after.head == HeadModel::Attached(branch_ref(branch))
            &&& head_commit(after) == Some(target)
            &&& after.checked_out == Some(target)
            &&& forall|name: Seq<char>|
                name != branch_ref(branch) ==> (after.refs.dom().contains(name)
                    <==> repo.refs.dom().contains(name)) && after.refs[name] == repo.refs[name]
        }),
{
    let steps = fast_forward_steps(true, branch, target);
    let s2 = steps.drop_last();
    let s1 = s2.drop_last();
    let s0 = s1.drop_last();
    assert(s0.len() == 0);
    assert(s1.last() == steps[0]);
    assert(s2.last() == steps[1]);
    assert(steps.last() == steps[2]);
    let m1 = after_steps(repo, s1);
    assert(after_steps(repo, s0) == repo);
    assert(m1 == after_step(repo, steps[0]));
    let m2 = after_steps(repo, s2);
    assert(m2 == after_step(m1, steps[1]));
}

/// Where no branch of the name exists, a fast-forward puts HEAD at the commit
/// itself; references and working tree stay as they were.
pub proof fn lemma_fast_forward_without_branch(repo: RepoModel, branch: Seq<char>, target: Seq<u8>)
    ensures
        ({
            let after = after_steps(repo, fast_forward_steps(false, branch, target));
            &&& after.head == HeadModel::Detached(target)
            &&& head_commit(after) == Some(target)
            &&& after.refs == repo.refs
            &&& after.checked_out == repo.checked_out
        }),
{
    let steps = fast_forward_steps(false, branch, target);
    assert(steps.drop_last().len() == 0);
    assert(after_steps(repo, steps.drop_last()) == repo);
}

/// A replay in progress.
pub struct ReplayModel {
    /// The tip of the branch being replayed.
    pub branch_tip: Seq<u8>,
    /// The commit the replay has got to.
    pub replayed_tip: Seq<u8>,
    /// The commit whose tree index and working tree hold.
    pub checked_out: Seq<u8>,
    /// Whether the replay is over, one way or the other.
    pub over: bool,
    /// Whether it ended by being given up.
    pub aborted: bool,
    /// Whether HEAD points at the branch. While commits are replayed it
    /// points at the replayed tip instead.
    pub head_attached: bool,
}

/// One replayed commit: whether applying it conflicted, and the commit that
/// records it if it did not.
pub struct ReplayedCommit {
    pub conflicted: bool,
    pub recorded_as: Seq<u8>,
}

/// A replay of the branch at `branch_tip` onto `onto`, before its first step.
pub open spec fn replay_begun(branch_tip: Seq<u8>, onto: Seq<u8>) -> ReplayModel {
    ReplayModel {
        branch_tip,
        replayed_tip: onto,
        checked_out: onto,
        over: false,
        aborted: false,
        head_attached: false,
    }
}

/// The replay after one applied commit was judged by the library's rule:
/// recorded, it becomes the replayed tip; conflicted, the replay is given up:
/// HEAD is back on the branch, and index and working tree go back to the
/// branch tip, which never moved.
pub open spec fn after_replayed(replay: ReplayModel, commit: ReplayedCommit) -> ReplayModel {
    if replay.over {
        replay
    } else {
        match replay_decision(commit.conflicted) {
            ReplayDecision::Record => ReplayModel {
                replayed_tip: commit.recorded_as,
                checked_out: commit.recorded_as,
                ..replay
            },
            ReplayDecision::AbortAndFail => ReplayModel {
                checked_out: replay.branch_tip,
                over: true,
                aborted: true,
                head_attached: true,
                ..replay
            },
        }
    }
}

/// The replay after all of `commits` were applied in order, and finished
/// where none of them ended it: the branch then moves to the replayed tip,
/// with HEAD on it.
pub open spec fn after_replay(begun: ReplayModel, commits: Seq<ReplayedCommit>) -> ReplayModel {
    let last = commits.fold_left(
        begun,
        |r: ReplayModel, c: ReplayedCommit| after_replayed(r, c),
    );
    if last.over {
        last
    } else {
        ReplayModel { branch_tip: last.replayed_tip, over: true, head_attached: true, ..last }
    }
}

/// Whether the branch is given its upstream after a replay: only where the
/// replay went through. A replay that was given up ends the reconciliation
/// before the upstream is set.
pub open spec fn upstream_set_after(end: ReplayModel) -> bool {
    !end.aborted
}

proof fn lemma_over_stays(replay: ReplayModel, commits: Seq<ReplayedCommit>)
    requires
        replay.over,
    ensures
        commits.fold_left(replay, |r: ReplayModel, c: ReplayedCommit| after_replayed(r, c))
            == replay,
    decreases commits.len(),
{
    if commits.len() > 0 {
        lemma_over_stays(replay, commits.drop_last());
    }
}

proof fn lemma_replay_keeps_branch(begun: ReplayModel, commits: Seq<ReplayedCommit>)
    requires
        !begun.over,
        !begun.aborted,
    ensures
        ({
            let last = commits.fold_left(
                begun,
                |r: ReplayModel, c: ReplayedCommit| after_replayed(r, c),
            );
            &&& last.branch_tip == begun.branch_tip
            &&& last.over == last.aborted
            &&& last.aborted ==> last.checked_out == begun.branch_tip
            &&& last.aborted ==> last.head_attached
            &&& last.aborted <==> exists|i: int|
                0 <= i < commits.len() && (#[trigger] commits[i]).conflicted
        }),
    decreases commits.len(),
{
    if commits.len() > 0 {
        let front = commits.drop_last();
        lemma_replay_keeps_branch(begun, front);
        let mid = front.fold_left(begun, |r: ReplayModel, c: ReplayedCommit| after_replayed(r, c));
        let last = commits.fold_left(
            begun,
            |r: ReplayModel, c: ReplayedCommit| after_replayed(r, c),
        );
        assert(last == after_replayed(mid, commits.last()));
        if mid.aborted {
            let i = choose|i: int| 0 <= i < front.len() && (#[trigger] front[i]).conflicted;
            assert(commits[i] == front[i]);
        } else if commits.last().conflicted {
            assert(commits[commits.len() - 1].conflicted);
        } else {
            assert forall|i: int| 0 <= i < commits.len() implies !(#[trigger] commits[i]).conflicted by {
                if i < front.len() {
                    assert(commits[i] == front[i]);
                }
            }
        }
    }
}

/// If any replayed commit conflicts, the replay ends given up: none is left
/// in progress, HEAD is on the branch, the branch tip is the one from before
/// the operation, index and working tree hold it again, and no upstream is
/// set.
pub proof fn lemma_conflict_rolls_back(
    branch_tip: Seq<u8>,
    onto: Seq<u8>,
    commits: Seq<ReplayedCommit>,
)
    requires
        exists|i: int| 0 <= i < commits.len() && (#[trigger] commits[i]).conflicted,
    ensures
        ({
            let end = after_replay(replay_begun(branch_tip, onto), commits);
            &&& end.aborted
            &&& end.over
            &&& end.head_attached
            &&& end.branch_tip == branch_tip
            &&& end.checked_out == branch_tip
            &&& !upstream_set_after(end)
        }),
{
    lemma_replay_keeps_branch(replay_begun(branch_tip, onto), commits);
}

/// If no replayed commit conflicts, the branch ends at the last recorded
/// commit, or at the commit it was replayed onto where there was none.
pub proof fn lemma_clean_replay_lands(
    branch_tip: Seq<u8>,
    onto: Seq<u8>,
    commits: Seq<ReplayedCommit>,
)
    requires
        forall|i: int| 0 <= i < commits.len() ==> !(#[trigger] commits[i]).conflicted,
    ensures
        ({
            let end = after_replay(replay_begun(branch_tip, onto), commits);
            &&& !end.aborted
            &&& end.branch_tip == if commits.len() == 0 {
                onto
            } else {
                commits.last().recorded_as
            }
            &&& end.checked_out == end.branch_tip
        }),
{
    let begun = replay_begun(branch_tip, onto);
    lemma_replay_keeps_branch(begun, commits);
    if commits.len() > 0 {
        let front = commits.drop_last();
        lemma_replay_keeps_branch(begun, front);
        let mid = front.fold_left(begun, |r: ReplayModel, c: ReplayedCommit| after_replayed(r, c));
        if mid.aborted {
            let i = choose|i: int| 0 <= i < front.len() && (#[trigger] front[i]).conflicted;
            assert(commits[i] == front[i]);
        }
        assert(!commits[commits.len() - 1].conflicted);
    } else {
    }
}

} // verus!
