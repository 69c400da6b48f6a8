//! Bringing the local branch up to date with a remote: fetch, analyse, act.
use vstd::prelude::*;
use crate::analysis::{
    analyze,
    classify,
    classify_tips,
    id_view,
    pick_action,
    select_action,
    SyncAction,
};
use crate::commit::{submit, CommitRequest, RequestView};
use crate::conflicts::{
    carries_blobs,
    check_resolved,
    resolve_conflicts_ours,
    FileWrite,
    Resolution,
};
use crate::credentials::KeyDirectory;
use crate::error::{interrupted, lift, Precondition, SyncError};
use crate::ids::{id_views, ObjectId};
use crate::names::{
    branch_ref,
    branch_ref_name,
    fast_forward_log,
    make_fast_forward_log,
    make_merge_message,
    merge_message,
};
use crate::text::{text_view, text_views};
use crate::transport::{fetch, has_remote};
use crate::trusted::git::{
    annotated_commit,
    annotated_id,
    checkout_head,
    commit_tree,
    find_commit,
    find_reference,
    index_has_conflicts,
    index_write_tree_to,
    merge_trees,
    reference_set_target,
    reference_shorthand,
    repo_head,
    set_head,
    set_head_detached,
};

verus! {

/// How a checkout treats files that differ from the target.
#[derive(Debug, Clone, Copy, PartialEq, Eq, Structural)]
pub enum CheckoutMode {
    /// Make the working tree match, discarding local modifications.
    Force,
    /// Create missing files but never overwrite a modified one.
    Safe,
}

/// The occasions on which HEAD is checked out.
#[derive(Debug, Clone, Copy, PartialEq, Eq, Structural)]
pub enum CheckoutOccasion {
    /// A merge commit was made and HEAD moved onto it.
    AfterMerge,
    /// A local branch was created at the remote tip of a freshly linked remote.
    FirstLink,
    /// HEAD was moved to another branch on the user's request.
    BranchSwitch,
}

/// How HEAD is checked out on each occasion. Where the library itself moved
/// HEAD onto a commit it just made or fetched, the working tree is forced to
/// match it. A switch between the user's branches is safe: it never
/// overwrites a modified file.
pub open spec fn checkout_mode_for(occasion: CheckoutOccasion) -> CheckoutMode {
    match occasion {
        CheckoutOccasion::AfterMerge => CheckoutMode::Force,
        CheckoutOccasion::FirstLink => CheckoutMode::Force,
        CheckoutOccasion::BranchSwitch => CheckoutMode::Safe,
    }
}

/// One change to references, HEAD or the working tree.
#[derive(Debug, PartialEq, Eq)]
pub enum RefStep {
    /// Point the named branch at `target`, noting `log` in its reflog.
    MoveBranch { refname: String, target: ObjectId, log: String },
    /// Make HEAD point at the named branch.
    AttachHead { refname: String },
    /// Make index and working tree match the commit HEAD resolves to,
    /// discarding whatever differs.
    ForceCheckout,
    /// Make HEAD point at `target` directly.
    DetachHead { target: ObjectId },
}

/// A step as plain mathematical values.
pub enum StepView {
    MoveBranch { refname: Seq<char>, target: Seq<u8>, log: Seq<char> },
    AttachHead { refname: Seq<char> },
    ForceCheckout,
    DetachHead { target: Seq<u8> },
}

impl View for RefStep {
    type V = StepView;

    open spec fn view(&self) -> StepView {
        match self {
            RefStep::MoveBranch { refname, target, log } => StepView::MoveBranch {
                refname: refname@,
                target: target@,
                log: log@,
            },
            RefStep::AttachHead { refname } => StepView::AttachHead { refname: refname@ },
            RefStep::ForceCheckout => StepView::ForceCheckout,
            RefStep::DetachHead { target } => StepView::DetachHead { target: target@ },
        }
    }
}

/// The views of a list of steps.
pub open spec fn step_views(steps: Seq<RefStep>) -> Seq<StepView> {
    steps.map_values(|s: RefStep| s@)
}

/// What a fast-forward did.
#[derive(Debug, PartialEq, Eq)]
pub struct FastForwardOutcome {
    /// Whether the local branch existed.
    pub branch_found: bool,
    /// The steps that were performed, in order.
    pub steps: Vec<RefStep>,
}

/// What a three-way merge did.
#[derive(Debug, PartialEq, Eq)]
pub struct MergeOutcome {
    /// The merge commit.
    pub commit: ObjectId,
    /// The branch HEAD was on, `HEAD` where it has no readable name.
    pub branch: String,
    /// What the engine was asked to commit.
    pub request: CommitRequest,
    /// How conflicts were resolved, if the merged tree had any. Its restores
    /// are on disk already, put there by the checkout of the merge commit;
    /// its artifacts are still to be written.
    pub resolution: Option<Resolution>,
    /// How the merge commit was checked out.
    pub checkout: CheckoutMode,
}

impl MergeOutcome {
    /// Whether this is the outcome of merging `remote` into `local`: the
    /// commit request is the one of [`merge_request_of`] for the two tips, a
    /// resolution, where there is one, follows its plan, and the merge commit
    /// was checked out by force.
    pub open spec fn merges(&self, local: Seq<u8>, remote: Seq<u8>, remote_name: Seq<char>) -> bool {
        &&& self.request@ == merge_request_of(
            local,
            remote,
            self.request.tree@,
            remote_name,
            self.branch@,
        )
        &&& self.resolution matches Some(resolution) ==> resolution.follows_plan()
        &&& self.checkout == CheckoutMode::Force
    }
}

/// The two tips a pull compared, and the merge base the engine reported for them.
#[derive(Debug, PartialEq, Eq)]
pub struct Compared {
    /// The commit HEAD pointed at, if it pointed at one.
    pub local: Option<ObjectId>,
    /// The fetched tip.
    pub remote: ObjectId,
    /// The merge base of the two, if they have one and the engine was asked.
    pub base: Option<ObjectId>,
}

/// What a pull did.
#[derive(Debug, PartialEq, Eq)]
pub enum PullOutcome {
    /// The remote is not configured; nothing was fetched.
    NoRemote,
    /// The local history already contains the fetched tip.
    UpToDate { compared: Compared },
    /// The branch was moved forward to the fetched tip.
    FastForwarded { compared: Compared, outcome: FastForwardOutcome },
    /// The fetched tip was merged into the local tip.
    Merged { compared: Compared, outcome: MergeOutcome },
}

/// The action for a fetched tip: without a local commit there is nothing to
/// merge and the branch goes to the fetched tip; otherwise the analysis of
/// the two tips decides.
pub open spec fn action_of(local: Option<Seq<u8>>, remote: Seq<u8>, base: Option<Seq<u8>>) -> SyncAction {
    match local {
        None => SyncAction::FastForward,
        Some(l) => select_action(classify(l, remote, base), base is Some),
    }
}

impl Compared {
    /// The action that follows from this comparison.
    pub open spec fn action(&self) -> SyncAction {
        action_of(id_view(self.local), self.remote@, id_view(self.base))
    }
}

impl PullOutcome {
    /// The comparison the outcome rests on, if tips were compared.
    pub open spec fn compared(&self) -> Option<Compared> {
        match self {
            PullOutcome::NoRemote => None,
            PullOutcome::UpToDate { compared } => Some(*compared),
            PullOutcome::FastForwarded { compared, outcome } => Some(*compared),
            PullOutcome::Merged { compared, outcome } => Some(*compared),
        }
    }

    /// The remote versions that a merge kept and that are still to be written.
    pub open spec fn pending_artifacts(&self) -> Seq<FileWrite> {
        match self {
            PullOutcome::Merged { compared, outcome } => match outcome.resolution {
                Some(resolution) => resolution.artifacts@,
                None => Seq::empty(),
            },
            _ => Seq::empty(),
        }
    }

    /// Whether the outcome is what a pull of `branch` from `remote_name` owes
    /// for the tips it compared: the one action that [`action_of`] selects,
    /// carried out as planned.
    pub open spec fn follows(&self, remote_name: Seq<char>, branch: Seq<char>) -> bool {
        match self {
            PullOutcome::NoRemote => true,
            PullOutcome::UpToDate { compared } => compared.action() == SyncAction::Nothing,
            PullOutcome::FastForwarded { compared, outcome } => {
                &&& compared.action() == SyncAction::FastForward
                &&& step_views(outcome.steps@) == fast_forward_steps(
                    outcome.branch_found,
                    branch,
                    compared.remote@,
                )
            },
            PullOutcome::Merged { compared, outcome } => {
                &&& compared.action() == SyncAction::Merge
                &&& compared.local matches Some(local) && outcome.merges(
                    local@,
                    compared.remote@,
                    remote_name,
                )
            },
        }
    }
}

/// The steps of a fast-forward of `branch` to `target`.
///
/// An existing branch is moved to the target, HEAD is attached to it, and
/// index and working tree are reset to it. Without the branch, HEAD is
/// detached onto the target and nothing else is touched.
pub open spec fn fast_forward_steps(branch_found: bool, branch: Seq<char>, target: Seq<u8>) -> Seq<
    StepView,
> {
    if branch_found {
        seq![
            StepView::MoveBranch {
                refname: branch_ref(branch),
                target,
                log: fast_forward_log(branch_ref(branch), target),
            },
            StepView::AttachHead { refname: branch_ref(branch) },
            StepView::ForceCheckout,
        ]
    } else {
        seq![StepView::DetachHead { target }]
    }
}

/// The commit that merges `remote` into `local`: its parents are the local and
/// the fetched tip, in this order, and it moves HEAD.
pub open spec fn merge_request_of(
    local: Seq<u8>,
    remote: Seq<u8>,
    tree: Seq<u8>,
    remote_name: Seq<char>,
    branch: Seq<char>,
) -> RequestView {
    RequestView {
        update_ref: Some("HEAD"@),
        message: merge_message(remote_name, branch),
        tree,
        parents: seq![local, remote],
    }
}

/// How HEAD is checked out on an occasion; see [`checkout_mode_for`].
pub fn checkout_mode(occasion: CheckoutOccasion) -> (mode: CheckoutMode)
    ensures
        mode == checkout_mode_for(occasion),
{
    match occasion {
        CheckoutOccasion::AfterMerge => CheckoutMode::Force,
        CheckoutOccasion::FirstLink => CheckoutMode::Force,
        CheckoutOccasion::BranchSwitch => CheckoutMode::Safe,
    }
}

/// How a merge commit is checked out: by force, so that index and working
/// tree hold exactly its tree.
pub fn merge_checkout() -> (mode: CheckoutMode)
    ensures
        mode == CheckoutMode::Force,
{
    checkout_mode(CheckoutOccasion::AfterMerge)
}

/// Plans a fast-forward; see [`fast_forward_steps`].
pub fn plan_fast_forward(branch_found: bool, branch: &str, target: &ObjectId) -> (steps: Vec<
    RefStep,
>)
    ensures
        step_views(steps@) == fast_forward_steps(branch_found, branch@, target@),
{
    let mut steps: Vec<RefStep> = Vec::new();
    if branch_found {
        let refname = branch_ref_name(branch);
        let log = make_fast_forward_log(refname.as_str(), target);
        steps.push(RefStep::MoveBranch { refname: refname.clone(), target: target.clone(), log });
        steps.push(RefStep::AttachHead { refname });
        steps.push(RefStep::ForceCheckout);
    } else {
        steps.push(RefStep::DetachHead { target: target.clone() });
    }
    assert(step_views(steps@) =~= fast_forward_steps(branch_found, branch@, target@));
    steps
}

/// Plans the merge commit; see [`merge_request_of`].
pub fn merge_request(
    local: &ObjectId,
    remote: &ObjectId,
    tree: ObjectId,
    remote_name: &str,
    branch: &str,
) -> (request: CommitRequest)
    ensures
        request@ == merge_request_of(local@, remote@, tree@, remote_name@, branch@),
        request.parents@.len() == 2,
{
    let mut parents: Vec<ObjectId> = Vec::new();
    parents.push(local.clone());
    parents.push(remote.clone());
    assert(id_views(parents@) =~= seq![local@, remote@]);
    CommitRequest {
        update_ref: Some(String::from_str("HEAD")),
        message: make_merge_message(remote_name, branch),
        tree,
        parents,
    }
}

/// Has the engine perform one step.
pub fn apply_step(repo: &git2::Repository, step: &RefStep) -> (r: Result<(), SyncError>)
    ensures
        r matches Err(e) ==> e is Engine,
{
    match step {
        RefStep::MoveBranch { refname, target, log } => {
            let mut reference = lift(find_reference(repo, refname.as_str()))?;
            lift(reference_set_target(&mut reference, target, log.as_str()))
        },
        RefStep::AttachHead { refname } => lift(set_head(repo, refname.as_str())),
        RefStep::ForceCheckout => lift(checkout_head(repo, CheckoutMode::Force)),
        RefStep::DetachHead { target } => lift(set_head_detached(repo, target)),
    }
}

/// Moves `branch` forward to `target` with no merge.
///
/// The steps are those of [`fast_forward_steps`] for whether the branch
/// exists, performed in order; the first that fails ends the operation with
/// the engine's failure, and nothing is undone.
pub fn fast_forward(repo: &git2::Repository, branch: &str, target: &ObjectId) -> (r: Result<
    FastForwardOutcome,
    SyncError,
>)
    ensures
        r matches Ok(done) ==> step_views(done.steps@) == fast_forward_steps(
            done.branch_found,
            branch@,
            target@,
        ),
        r matches Err(e) ==> e is Engine,
{
    let refname = branch_ref_name(branch);
    let branch_found = find_reference(repo, refname.as_str()).is_ok();
    let steps = plan_fast_forward(branch_found, branch, target);
    let mut i: usize = 0;
    while i < steps.len()
        invariant
            i <= steps.len(),
        decreases steps.len() - i,
    {
        apply_step(repo, &steps[i])?;
        i += 1;
    }
    Ok(FastForwardOutcome { branch_found, steps })
}

/// The name a branch goes by: its short name, `HEAD` where it has none to read.
pub open spec fn branch_or_head(shorthand: Option<Seq<char>>) -> Seq<char> {
    match shorthand {
        Some(name) => name,
        None => "HEAD"@,
    }
}

/// The name a branch goes by; see [`branch_or_head`].
pub fn head_branch_name(shorthand: Option<String>) -> (name: String)
    ensures
        name@ == branch_or_head(text_view(shorthand)),
{
    match shorthand {
        Some(name) => name,
        None => String::from_str("HEAD"),
    }
}

/// The short name of the branch HEAD is on, `HEAD` where there is none to read.
pub fn current_branch_or_head(repo: &git2::Repository) -> (r: Result<String, SyncError>)
    ensures
        r matches Err(e) ==> e is Engine,
{
    let head = lift(repo_head(repo))?;
    Ok(head_branch_name(reference_shorthand(&head)))
}

/// What making the merge commit came to.
struct MergeCommit {
    commit: ObjectId,
    branch: String,
    request: CommitRequest,
    checkout: CheckoutMode,
}

/// Writes the merged index as a tree, commits it with the two tips as
/// parents and checks the commit out.
fn commit_merge(
    repo: &git2::Repository,
    index: &mut git2::Index,
    local: &ObjectId,
    remote: &ObjectId,
    remote_name: &str,
) -> (r: Result<MergeCommit, SyncError>)
    ensures
        r matches Ok(made) ==> made.request@ == merge_request_of(
            local@,
            remote@,
            made.request.tree@,
            remote_name@,
            made.branch@,
        ) && made.checkout == CheckoutMode::Force,
        r matches Err(e) ==> e is Engine,
{
    let tree = lift(index_write_tree_to(index, repo))?;
    let branch = current_branch_or_head(repo)?;
    let request = merge_request(local, remote, tree, remote_name, branch.as_str());
    let commit = submit(repo, &request)?;
    let checkout = merge_checkout();
    lift(checkout_head(repo, checkout))?;
    Ok(MergeCommit { commit, branch, request, checkout })
}

/// Merges the fetched tip into the local tip against their common ancestor.
///
/// The three trees are merged in memory. Where the result has conflicts they
/// are resolved in favour of the local side by
/// [`resolve_conflicts_ours`]; the merged index is then written as a tree and
/// committed with the two tips as parents, HEAD moves to the new commit, and
/// index and working tree are reset to it, which puts the local version of
/// every resolved path on disk. The `.theirs` files of a resolution are not
/// written here: they come back to the caller, in the outcome where the merge
/// stands, and with the failure where a step after the resolution failed.
///
/// A conflict without a local side is not resolved. Where the resolution
/// leaves any, [`check_resolved`] stops the merge before anything is
/// committed, with their paths.
///
/// On success the commit request is the one of [`merge_request_of`]: exactly
/// two parents, the local tip first and the fetched tip second.
pub fn three_way_merge(
    repo: &git2::Repository,
    local: &ObjectId,
    remote: &ObjectId,
    base: &ObjectId,
    remote_name: &str,
) -> (r: Result<MergeOutcome, SyncError>)
    ensures
        r matches Ok(done) ==> done.merges(local@, remote@, remote_name@) && (
        done.resolution matches Some(resolution) ==> resolution.plan@.unresolved.len() == 0),
        r matches Err(e) ==> e is Engine || e is Unresolved || e is Interrupted,
        r matches Err(SyncError::Unresolved { paths }) ==> paths@.len() > 0,
        r matches Err(SyncError::Interrupted { cause, artifacts }) ==> *cause is Engine
            && artifacts@.len() > 0 && carries_blobs(artifacts@),
{
    let base_commit = lift(find_commit(repo, base))?;
    let our_commit = lift(find_commit(repo, local))?;
    let their_commit = lift(find_commit(repo, remote))?;
    let base_tree = lift(commit_tree(&base_commit))?;
    let our_tree = lift(commit_tree(&our_commit))?;
    let their_tree = lift(commit_tree(&their_commit))?;
    let mut index = lift(merge_trees(repo, &base_tree, &our_tree, &their_tree))?;
    let resolution = if index_has_conflicts(&index) {
        let resolution = resolve_conflicts_ours(repo, &mut index)?;
        match check_resolved(&resolution.plan) {
            Ok(()) => {},
            Err(e) => {
                proof {
                    let paths = e->Unresolved_paths;
                    assert(text_views(paths@).len() == paths@.len());
                }
                return Err(e);
            },
        }
        Some(resolution)
    } else {
        None
    };
    match commit_merge(repo, &mut index, local, remote, remote_name) {
        Ok(made) => Ok(
            MergeOutcome {
                commit: made.commit,
                branch: made.branch,
                request: made.request,
                resolution,
                checkout: made.checkout,
            },
        ),
        Err(cause) => {
            let artifacts = match resolution {
                Some(resolution) => resolution.artifacts,
                None => Vec::new(),
            };
            Err(interrupted(cause, artifacts))
        },
    }
}

/// The commit a reference points at.
pub fn tip_of(repo: &git2::Repository, reference: &git2::Reference<'_>) -> (r: Result<
    ObjectId,
    SyncError,
>)
    ensures
        r matches Err(e) ==> e is Engine,
{
    let commit = lift(annotated_commit(repo, reference))?;
    Ok(annotated_id(&commit))
}

/// The action for a comparison; see [`action_of`].
pub fn decide_action(compared: &Compared) -> (action: SyncAction)
    ensures
        action == compared.action(),
{
    match &compared.local {
        None => SyncAction::FastForward,
        Some(local) => pick_action(
            classify_tips(local, &compared.remote, &compared.base),
            compared.base.is_some(),
        ),
    }
}

/// Carries out the one action that a comparison of tips calls for.
///
/// - The local history contains the fetched tip: nothing is done, and that is
///   the outcome, owed without a look at the repository.
/// - There is no local commit yet, or the fetched tip descends from the local
///   one: [`fast_forward`].
/// - The histories diverged from a common ancestor: [`three_way_merge`].
/// - The histories share no commit: the failure that names it, owed without
///   a look at the repository, since only a replay of the local commits can
///   join them.
///
/// The outcome names the comparison it was given.
pub fn act_on(repo: &git2::Repository, remote_name: &str, branch: &str, compared: Compared) -> (r:
    Result<PullOutcome, SyncError>)
    ensures
        compared.action() == SyncAction::Reconcile <==> r == Err::<PullOutcome, SyncError>(
            SyncError::Precondition(Precondition::NoCommonAncestor),
        ),
        compared.action() == SyncAction::Nothing ==> r == Ok::<PullOutcome, SyncError>(
            PullOutcome::UpToDate { compared },
        ),
        r matches Ok(done) ==> done.follows(remote_name@, branch@) && done.compared() == Some(
            compared,
        ),
        r matches Err(e) ==> (e is Engine || e is Unresolved || e is Interrupted || e
            == SyncError::Precondition(Precondition::NoCommonAncestor)),
        r matches Err(SyncError::Interrupted { cause, artifacts }) ==> artifacts@.len() > 0
            && carries_blobs(artifacts@),
{
    match decide_action(&compared) {
        SyncAction::Nothing => Ok(PullOutcome::UpToDate { compared }),
        SyncAction::FastForward => {
            let outcome = fast_forward(repo, branch, &compared.remote)?;
            Ok(PullOutcome::FastForwarded { compared, outcome })
        },
        SyncAction::Merge => {
            let outcome = match (&compared.local, &compared.base) {
                (Some(local), Some(base)) => three_way_merge(
                    repo,
                    local,
                    &compared.remote,
                    base,
                    remote_name,
                )?,
                _ => {
                    return Err(SyncError::Precondition(Precondition::NoCommonAncestor));
                },
            };
            Ok(PullOutcome::Merged { compared, outcome })
        },
        SyncAction::Reconcile => Err(SyncError::Precondition(Precondition::NoCommonAncestor)),
    }
}

/// What a pull comes to before anything is fetched: without a remote of the
/// name asked for it ends at once, with nothing done; with one it goes on.
pub fn end_without_remote(found: bool) -> (early: Option<PullOutcome>)
    ensures
        !found ==> early == Some(PullOutcome::NoRemote),
        found ==> early is None,
{
    if found {
        None
    } else {
        Some(PullOutcome::NoRemote)
    }
}

/// Fetches `branch` from the remote and brings the local history up to it.
///
/// Whether the pull ends before the fetch is said by [`end_without_remote`].
/// Otherwise the branch is fetched, the fetched tip is compared with the
/// commit HEAD points at, and [`act_on`] carries out the one action the
/// comparison calls for.
/// Failures of the fetch are transport or authentication failures; a merge
/// can fail for paths it leaves unresolved; every other failure is the
/// engine's.
pub fn pull(repo: &git2::Repository, remote_name: &str, branch: &str, keys: &KeyDirectory) -> (r:
    Result<PullOutcome, SyncError>)
    ensures
        r matches Ok(done) ==> done.follows(remote_name@, branch@),
        r matches Err(e) ==> (e is Engine || e is Auth || e is Transport || e is Unresolved || e
            is Interrupted || e == SyncError::Precondition(Precondition::NoCommonAncestor)),
        r matches Err(SyncError::Interrupted { cause, artifacts }) ==> artifacts@.len() > 0
            && carries_blobs(artifacts@),
{
    match end_without_remote(has_remote(repo, remote_name)) {
        Some(outcome) => {
            return Ok(outcome);
        },
        None => {},
    }
    fetch(repo, remote_name, branch, keys)?;
    let fetch_head = lift(find_reference(repo, "FETCH_HEAD"))?;
    let remote = tip_of(repo, &fetch_head)?;
    let local = match repo_head(repo) {
        Ok(head) => Some(tip_of(repo, &head)?),
        Err(_) => None,
    };
    let base = match &local {
        Some(tip) => analyze(repo, tip, &remote)?.base,
        None => None,
    };
    act_on(repo, remote_name, branch, Compared { local, remote, base })
}

/// The failure of an operation that failed for `cause` after a pull went
/// through: the cause itself, or the cause together with the remote versions
/// that the pull's merge kept and that are still to be written.
pub fn after_pull(cause: SyncError, pulled: PullOutcome) -> (e: SyncError)
    ensures
        pulled.pending_artifacts().len() == 0 ==> e == cause,
        pulled.pending_artifacts().len() > 0 ==> (e matches SyncError::Interrupted {
            cause: inner,
            artifacts,
        } && *inner == cause && artifacts@ == pulled.pending_artifacts()),
{
    let artifacts = match pulled {
        PullOutcome::Merged { compared, outcome } => match outcome.resolution {
            Some(resolution) => resolution.artifacts,
            None => Vec::new(),
        },
        _ => Vec::new(),
    };
    interrupted(cause, artifacts)
}

} // verus!
