//! The branch workflow built on sync: starting a feature branch, finishing
//! one, and the checks and settings around them.
use vstd::prelude::*;
use crate::conflicts::carries_blobs;
use crate::credentials::KeyDirectory;
use crate::error::{lift, Precondition, SyncError};
use crate::ids::ObjectId;
use crate::names::{branch_ref_name, push_refspec, upstream_name};
use crate::sync::{after_pull, checkout_mode, pull, tip_of, CheckoutOccasion, PullOutcome};
use crate::text::{same_text, trim, trimmed};
use crate::transport::{fetch, has_remote, push, PushOutcome};
use crate::trusted::git::{
    branch_delete,
    branch_reference,
    branch_set_upstream,
    checkout_head,
    config_set_str,
    create_branch,
    default_config,
    find_branch,
    find_commit,
    find_reference,
    reference_commit,
    reference_name,
    reference_shorthand,
    remote_add,
    remote_set_url,
    repo_config,
    repo_head,
    repo_open,
    set_head,
    status_count,
};
use crate::trusted::text::{lowercased, to_lowercase};

verus! {

/// The operations a user can ask for.
#[derive(Debug, Clone, Copy, PartialEq, Eq, Structural)]
pub enum Operation {
    /// Start or resume a feature branch.
    Feature,
    /// Commit the staged work and publish it.
    Save,
    /// Finish a feature branch.
    Done,
    /// Set the user's name and address.
    Creds,
    /// Set the address of a remote and link up with it.
    Remote,
}

/// The steps of saving that are taken.
#[derive(Debug, Clone, Copy, PartialEq, Eq, Structural)]
pub struct SavePlan {
    /// Whether the current branch is synced with the remote first.
    pub pull: bool,
    /// Whether the staged work is committed.
    pub commit: bool,
    /// Whether the branch is pushed after the commit.
    pub push: bool,
    /// Whether that push overwrites the branch on the remote.
    pub force: bool,
}

/// Where the base of a feature branch came from.
#[derive(Debug, PartialEq, Eq)]
pub enum FeatureBase {
    /// The named branch was fetched from the remote.
    Fetched { branch: String },
    /// The current branch was synced and its tip taken.
    Synced { pull: PullOutcome },
}

/// How the feature branch came to be.
#[derive(Debug, Clone, Copy, PartialEq, Eq, Structural)]
pub enum BranchOrigin {
    /// The local branch existed already.
    Existing,
    /// It was created from the remote branch of the same name, and tracks it.
    Tracking,
    /// It was created at the base commit.
    Created,
}

/// What setting a remote's address did.
#[derive(Debug, Clone, Copy, PartialEq, Eq, Structural)]
pub enum RemoteLink {
    /// A remote of the name existed; its address was changed.
    Updated,
    /// The remote was added.
    Added,
}

/// What starting a feature branch did.
#[derive(Debug, PartialEq, Eq)]
pub struct FeatureOutcome {
    /// Where the base came from.
    pub base: FeatureBase,
    /// How the branch came to be.
    pub origin: BranchOrigin,
    /// Whether HEAD had to be moved to the branch.
    pub switched: bool,
    /// What pushing the branch did.
    pub push: PushOutcome,
}

/// What finishing a feature branch did.
#[derive(Debug, PartialEq, Eq)]
pub enum DoneOutcome {
    /// HEAD was on the main branch already.
    AlreadyOnMain { main: String },
    /// The main branch is checked out and synced.
    Finished {
        /// The main branch.
        main: String,
        /// The feature branch HEAD was on.
        branch: String,
        /// What syncing the main branch did.
        pull: PullOutcome,
        /// Whether the feature branch was found on the remote. Not looked up
        /// where the branch is kept anyway.
        pushed: bool,
        /// What became of the feature branch: kept, deleted, or left for the
        /// caller to ask about, since deleting a branch that was never pushed
        /// loses work.
        fate: BranchFate,
    },
}

/// The remote the workflow works against.
pub open spec fn origin_name() -> Seq<char> {
    "origin"@
}

/// The steps of a save. A dry run only words the commit: nothing is pulled,
/// committed or pushed. Otherwise the branch is synced, the staged work is
/// committed and the branch is pushed; the push is forced exactly after an
/// amending commit, since the commit it replaces may be on the remote
/// already.
pub open spec fn save_plan_of(dry_run: bool, amend: bool) -> SavePlan {
    SavePlan { pull: !dry_run, commit: !dry_run, push: !dry_run, force: !dry_run && amend }
}

/// Whether an operation refuses to run on a working tree with changes.
pub open spec fn requires_clean_tree(op: Operation) -> bool {
    !(op is Save || op is Creds)
}

/// The name of the main branch: `main` where that branch exists, else `master`.
pub open spec fn main_branch_name(main_exists: bool) -> Seq<char> {
    if main_exists {
        "main"@
    } else {
        "master"@
    }
}

/// Whether an answer to the deletion prompt is a yes: `y` or `yes`, in any
/// case, with white space around it ignored.
pub open spec fn is_yes(answer: Seq<char>) -> bool {
    lowercased(trimmed(answer)) == "y"@ || lowercased(trimmed(answer)) == "yes"@
}

/// What is done about the feature branch once the main branch is synced.
#[derive(Debug, Clone, Copy, PartialEq, Eq, Structural)]
pub enum BranchFate {
    Keep,
    Delete,
    Ask,
}

/// The branch is kept where cleaning is switched off. It is deleted without
/// a question where it exists on the remote or no confirmation is wanted.
pub open spec fn branch_fate(no_clean: bool, confirm_deletion: bool, pushed: bool) -> BranchFate {
    if no_clean {
        BranchFate::Keep
    } else if confirm_deletion && !pushed {
        BranchFate::Ask
    } else {
        BranchFate::Delete
    }
}

/// Whether a name is one the main branch goes by.
pub open spec fn is_main_name(name: Seq<char>) -> bool {
    name == main_branch_name(true) || name == main_branch_name(false)
}

/// What pointing a remote at an address comes to: an existing remote is
/// updated, a missing one is added.
pub open spec fn link_kind(exists: bool) -> RemoteLink {
    if exists {
        RemoteLink::Updated
    } else {
        RemoteLink::Added
    }
}

/// The name of the main branch; see [`main_branch_name`].
pub fn pick_main_branch(main_exists: bool) -> (name: String)
    ensures
        name@ == main_branch_name(main_exists),
{
    if main_exists {
        String::from_str("main")
    } else {
        String::from_str("master")
    }
}

/// Decides how a remote is pointed at an address; see [`link_kind`].
pub fn plan_link(exists: bool) -> (link: RemoteLink)
    ensures
        link == link_kind(exists),
{
    if exists {
        RemoteLink::Updated
    } else {
        RemoteLink::Added
    }
}

/// What a status lists beside changes to tracked files.
#[derive(Debug, Clone, Copy, PartialEq, Eq, Structural)]
pub struct StatusScope {
    /// Whether untracked files are listed.
    pub untracked: bool,
    /// Whether untracked directories are searched for the files in them.
    pub recurse_untracked: bool,
}

/// What counts towards a dirty tree: untracked files too, those inside
/// untracked directories included, since they can get in the way of a branch
/// switch or a replay.
pub fn status_scope() -> (scope: StatusScope)
    ensures
        scope == (StatusScope { untracked: true, recurse_untracked: true }),
{
    StatusScope { untracked: true, recurse_untracked: true }
}

/// Whether a normalised answer is a yes: `y` or `yes`.
pub fn is_affirmative(normal: &str) -> (r: bool)
    ensures
        r == (normal@ == "y"@ || normal@ == "yes"@),
{
    same_text(normal, "y") || same_text(normal, "yes")
}

/// Whether a count of changed or untracked entries means a dirty tree: any
/// entry does.
pub fn has_changes(entries: usize) -> (dirty: bool)
    ensures
        dirty == (entries != 0),
{
    entries != 0
}

/// Plans a save; see [`save_plan_of`].
pub fn plan_save(dry_run: bool, amend: bool) -> (plan: SavePlan)
    ensures
        plan == save_plan_of(dry_run, amend),
{
    SavePlan { pull: !dry_run, commit: !dry_run, push: !dry_run, force: !dry_run && amend }
}

/// Whether an operation refuses to run on a working tree with changes.
pub fn needs_clean_tree(op: Operation) -> (r: bool)
    ensures
        r == requires_clean_tree(op),
{
    match op {
        Operation::Save => false,
        Operation::Creds => false,
        _ => true,
    }
}

/// Lets an operation pass or refuses it for the state of the working tree.
pub fn guard_clean(op: Operation, dirty: bool) -> (r: Result<(), SyncError>)
    ensures
        r is Err <==> requires_clean_tree(op) && dirty,
        r matches Err(e) ==> e == SyncError::Precondition(Precondition::DirtyTree),
{
    if needs_clean_tree(op) && dirty {
        Err(SyncError::Precondition(Precondition::DirtyTree))
    } else {
        Ok(())
    }
}

/// Whether an answer to the deletion prompt is a yes.
pub fn accepts_deletion(answer: &str) -> (r: bool)
    ensures
        r == is_yes(answer@),
{
    let normal = to_lowercase(trim(answer));
    is_affirmative(normal.as_str())
}

/// Decides what is done about the feature branch.
pub fn decide_branch_fate(no_clean: bool, confirm_deletion: bool, pushed: bool) -> (fate:
    BranchFate)
    ensures
        fate == branch_fate(no_clean, confirm_deletion, pushed),
{
    if no_clean {
        BranchFate::Keep
    } else if confirm_deletion && !pushed {
        BranchFate::Ask
    } else {
        BranchFate::Delete
    }
}

/// Opens the repository at `path`.
pub fn open_repository(path: &str) -> (r: Result<git2::Repository, SyncError>)
    ensures
        r matches Err(e) ==> e is Engine,
{
    lift(repo_open(path))
}

/// Whether the working tree differs from HEAD or holds untracked files,
/// those inside untracked directories included.
pub fn is_dirty(repo: &git2::Repository) -> (r: Result<bool, SyncError>)
    ensures
        r matches Err(e) ==> e is Engine,
{
    let scope = status_scope();
    let changes = lift(status_count(repo, scope.untracked, scope.recurse_untracked))?;
    Ok(has_changes(changes))
}

/// Stores the user's name and address, in the repository's configuration or
/// in the user's global one.
pub fn configure_git(repo: &git2::Repository, name: &str, email: &str, global: bool) -> (r: Result<
    (),
    SyncError,
>)
    ensures
        r matches Err(e) ==> e is Engine,
{
    let mut config = if global {
        lift(default_config())?
    } else {
        lift(repo_config(repo))?
    };
    lift(config_set_str(&mut config, "user.name", name))?;
    lift(config_set_str(&mut config, "user.email", email))?;
    Ok(())
}

/// Points the remote `name` at `url`, adding the remote where there is none.
pub fn link_remote(repo: &git2::Repository, name: &str, url: &str) -> (r: Result<
    RemoteLink,
    SyncError,
>)
    ensures
        r matches Err(e) ==> e is Engine,
{
    let link = plan_link(has_remote(repo, name));
    match link {
        RemoteLink::Updated => lift(remote_set_url(repo, name, url))?,
        RemoteLink::Added => lift(remote_add(repo, name, url))?,
    }
    Ok(link)
}

/// Deletes a local branch.
pub fn delete_branch(repo: &git2::Repository, name: &str) -> (r: Result<(), SyncError>)
    ensures
        r matches Err(e) ==> e is Engine,
{
    let mut branch = lift(find_branch(repo, name, false))?;
    lift(branch_delete(&mut branch))
}

/// What taking up a branch came to.
struct BranchTaken {
    origin: BranchOrigin,
    switched: bool,
    push: PushOutcome,
}

/// Takes up the branch `name` at a base commit and publishes it. The base is
/// the commit `fetched` names, or the commit HEAD points at where it names
/// none.
fn take_up_branch(
    repo: &git2::Repository,
    name: &str,
    fetched: Option<ObjectId>,
    keys: &KeyDirectory,
) -> (r: Result<BranchTaken, SyncError>)
    ensures
        name@ == "HEAD"@ ==> r is Err,
        r matches Ok(taken) ==> (taken.push matches PushOutcome::Pushed { refspec } ==> refspec@
            == push_refspec(name@, false)),
        r matches Err(e) ==> (e is Engine || e is Auth || e is Transport || e is Precondition),
        r matches Err(SyncError::Precondition(p)) ==> (p == Precondition::UnreadableBranchName
            || p == Precondition::PushHead),
{
    let base_commit = match &fetched {
        Some(tip) => lift(find_commit(repo, tip))?,
        None => {
            let head = lift(repo_head(repo))?;
            lift(reference_commit(&head))?
        },
    };
    let upstream = upstream_name("origin", name);
    let (branch, origin) = match find_branch(repo, name, false) {
        Ok(existing) => (existing, BranchOrigin::Existing),
        Err(_) => match find_branch(repo, upstream.as_str(), true) {
            Ok(remote_branch) => {
                let commit = lift(reference_commit(branch_reference(&remote_branch)))?;
                let mut created = lift(create_branch(repo, name, &commit))?;
                lift(branch_set_upstream(&mut created, upstream.as_str()))?;
                (created, BranchOrigin::Tracking)
            },
            Err(_) => (lift(create_branch(repo, name, &base_commit))?, BranchOrigin::Created),
        },
    };
    let head = lift(repo_head(repo))?;
    let on_branch = match reference_shorthand(&head) {
        Some(current) => same_text(current.as_str(), name),
        None => false,
    };
    if !on_branch {
        let refname = match reference_name(branch_reference(&branch)) {
            Some(refname) => refname,
            None => {
                return Err(SyncError::Precondition(Precondition::UnreadableBranchName));
            },
        };
        lift(set_head(repo, refname.as_str()))?;
        lift(checkout_head(repo, checkout_mode(CheckoutOccasion::BranchSwitch)))?;
    }
    let pushed = push(repo, "origin", name, false, keys)?;
    Ok(BranchTaken { origin, switched: !on_branch, push: pushed })
}

/// Creates the feature branch `name`, or takes it up again, and publishes it.
///
/// The base is the tip of `base` as freshly fetched from `origin`, or, where
/// no base is named, the tip of the current branch after a [`pull`]. A local
/// branch of the name is used as it is; else a remote branch of the name is
/// taken as the start and tracked; else the branch is created at the base.
/// HEAD is moved to the branch with a safe checkout unless it is there
/// already, and the branch is pushed to `origin`.
///
/// Where a step fails after the pull went through, the failure carries what
/// the pull's merge left to be written; see [`after_pull`].
pub fn create_feature_branch(
    repo: &git2::Repository,
    name: &str,
    base: Option<String>,
    keys: &KeyDirectory,
) -> (r: Result<FeatureOutcome, SyncError>)
    ensures
        name@ == "HEAD"@ ==> r is Err,
        r matches Ok(done) ==> ((done.base is Fetched) <==> base is Some),
        r matches Ok(done) ==> (done.base matches FeatureBase::Synced { pull } ==> pull.follows(
            origin_name(),
            "HEAD"@,
        )),
        r matches Ok(done) ==> (done.push matches PushOutcome::Pushed { refspec } ==> refspec@
            == push_refspec(name@, false)),
        r matches Err(e) ==> (e is Engine || e is Auth || e is Transport || e is Unresolved || e
            is Precondition || e is Interrupted),
        r matches Err(SyncError::Precondition(p)) ==> (p == Precondition::NoCommonAncestor || p
            == Precondition::UnreadableBranchName || p == Precondition::PushHead),
        r matches Err(SyncError::Interrupted { cause, artifacts }) ==> artifacts@.len() > 0
            && carries_blobs(artifacts@),
{
    match base {
        Some(base_branch) => {
            fetch(repo, "origin", base_branch.as_str(), keys)?;
            let fetch_head = lift(find_reference(repo, "FETCH_HEAD"))?;
            let tip = tip_of(repo, &fetch_head)?;
            let taken = take_up_branch(repo, name, Some(tip), keys)?;
            Ok(
                FeatureOutcome {
                    base: FeatureBase::Fetched { branch: base_branch },
                    origin: taken.origin,
                    switched: taken.switched,
                    push: taken.push,
                },
            )
        },
        None => {
            let pulled = pull(repo, "origin", "HEAD", keys)?;
            match take_up_branch(repo, name, None, keys) {
                Ok(taken) => Ok(
                    FeatureOutcome {
                        base: FeatureBase::Synced { pull: pulled },
                        origin: taken.origin,
                        switched: taken.switched,
                        push: taken.push,
                    },
                ),
                Err(cause) => Err(after_pull(cause, pulled)),
            }
        },
    }
}

/// Finishes the current feature branch: goes back to the main branch, syncs
/// it, and removes the feature branch.
///
/// On the main branch already, nothing is done. Otherwise the main branch is
/// checked out safely and pulled from `origin`. What becomes of the feature
/// branch is said by [`branch_fate`]: it is kept where `no_clean` is set,
/// deleted where it is on the remote or `confirm_deletion` is off, and
/// otherwise left for the caller to ask about.
///
/// Where the deletion fails, the failure carries what the pull's merge left
/// to be written; see [`after_pull`].
pub fn done(repo: &git2::Repository, no_clean: bool, confirm_deletion: bool, keys: &KeyDirectory) -> (r:
    Result<DoneOutcome, SyncError>)
    ensures
        r matches Ok(DoneOutcome::AlreadyOnMain { main }) ==> is_main_name(main@),
        r matches Ok(DoneOutcome::Finished { main, branch, pull, pushed, fate }) ==> fate
            == branch_fate(no_clean, confirm_deletion, pushed) && is_main_name(main@) && branch@
            != main@ && pull.follows(origin_name(), main@),
        r matches Err(e) ==> (e is Engine || e is Auth || e is Transport || e is Unresolved || e
            is Interrupted || e == SyncError::Precondition(Precondition::NotOnBranch) || e
            == SyncError::Precondition(Precondition::NoCommonAncestor)),
        r matches Err(SyncError::Interrupted { cause, artifacts }) ==> artifacts@.len() > 0
            && carries_blobs(artifacts@),
{
    let head = lift(repo_head(repo))?;
    let branch = match reference_shorthand(&head) {
        Some(name) => name,
        None => {
            return Err(SyncError::Precondition(Precondition::NotOnBranch));
        },
    };
    let main_exists = find_branch(repo, "main", false).is_ok();
    let main = pick_main_branch(main_exists);
    if same_text(branch.as_str(), main.as_str()) {
        return Ok(DoneOutcome::AlreadyOnMain { main });
    }
    let main_ref = branch_ref_name(main.as_str());
    lift(set_head(repo, main_ref.as_str()))?;
    lift(checkout_head(repo, checkout_mode(CheckoutOccasion::BranchSwitch)))?;
    let pulled = pull(repo, "origin", main.as_str(), keys)?;
    let pushed = if no_clean {
        false
    } else {
        let upstream = upstream_name("origin", branch.as_str());
        find_branch(repo, upstream.as_str(), true).is_ok()
    };
    let fate = decide_branch_fate(no_clean, confirm_deletion, pushed);
    match fate {
        BranchFate::Delete => match delete_branch(repo, branch.as_str()) {
            Ok(()) => {},
            Err(cause) => {
                return Err(after_pull(cause, pulled));
            },
        },
        _ => {},
    }
    Ok(DoneOutcome::Finished { main, branch, pull: pulled, pushed, fate })
}

} // verus!
