//! Recording the staged state as a commit.
use vstd::prelude::*;
use crate::error::{lift, Precondition, SyncError};
use crate::ids::{id_views, ObjectId};
use crate::text::text_view;
use crate::trusted::git::{
    commit_id,
    commit_message,
    commit_parents,
    create_commit,
    find_commit,
    find_tree,
    index_write_tree,
    reference_commit,
    reference_set_target,
    repo_head,
    repo_index,
    repo_signature,
};

verus! {

/// What the engine is asked to commit.
#[derive(Debug, PartialEq, Eq)]
pub struct CommitRequest {
    /// The reference to move to the new commit, if any.
    pub update_ref: Option<String>,
    /// The commit message.
    pub message: String,
    /// The tree the commit records.
    pub tree: ObjectId,
    /// The parents of the commit, in order.
    pub parents: Vec<ObjectId>,
}

/// The commit HEAD points at, as far as committing reads it.
#[derive(Debug, PartialEq, Eq)]
pub struct HeadCommit {
    /// The commit's identifier.
    pub id: ObjectId,
    /// Its message, absent when it is not valid UTF-8.
    pub message: Option<String>,
    /// Its parents, in order.
    pub parents: Vec<ObjectId>,
}

/// A move of the current branch onto a commit.
#[derive(Debug, PartialEq, Eq)]
pub struct BranchMove {
    /// The commit the branch is moved to.
    pub target: ObjectId,
    /// The entry noted in the branch's reflog.
    pub log: String,
}

/// What a commit did.
#[derive(Debug, PartialEq, Eq)]
pub struct CommitOutcome {
    /// The new commit.
    pub id: ObjectId,
    /// The commit HEAD pointed at before.
    pub previous: Option<HeadCommit>,
    /// What the engine was asked to commit.
    pub request: CommitRequest,
    /// The move of the current branch that followed the commit, if one did.
    pub moved: Option<BranchMove>,
}

/// A move of the current branch as plain mathematical values.
pub struct MoveView {
    pub target: Seq<u8>,
    pub log: Seq<char>,
}

impl View for BranchMove {
    type V = MoveView;

    open spec fn view(&self) -> MoveView {
        MoveView { target: self.target@, log: self.log@ }
    }
}

/// The view of an optional move.
pub open spec fn move_view(moved: Option<BranchMove>) -> Option<MoveView> {
    match moved {
        Some(m) => Some(m@),
        None => None,
    }
}

/// The move of the current branch that follows a commit. A plain commit
/// moves HEAD by itself, so nothing follows. An amending commit is made
/// beside the commit it replaces; the branch is then moved from the old
/// commit onto the new one.
pub open spec fn amend_move_of(amend: bool, id: Seq<u8>) -> Option<MoveView> {
    if amend {
        Some(MoveView { target: id, log: "gg: amend commit"@ })
    } else {
        None
    }
}

/// A commit request as plain mathematical values.
pub struct RequestView {
    pub update_ref: Option<Seq<char>>,
    pub message: Seq<char>,
    pub tree: Seq<u8>,
    pub parents: Seq<Seq<u8>>,
}

/// A head commit as plain mathematical values.
pub struct HeadView {
    pub id: Seq<u8>,
    pub message: Option<Seq<char>>,
    pub parents: Seq<Seq<u8>>,
}

impl View for CommitRequest {
    type V = RequestView;

    open spec fn view(&self) -> RequestView {
        RequestView {
            update_ref: text_view(self.update_ref),
            message: self.message@,
            tree: self.tree@,
            parents: id_views(self.parents@),
        }
    }
}

impl View for HeadCommit {
    type V = HeadView;

    open spec fn view(&self) -> HeadView {
        HeadView { id: self.id@, message: text_view(self.message), parents: id_views(self.parents@) }
    }
}

/// The view of an optional head commit.
pub open spec fn head_view(head: Option<HeadCommit>) -> Option<HeadView> {
    match head {
        Some(h) => Some(h@),
        None => None,
    }
}

/// The commit to make on top of `head`, or in place of it when amending.
///
/// A plain commit takes the given message, has the head commit as its only
/// parent (no parent in an empty repository) and moves HEAD. An amending
/// commit keeps the message of the commit it replaces, falling back to the
/// given one where that message cannot be read, takes over its parents, and
/// moves no reference by itself. There is none where amending is asked for
/// without a commit to amend.
pub open spec fn planned_commit(
    message: Seq<char>,
    amend: bool,
    tree: Seq<u8>,
    head: Option<HeadView>,
) -> Option<RequestView> {
    if amend {
        match head {
            Some(h) => Some(
                RequestView {
                    update_ref: None,
                    message: match h.message {
                        Some(m) => m,
                        None => message,
                    },
                    tree,
                    parents: h.parents,
                },
            ),
            None => None,
        }
    } else {
        Some(
            RequestView {
                update_ref: Some("HEAD"@),
                message,
                tree,
                parents: match head {
                    Some(h) => seq![h.id],
                    None => Seq::empty(),
                },
            },
        )
    }
}

/// Copies a list of identifiers.
pub fn copy_ids(ids: &Vec<ObjectId>) -> (copy: Vec<ObjectId>)
    ensures
        id_views(copy@) == id_views(ids@),
{
    let mut copy: Vec<ObjectId> = Vec::new();
    let mut i: usize = 0;
    while i < ids.len()
        invariant
            i <= ids.len(),
            id_views(copy@) == id_views(ids@).take(i as int),
        decreases ids.len() - i,
    {
        let ghost before = id_views(copy@);
        copy.push(ids[i].clone());
        assert(id_views(copy@) =~= before.push(ids@[i as int]@));
        assert(id_views(ids@).take(i + 1) =~= id_views(ids@).take(i as int).push(ids@[i as int]@));
        i += 1;
    }
    assert(id_views(ids@).take(i as int) =~= id_views(ids@));
    copy
}

/// Plans the commit to make; see [`planned_commit`].
pub fn plan_commit(message: &str, amend: bool, tree: ObjectId, head: &Option<HeadCommit>) -> (r:
    Result<CommitRequest, SyncError>)
    ensures
        match planned_commit(message@, amend, tree@, head_view(*head)) {
            Some(request) => r matches Ok(made) && made@ == request,
            None => r == Err::<CommitRequest, SyncError>(
                SyncError::Precondition(Precondition::NothingToAmend),
            ),
        },
{
    if amend {
        match head {
            Some(h) => {
                let text = match &h.message {
                    Some(m) => m.clone(),
                    None => String::from_str(message),
                };
                Ok(
                    CommitRequest {
                        update_ref: None,
                        message: text,
                        tree,
                        parents: copy_ids(&h.parents),
                    },
                )
            },
            None => Err(SyncError::Precondition(Precondition::NothingToAmend)),
        }
    } else {
        let mut parents: Vec<ObjectId> = Vec::new();
        match head {
            Some(h) => {
                parents.push(h.id.clone());
                assert(id_views(parents@) =~= seq![h.id@]);
            },
            None => {
                assert(id_views(parents@) =~= Seq::empty());
            },
        }
        Ok(
            CommitRequest {
                update_ref: Some(String::from_str("HEAD")),
                message: String::from_str(message),
                tree,
                parents,
            },
        )
    }
}

/// Plans the move of the current branch that follows a commit; see
/// [`amend_move_of`].
pub fn plan_amend_move(amend: bool, id: &ObjectId) -> (moved: Option<BranchMove>)
    ensures
        move_view(moved) == amend_move_of(amend, id@),
{
    if amend {
        Some(BranchMove { target: id.clone(), log: String::from_str("gg: amend commit") })
    } else {
        None
    }
}

/// Reads from a loaded commit what committing needs to know of it.
pub fn describe_commit(commit: &git2::Commit<'_>) -> (head: HeadCommit) {
    let handles = commit_parents(commit);
    let mut parents: Vec<ObjectId> = Vec::new();
    let mut i: usize = 0;
    while i < handles.len()
        invariant
            i <= handles.len(),
        decreases handles.len() - i,
    {
        parents.push(commit_id(&handles[i]));
        i += 1;
    }
    HeadCommit { id: commit_id(commit), message: commit_message(commit), parents }
}

/// Has the engine make the requested commit, signed by the configured identity.
///
/// The tree and every parent are looked up by the identifiers of the
/// request, in order, and handed to the engine with the request's message and
/// reference. A failure is the engine's.
pub fn submit(repo: &git2::Repository, request: &CommitRequest) -> (r: Result<ObjectId, SyncError>)
    ensures
        r matches Err(e) ==> e is Engine,
{
    let tree = lift(find_tree(repo, &request.tree))?;
    let signature = lift(repo_signature(repo))?;
    let mut parents: Vec<git2::Commit<'_>> = Vec::new();
    let mut i: usize = 0;
    while i < request.parents.len()
        invariant
            i <= request.parents.len(),
            parents@.len() == i,
        decreases request.parents.len() - i,
    {
        let parent = lift(find_commit(repo, &request.parents[i]))?;
        parents.push(parent);
        i += 1;
    }
    let update_ref: Option<&str> = match &request.update_ref {
        Some(name) => Some(name.as_str()),
        None => None,
    };
    lift(create_commit(repo, update_ref, &signature, request.message.as_str(), &tree, &parents))
}

/// Commits what is staged.
///
/// The index is written as a tree and committed as [`planned_commit`] says
/// for the commit HEAD points at. An amending commit is made beside the old
/// one, and the current branch is then moved onto it.
///
/// Amending without a commit to amend fails before anything is written to a
/// reference, and is the only precondition that can fail. On success the
/// outcome holds the request that was made, the commit that was found, and
/// the move of the branch that [`amend_move_of`] asks for, which was made.
pub fn commit_all(repo: &git2::Repository, message: &str, amend: bool) -> (r: Result<
    CommitOutcome,
    SyncError,
>)
    ensures
        r matches Ok(done) ==> Some(done.request@) == planned_commit(
            message@,
            amend,
            done.request.tree@,
            head_view(done.previous),
        ),
        r matches Ok(done) ==> move_view(done.moved) == amend_move_of(amend, done.id@),
        r matches Err(e) ==> (e is Engine || (amend && e == SyncError::Precondition(
            Precondition::NothingToAmend,
        ))),
{
    let mut index = lift(repo_index(repo))?;
    let tree = lift(index_write_tree(&mut index))?;
    let head_ref = match repo_head(repo) {
        Ok(reference) => Some(reference),
        Err(_) => None,
    };
    let previous = match &head_ref {
        Some(reference) => match reference_commit(reference) {
            Ok(commit) => Some(describe_commit(&commit)),
            Err(_) => None,
        },
        None => None,
    };
    let request = plan_commit(message, amend, tree, &previous)?;
    let id = submit(repo, &request)?;
    let moved = plan_amend_move(amend, &id);
    match &moved {
        Some(branch_move) => match head_ref {
            Some(mut reference) => {
                lift(
                    reference_set_target(
                        &mut reference,
                        &branch_move.target,
                        branch_move.log.as_str(),
                    ),
                )?;
            },
            None => {
                return Err(SyncError::Precondition(Precondition::NothingToAmend));
            },
        },
        None => {},
    }
    Ok(CommitOutcome { id, previous, request, moved })
}

} // verus!
