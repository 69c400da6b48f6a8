//! The calls into the git engine.
//!
//! Nothing in this file is proved. Each function here makes one call into
//! `git2` and hands the result on. What comes back depends on the repository
//! on disk and on the remote, so they promise nothing about it, with one
//! exception: the bytes of a blob follow from its identifier alone, and
//! [`blob_content`] says so.
use vstd::prelude::*;
use crate::conflicts::{Conflict, ConflictSide};
use crate::credentials::{
    negotiate,
    verify_host,
    AllowedAuth,
    HostVerdict,
    Negotiation,
};
use crate::error::{EngineFailure, FailureKind};
use crate::ids::ObjectId;
use crate::message::{Change, ChangeKind};
use crate::reconcile::ReplayAuthor;
use crate::sync::CheckoutMode;

verus! {

/// `git2::Repository`: a repository on disk.
#[verifier::external_type_specification]
#[verifier::external_body]
pub struct ExRepository(git2::Repository);

/// `git2::Error`: a failure reported by the engine.
#[verifier::external_type_specification]
#[verifier::external_body]
pub struct ExError(git2::Error);

/// `git2::Reference`: a reference: a name that points at a commit or at another reference.
#[verifier::external_type_specification]
#[verifier::external_body]
pub struct ExReference<'repo>(git2::Reference<'repo>);

/// `git2::Commit`: a commit loaded from the object store.
#[verifier::external_type_specification]
#[verifier::external_body]
pub struct ExCommit<'repo>(git2::Commit<'repo>);

/// `git2::Tree`: a tree loaded from the object store.
#[verifier::external_type_specification]
#[verifier::external_body]
pub struct ExTree<'repo>(git2::Tree<'repo>);

/// `git2::Signature`: a name and address with a time, as commits carry them.
#[verifier::external_type_specification]
#[verifier::external_body]
pub struct ExSignature<'a>(git2::Signature<'a>);

/// `git2::Index`: a staging area, of a repository or in memory only.
#[verifier::external_type_specification]
#[verifier::external_body]
pub struct ExIndex(git2::Index);

/// `git2::Remote`: a configured remote.
#[verifier::external_type_specification]
#[verifier::external_body]
pub struct ExRemote<'repo>(git2::Remote<'repo>);

/// `git2::Branch`: a local or remote-tracking branch.
#[verifier::external_type_specification]
#[verifier::external_body]
pub struct ExBranch<'repo>(git2::Branch<'repo>);

/// `git2::Rebase`: a replay of commits in progress.
#[verifier::external_type_specification]
#[verifier::external_body]
pub struct ExRebase<'repo>(git2::Rebase<'repo>);

/// `git2::RebaseOperation`: one commit of a replay.
#[verifier::external_type_specification]
#[verifier::external_body]
pub struct ExRebaseOperation<'rebase>(git2::RebaseOperation<'rebase>);

/// `git2::AnnotatedCommit`: a commit together with the reference it was found through.
#[verifier::external_type_specification]
#[verifier::external_body]
pub struct ExAnnotatedCommit<'repo>(git2::AnnotatedCommit<'repo>);

/// `git2::RemoteCallbacks`: the callbacks the engine invokes during a fetch or push.
#[verifier::external_type_specification]
#[verifier::external_body]
pub struct ExRemoteCallbacks<'a>(git2::RemoteCallbacks<'a>);

/// `git2::Config`: a configuration store.
#[verifier::external_type_specification]
#[verifier::external_body]
pub struct ExConfig(git2::Config);

/// `git2::Cred`: a credential to offer to a remote.
#[verifier::external_type_specification]
#[verifier::external_body]
pub struct ExCred(git2::Cred);

/// `git2::Diff`: the differences between two trees or a tree and an index.
#[verifier::external_type_specification]
#[verifier::external_body]
pub struct ExDiff<'repo>(git2::Diff<'repo>);

/// The bytes of the blob that an identifier names. The object store is
/// addressed by content: an identifier is the hash of what it stands for, so
/// every repository that holds a blob under it holds the same bytes, as long
/// as the hash has no collision among the blobs stored.
pub uninterp spec fn blob_bytes(id: Seq<u8>) -> Seq<u8>;

/// `git2::Error::message`: the text of an engine failure.
#[verifier::external_body]
pub(crate) fn error_message(e: &git2::Error) -> (s: String) {
    e.message().to_string()
}

/// `git2::Error::code`, reduced to the kinds the library distinguishes.
#[verifier::external_body]
pub(crate) fn error_kind(e: &git2::Error) -> (k: FailureKind) {
    match e.code() {
        git2::ErrorCode::NotFound => FailureKind::NotFound,
        git2::ErrorCode::Auth => FailureKind::Auth,
        _ => FailureKind::Other,
    }
}

/// `git2::Repository::open`: opens the repository at a path.
#[verifier::external_body]
pub(crate) fn repo_open(path: &str) -> (r: Result<git2::Repository, git2::Error>) {
    git2::Repository::open(path)
}

/// `git2::Repository::head`: the reference HEAD resolves to.
#[verifier::external_body]
pub(crate) fn repo_head<'r>(repo: &'r git2::Repository) -> (r: Result<
    git2::Reference<'r>,
    git2::Error,
>) {
    repo.head()
}

/// `git2::Repository::find_reference`: looks a reference up by its full name.
#[verifier::external_body]
pub(crate) fn find_reference<'r>(repo: &'r git2::Repository, name: &str) -> (r: Result<
    git2::Reference<'r>,
    git2::Error,
>) {
    repo.find_reference(name)
}

/// `git2::Repository::find_remote`: looks a configured remote up by name.
#[verifier::external_body]
pub(crate) fn find_remote<'r>(repo: &'r git2::Repository, name: &str) -> (r: Result<
    git2::Remote<'r>,
    git2::Error,
>) {
    repo.find_remote(name)
}

/// `git2::Repository::remote`: adds a remote with the default fetch refspec.
#[verifier::external_body]
pub(crate) fn remote_add(repo: &git2::Repository, name: &str, url: &str) -> (r: Result<
    (),
    git2::Error,
>) {
    repo.remote(name, url).map(|_| ())
}

/// `git2::Repository::remote_set_url`: changes the address of a remote.
#[verifier::external_body]
pub(crate) fn remote_set_url(repo: &git2::Repository, name: &str, url: &str) -> (r: Result<
    (),
    git2::Error,
>) {
    repo.remote_set_url(name, url)
}

/// `git2::Repository::find_commit`: loads a commit by identifier.
#[verifier::external_body]
pub(crate) fn find_commit<'r>(repo: &'r git2::Repository, id: &ObjectId) -> (r: Result<
    git2::Commit<'r>,
    git2::Error,
>) {
    repo.find_commit(git2::Oid::from_bytes(&id.bytes)?)
}

/// `git2::Repository::find_tree`: loads a tree by identifier.
#[verifier::external_body]
pub(crate) fn find_tree<'r>(repo: &'r git2::Repository, id: &ObjectId) -> (r: Result<
    git2::Tree<'r>,
    git2::Error,
>) {
    repo.find_tree(git2::Oid::from_bytes(&id.bytes)?)
}

/// `git2::Repository::find_blob` and `git2::Blob::content`: the bytes of
/// the blob with the given identifier, where the repository holds it. They
/// are the bytes that [`blob_bytes`] names; whether the blob is found is the
/// repository's affair.
#[verifier::external_body]
pub(crate) fn blob_content(repo: &git2::Repository, id: &ObjectId) -> (r: Result<
    Vec<u8>,
    git2::Error,
>)
    ensures
        r matches Ok(bytes) ==> bytes@ == blob_bytes(id@),
{
    let blob = repo.find_blob(git2::Oid::from_bytes(&id.bytes)?)?;
    Ok(blob.content().to_vec())
}

/// `git2::Repository::index`: the repository's staging area.
#[verifier::external_body]
pub(crate) fn repo_index(repo: &git2::Repository) -> (r: Result<git2::Index, git2::Error>) {
    repo.index()
}

/// `git2::Repository::signature`: the configured identity, stamped with the current time.
#[verifier::external_body]
pub(crate) fn repo_signature(repo: &git2::Repository) -> (r: Result<
    git2::Signature<'static>,
    git2::Error,
>) {
    repo.signature()
}

/// `git2::Repository::workdir`: the working directory, absent for a bare repository.
#[verifier::external_body]
pub(crate) fn repo_workdir(repo: &git2::Repository) -> (r: Option<String>) {
    repo.workdir().map(|p| p.to_string_lossy().into_owned())
}

/// `git2::Repository::reference_to_annotated_commit`: the commit a reference
/// points at, remembering where it came from.
#[verifier::external_body]
pub(crate) fn annotated_commit<'r>(
    repo: &'r git2::Repository,
    reference: &git2::Reference<'_>,
) -> (r: Result<git2::AnnotatedCommit<'r>, git2::Error>) {
    repo.reference_to_annotated_commit(reference)
}

/// `git2::AnnotatedCommit::id`: the identifier of the commit.
#[verifier::external_body]
pub(crate) fn annotated_id(commit: &git2::AnnotatedCommit<'_>) -> (id: ObjectId) {
    ObjectId { bytes: commit.id().as_bytes().to_vec() }
}

/// `git2::Repository::merge_base`: a best common ancestor of two commits.
/// Fails with a not-found error when the commits share no ancestor.
#[verifier::external_body]
pub(crate) fn merge_base(repo: &git2::Repository, one: &ObjectId, two: &ObjectId) -> (r: Result<
    ObjectId,
    git2::Error,
>) {
    let a = git2::Oid::from_bytes(&one.bytes)?;
    let b = git2::Oid::from_bytes(&two.bytes)?;
    repo.merge_base(a, b).map(|id| ObjectId { bytes: id.as_bytes().to_vec() })
}

/// `git2::Repository::merge_trees` with default options: merges two trees
/// against their ancestor into an index that belongs to no repository.
#[verifier::external_body]
pub(crate) fn merge_trees(
    repo: &git2::Repository,
    ancestor: &git2::Tree<'_>,
    ours: &git2::Tree<'_>,
    theirs: &git2::Tree<'_>,
) -> (r: Result<git2::Index, git2::Error>) {
    repo.merge_trees(ancestor, ours, theirs, None)
}

/// `git2::Repository::commit` with one signature as author and committer.
#[verifier::external_body]
pub(crate) fn create_commit(
    repo: &git2::Repository,
    update_ref: Option<&str>,
    signature: &git2::Signature<'_>,
    message: &str,
    tree: &git2::Tree<'_>,
    parents: &Vec<git2::Commit<'_>>,
) -> (r: Result<ObjectId, git2::Error>) {
    let parents: Vec<&git2::Commit<'_>> = parents.iter().collect();
    let id = repo.commit(update_ref, signature, signature, message, tree, &parents)?;
    Ok(ObjectId { bytes: id.as_bytes().to_vec() })
}

/// `git2::Repository::set_head`: makes HEAD point at the named reference.
#[verifier::external_body]
pub(crate) fn set_head(repo: &git2::Repository, refname: &str) -> (r: Result<(), git2::Error>) {
    repo.set_head(refname)
}

/// `git2::Repository::set_head_detached`: makes HEAD point at a commit directly.
#[verifier::external_body]
pub(crate) fn set_head_detached(repo: &git2::Repository, id: &ObjectId) -> (r: Result<
    (),
    git2::Error,
>) {
    repo.set_head_detached(git2::Oid::from_bytes(&id.bytes)?)
}

/// `git2::Repository::checkout_head`: updates index and working tree to HEAD.
#[verifier::external_body]
pub(crate) fn checkout_head(repo: &git2::Repository, mode: CheckoutMode) -> (r: Result<
    (),
    git2::Error,
>) {
    let mut builder = git2::build::CheckoutBuilder::new();
    match mode {
        CheckoutMode::Force => builder.force(),
        CheckoutMode::Safe => builder.safe(),
    };
    repo.checkout_head(Some(&mut builder))
}

/// `git2::Repository::find_branch`: looks up a local or remote-tracking branch.
#[verifier::external_body]
pub(crate) fn find_branch<'r>(repo: &'r git2::Repository, name: &str, remote: bool) -> (r: Result<
    git2::Branch<'r>,
    git2::Error,
>) {
    let kind = if remote {
        git2::BranchType::Remote
    } else {
        git2::BranchType::Local
    };
    repo.find_branch(name, kind)
}

/// `git2::Repository::branch` without force: creates a local branch at a commit.
#[verifier::external_body]
pub(crate) fn create_branch<'r>(
    repo: &'r git2::Repository,
    name: &str,
    target: &git2::Commit<'_>,
) -> (r: Result<git2::Branch<'r>, git2::Error>) {
    repo.branch(name, target, false)
}

/// `git2::Repository::rebase` of the current branch onto `upstream`, with default options.
#[verifier::external_body]
pub(crate) fn start_rebase<'r>(
    repo: &'r git2::Repository,
    upstream: &git2::AnnotatedCommit<'_>,
) -> (r: Result<git2::Rebase<'r>, git2::Error>) {
    repo.rebase(None, Some(upstream), None, None)
}

/// `git2::Repository::statuses`, counting the entries. Untracked files are
/// listed, and untracked directories are searched, as the two flags say.
#[verifier::external_body]
pub(crate) fn status_count(repo: &git2::Repository, untracked: bool, recurse: bool) -> (r: Result<
    usize,
    git2::Error,
>) {
    let mut options = git2::StatusOptions::new();
    options.include_untracked(untracked);
    options.recurse_untracked_dirs(recurse);
    let statuses = repo.statuses(Some(&mut options))?;
    Ok(statuses.len())
}

/// `git2::Repository::config`: the repository's configuration.
#[verifier::external_body]
pub(crate) fn repo_config(repo: &git2::Repository) -> (r: Result<git2::Config, git2::Error>) {
    repo.config()
}

/// `git2::Config::open_default`: the user's global configuration.
#[verifier::external_body]
pub(crate) fn default_config() -> (r: Result<git2::Config, git2::Error>) {
    git2::Config::open_default()
}

/// `git2::Config::set_str`: stores a string value under a key.
#[verifier::external_body]
pub(crate) fn config_set_str(config: &mut git2::Config, name: &str, value: &str) -> (r: Result<
    (),
    git2::Error,
>) {
    config.set_str(name, value)
}

/// `git2::Reference::set_target`: moves a direct reference to another commit.
#[verifier::external_body]
pub(crate) fn reference_set_target(
    reference: &mut git2::Reference<'_>,
    id: &ObjectId,
    reflog_message: &str,
) -> (r: Result<(), git2::Error>) {
    reference.set_target(git2::Oid::from_bytes(&id.bytes)?, reflog_message).map(|_| ())
}

/// `git2::Reference::shorthand`: the short, readable name; absent when it is not valid UTF-8.
#[verifier::external_body]
pub(crate) fn reference_shorthand(reference: &git2::Reference<'_>) -> (r: Option<String>) {
    reference.shorthand().ok().map(|s| s.to_string())
}

/// `git2::Reference::name`: the full name; absent when it is not valid UTF-8.
#[verifier::external_body]
pub(crate) fn reference_name(reference: &git2::Reference<'_>) -> (r: Option<String>) {
    reference.name().ok().map(|s| s.to_string())
}

/// `git2::Reference::peel_to_commit`: follows a reference to the commit it names.
#[verifier::external_body]
pub(crate) fn reference_commit<'r>(reference: &git2::Reference<'r>) -> (r: Result<
    git2::Commit<'r>,
    git2::Error,
>) {
    reference.peel_to_commit()
}

/// `git2::Commit::id`: the identifier of a loaded commit.
#[verifier::external_body]
pub(crate) fn commit_id(commit: &git2::Commit<'_>) -> (id: ObjectId) {
    ObjectId { bytes: commit.id().as_bytes().to_vec() }
}

/// `git2::Commit::message`: the commit message; absent when it is not valid UTF-8.
#[verifier::external_body]
pub(crate) fn commit_message(commit: &git2::Commit<'_>) -> (r: Option<String>) {
    commit.message().ok().map(|s| s.to_string())
}

/// `git2::Commit::parents`: the parent commits that can be loaded, in order.
#[verifier::external_body]
pub(crate) fn commit_parents<'r>(commit: &git2::Commit<'r>) -> (r: Vec<git2::Commit<'r>>) {
    commit.parents().collect()
}

/// `git2::Commit::tree`: the tree a commit records.
#[verifier::external_body]
pub(crate) fn commit_tree<'r>(commit: &git2::Commit<'r>) -> (r: Result<
    git2::Tree<'r>,
    git2::Error,
>) {
    commit.tree()
}

/// `git2::Index::has_conflicts`: whether any path has unmerged entries.
#[verifier::external_body]
pub(crate) fn index_has_conflicts(index: &git2::Index) -> (r: bool) {
    index.has_conflicts()
}

/// `git2::Index::conflicts`: the unmerged paths with the sides each one has.
/// An entry the engine could not read comes back as `None`.
#[verifier::external_body]
pub(crate) fn index_conflicts(index: &git2::Index) -> (r: Result<
    Vec<Option<Conflict>>,
    git2::Error,
>) {
    let side = |e: git2::IndexEntry| ConflictSide {
        path: String::from_utf8_lossy(&e.path).into_owned(),
        id: ObjectId { bytes: e.id.as_bytes().to_vec() },
        mode: e.mode,
    };
    let conflicts = index.conflicts()?;
    Ok(conflicts.map(|c| c.ok().map(|c| Conflict {
        ancestor: c.ancestor.map(side),
        our: c.our.map(side),
        their: c.their.map(side),
    })).collect())
}

/// `git2::Index::conflict_remove`: drops the unmerged entries of one path.
#[verifier::external_body]
pub(crate) fn index_conflict_remove(index: &mut git2::Index, path: &str) -> (r: Result<
    (),
    git2::Error,
>) {
    index.conflict_remove(std::path::Path::new(path))
}

/// `git2::Index::add`: puts an entry for a blob at a path into the index,
/// in the stage that `flags` names, replacing an entry of that path and stage
/// already there. The entry carries no file-system metadata.
#[verifier::external_body]
pub(crate) fn index_add(index: &mut git2::Index, entry: &ConflictSide, flags: u16) -> (r: Result<
    (),
    git2::Error,
>) {
    index.add(&git2::IndexEntry {
        ctime: git2::IndexTime::new(0, 0),
        mtime: git2::IndexTime::new(0, 0),
        dev: 0,
        ino: 0,
        mode: entry.mode,
        uid: 0,
        gid: 0,
        file_size: 0,
        id: git2::Oid::from_bytes(&entry.id.bytes)?,
        flags,
        flags_extended: 0,
        path: entry.path.as_bytes().to_vec(),
    })
}

/// `git2::Index::write`: writes the index back to disk.
#[verifier::external_body]
pub(crate) fn index_write(index: &mut git2::Index) -> (r: Result<(), git2::Error>) {
    index.write()
}

/// `git2::Index::write_tree`: stores the index as a tree in its own repository.
#[verifier::external_body]
pub(crate) fn index_write_tree(index: &mut git2::Index) -> (r: Result<ObjectId, git2::Error>) {
    index.write_tree().map(|id| ObjectId { bytes: id.as_bytes().to_vec() })
}

/// `git2::Index::write_tree_to`: stores the index as a tree in the given repository.
#[verifier::external_body]
pub(crate) fn index_write_tree_to(index: &mut git2::Index, repo: &git2::Repository) -> (r: Result<
    ObjectId,
    git2::Error,
>) {
    index.write_tree_to(repo).map(|id| ObjectId { bytes: id.as_bytes().to_vec() })
}

/// `git2::Remote::fetch` of one refspec, with the given callbacks.
#[verifier::external_body]
pub(crate) fn remote_fetch(
    remote: &mut git2::Remote<'_>,
    refspec: &str,
    callbacks: git2::RemoteCallbacks<'_>,
) -> (r: Result<(), git2::Error>) {
    let mut options = git2::FetchOptions::new();
    options.remote_callbacks(callbacks);
    remote.fetch(&[refspec], Some(&mut options), None)
}

/// `git2::Remote::push` of one refspec, with the given callbacks.
#[verifier::external_body]
pub(crate) fn remote_push(
    remote: &mut git2::Remote<'_>,
    refspec: &str,
    callbacks: git2::RemoteCallbacks<'_>,
) -> (r: Result<(), git2::Error>) {
    let mut options = git2::PushOptions::new();
    options.remote_callbacks(callbacks);
    remote.push(&[refspec], Some(&mut options))
}

/// `git2::Remote::url`: the remote's address; absent when it is not valid UTF-8.
#[verifier::external_body]
pub(crate) fn remote_url(remote: &git2::Remote<'_>) -> (r: Option<String>) {
    remote.url().ok().map(|s| s.to_string())
}

/// `git2::Branch::get`: the reference behind a branch.
#[verifier::external_body]
pub(crate) fn branch_reference<'a, 'r>(branch: &'a git2::Branch<'r>) -> (r: &'a git2::Reference<
    'r,
>) {
    branch.get()
}

/// `git2::Branch::set_upstream`: records which remote branch a local branch tracks.
#[verifier::external_body]
pub(crate) fn branch_set_upstream(branch: &mut git2::Branch<'_>, upstream: &str) -> (r: Result<
    (),
    git2::Error,
>) {
    branch.set_upstream(Some(upstream))
}

/// `git2::Branch::delete`: removes the branch reference.
#[verifier::external_body]
pub(crate) fn branch_delete(branch: &mut git2::Branch<'_>) -> (r: Result<(), git2::Error>) {
    branch.delete()
}

/// `git2::Rebase::len`: how many commits the replay holds.
#[verifier::external_body]
pub(crate) fn rebase_len(rebase: &git2::Rebase<'_>) -> (n: usize) {
    rebase.len()
}

/// `git2::Rebase::next`: applies the next commit of the replay to index and
/// working tree. `None` when no commit is left.
#[verifier::external_body]
pub(crate) fn rebase_next(rebase: &mut git2::Rebase<'_>) -> (r: Option<Result<(), git2::Error>>) {
    rebase.next().map(|op| op.map(|_| ()))
}

/// `git2::Rebase::commit`: records the commit just applied, keeping its
/// message, with the given committer and with its own author or the
/// committer as author.
#[verifier::external_body]
pub(crate) fn rebase_commit(
    rebase: &mut git2::Rebase<'_>,
    author: ReplayAuthor,
    committer: &git2::Signature<'_>,
) -> (r: Result<(), git2::Error>) {
    let author = match author {
        ReplayAuthor::Original => None,
        ReplayAuthor::Committer => Some(committer),
    };
    rebase.commit(author, committer, None).map(|_| ())
}

/// `git2::Rebase::abort`: gives the replay up and resets repository and
/// working tree to where they were before it began.
#[verifier::external_body]
pub(crate) fn rebase_abort(rebase: &mut git2::Rebase<'_>) -> (r: Result<(), git2::Error>) {
    rebase.abort()
}

/// `git2::Rebase::finish`: completes a replay whose commits have all been applied.
#[verifier::external_body]
pub(crate) fn rebase_finish(rebase: &mut git2::Rebase<'_>) -> (r: Result<(), git2::Error>) {
    rebase.finish(None)
}

/// `git2::Error::new`: an engine failure of the given kind and text, of no
/// class, as the engine's own constructor from a text makes it.
#[verifier::external_body]
pub(crate) fn raise_failure(failure: &EngineFailure) -> (e: git2::Error) {
    let code = match failure.kind {
        FailureKind::NotFound => git2::ErrorCode::NotFound,
        FailureKind::Auth => git2::ErrorCode::Auth,
        FailureKind::Other => git2::ErrorCode::GenericError,
    };
    git2::Error::new(code, git2::ErrorClass::None, failure.message.as_str())
}

/// `git2::Cred::ssh_key_from_agent`: a credential that asks the ssh agent for a key.
#[verifier::external_body]
pub(crate) fn cred_from_agent(user: &str) -> (r: Result<git2::Cred, git2::Error>) {
    git2::Cred::ssh_key_from_agent(user)
}

/// `git2::Cred::ssh_key` with a private key file and neither public key nor passphrase.
#[verifier::external_body]
pub(crate) fn cred_from_key(user: &str, private_key: &str) -> (r: Result<
    git2::Cred,
    git2::Error,
>) {
    git2::Cred::ssh_key(user, None, std::path::Path::new(private_key), None)
}

/// `git2::Cred::credential_helper`: a user name and password from the
/// credential helper that the configuration names for the address.
#[verifier::external_body]
pub(crate) fn cred_from_helper(config: &git2::Config, url: &str, username: Option<&str>) -> (r:
    Result<git2::Cred, git2::Error>) {
    git2::Cred::credential_helper(config, url, username)
}

/// `git2::RemoteCallbacks::new` with `credentials` and `certificate_check`
/// set: the engine will call [`negotiate`] with the negotiator and the key
/// files of the negotiation for credentials, and [`verify_host`] for host
/// certificates.
#[verifier::external_body]
pub(crate) fn install_callbacks(negotiation: Negotiation) -> (callbacks: git2::RemoteCallbacks<
    'static,
>) {
    let Negotiation { mut negotiator, keys } = negotiation;
    let mut callbacks = git2::RemoteCallbacks::new();
    callbacks.credentials(move |url, username, allowed| {
        let ssh_key = allowed.contains(git2::CredentialType::SSH_KEY);
        let user_pass = allowed.contains(git2::CredentialType::USER_PASS_PLAINTEXT);
        negotiate(&mut negotiator, &keys, url, username, AllowedAuth { ssh_key, user_pass })
    });
    callbacks.certificate_check(|_cert, host| match verify_host(host) {
        HostVerdict::Trusted => Ok(git2::CertificateCheckStatus::CertificateOk),
        HostVerdict::Deferred => Ok(git2::CertificateCheckStatus::CertificatePassthrough),
    });
    callbacks
}

/// `git2::Repository::diff_tree_to_index` with default options: what the
/// index changes against a tree, or against nothing where no tree is given.
#[verifier::external_body]
pub(crate) fn diff_tree_to_index<'r>(
    repo: &'r git2::Repository,
    tree: Option<&git2::Tree<'_>>,
    index: &git2::Index,
) -> (r: Result<git2::Diff<'r>, git2::Error>) {
    repo.diff_tree_to_index(tree, Some(index), None)
}

/// `git2::Diff::deltas`: the changed entries of a diff, each with its kind
/// and the paths of its two sides.
#[verifier::external_body]
pub(crate) fn diff_changes(diff: &git2::Diff<'_>) -> (r: Vec<Change>) {
    diff.deltas().map(|d| Change {
        kind: match d.status() {
            git2::Delta::Added => ChangeKind::Added,
            git2::Delta::Deleted => ChangeKind::Deleted,
            git2::Delta::Modified => ChangeKind::Modified,
            _ => ChangeKind::Other,
        },
        new_path: d.new_file().path().map(|p| p.to_string_lossy().into_owned()),
        old_path: d.old_file().path().map(|p| p.to_string_lossy().into_owned()),
    }).collect()
}

} // verus!
