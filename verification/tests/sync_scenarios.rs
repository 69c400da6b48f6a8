use gg::analysis::{analyze, MergeAnalysis};
use gg::commit::{commit_all, plan_amend_move, BranchMove};
use gg::analysis::SyncAction;
use gg::conflicts::{check_resolved, FileWrite, ResolutionPlan, WriteKind, WriteTarget};
use gg::credentials::KeyDirectory;
use gg::error::{interrupted, Precondition, SyncError};
use gg::ids::ObjectId;
use gg::reconcile::{
    after_abort, judge_step, sync_unrelated_histories, Alignment, ReconcileOutcome,
};
use gg::sync::{
    act_on, after_pull, decide_action, end_without_remote, fast_forward, pull, three_way_merge,
    Compared, PullOutcome, RefStep,
};
use gg::transport::{has_remote, push, PushOutcome};
use gg::workflow::{configure_git, is_dirty};
use std::io::Write;

fn init_repo(path: &std::path::Path, bare: bool) -> git2::Repository {
    let mut options = git2::RepositoryInitOptions::new();
    options.initial_head("main");
    options.bare(bare);
    let repo = git2::Repository::init_opts(path, &options).unwrap();
    configure_git(&repo, "Test User", "test@example.com", false).unwrap();
    repo
}

fn id_of(oid: git2::Oid) -> ObjectId {
    ObjectId::from_bytes(oid.as_bytes().to_vec())
}

fn oid_of(id: &ObjectId) -> git2::Oid {
    git2::Oid::from_bytes(id.as_bytes()).unwrap()
}

/// Commits `files` on top of `parents` and moves `refname` there, without
/// touching any working tree.
fn commit_files(
    repo: &git2::Repository,
    refname: &str,
    parents: &[git2::Oid],
    files: &[(&str, &str)],
    message: &str,
) -> git2::Oid {
    let mut index = git2::Index::new().unwrap();
    if let Some(first) = parents.first() {
        index.read_tree(&repo.find_commit(*first).unwrap().tree().unwrap()).unwrap();
    }
    for (path, content) in files {
        let blob = repo.blob(content.as_bytes()).unwrap();
        index
            .add(&git2::IndexEntry {
                ctime: git2::IndexTime::new(0, 0),
                mtime: git2::IndexTime::new(0, 0),
                dev: 0,
                ino: 0,
                mode: 0o100644,
                uid: 0,
                gid: 0,
                file_size: 0,
                id: blob,
                flags: 0,
                flags_extended: 0,
                path: path.as_bytes().to_vec(),
            })
            .unwrap();
    }
    let tree = repo.find_tree(index.write_tree_to(repo).unwrap()).unwrap();
    let signature = git2::Signature::now("Test User", "test@example.com").unwrap();
    let parent_commits: Vec<git2::Commit> =
        parents.iter().map(|p| repo.find_commit(*p).unwrap()).collect();
    let parent_refs: Vec<&git2::Commit> = parent_commits.iter().collect();
    let id = repo.commit(None, &signature, &signature, message, &tree, &parent_refs).unwrap();
    repo.reference(refname, id, true, message).unwrap();
    id
}

/// Like `commit_files`, with `None` for a path that the commit removes.
fn commit_changes(
    repo: &git2::Repository,
    refname: &str,
    parents: &[git2::Oid],
    files: &[(&str, Option<&str>)],
    message: &str,
) -> git2::Oid {
    let kept: Vec<(&str, &str)> =
        files.iter().filter_map(|(p, c)| c.map(|c| (*p, c))).collect();
    let with_files = commit_files(repo, "refs/scratch/with-files", parents, &kept, message);
    let mut index = git2::Index::new().unwrap();
    index.read_tree(&repo.find_commit(with_files).unwrap().tree().unwrap()).unwrap();
    for (path, content) in files {
        if content.is_none() {
            index.remove_path(std::path::Path::new(path)).unwrap();
        }
    }
    let tree = repo.find_tree(index.write_tree_to(repo).unwrap()).unwrap();
    let signature = git2::Signature::now("Test User", "test@example.com").unwrap();
    let parent_commits: Vec<git2::Commit> =
        parents.iter().map(|p| repo.find_commit(*p).unwrap()).collect();
    let parent_refs: Vec<&git2::Commit> = parent_commits.iter().collect();
    let id = repo.commit(None, &signature, &signature, message, &tree, &parent_refs).unwrap();
    repo.reference(refname, id, true, message).unwrap();
    repo.find_reference("refs/scratch/with-files").unwrap().delete().unwrap();
    id
}

fn file_in_commit(repo: &git2::Repository, commit: git2::Oid, path: &str) -> Option<Vec<u8>> {
    let tree = repo.find_commit(commit).unwrap().tree().unwrap();
    let entry = tree.get_path(std::path::Path::new(path)).ok()?;
    Some(repo.find_blob(entry.id()).unwrap().content().to_vec())
}

fn file_on_disk(repo: &git2::Repository, path: &str) -> Option<Vec<u8>> {
    let full = repo.workdir().unwrap().join(path);
    if !full.exists() {
        return None;
    }
    let blob = repo.blob_path(&full).unwrap();
    Some(repo.find_blob(blob).unwrap().content().to_vec())
}

/// Puts `content` into the file at `path` of the working directory, as the
/// caller of a resolution does with each write it is handed.
fn write_to_disk(repo: &git2::Repository, path: &str, content: &[u8]) {
    let workdir = repo.workdir().unwrap();
    let mut file = tempfile::NamedTempFile::new_in(workdir).unwrap();
    file.write_all(content).unwrap();
    file.persist(workdir.join(path)).unwrap();
}

/// A remote with one root commit on `main`, and a local repository linked to
/// it whose `main` sits on that commit.
fn linked_pair(dir: &std::path::Path) -> (git2::Repository, git2::Repository, git2::Oid) {
    let remote = init_repo(&dir.join("remote.git"), true);
    let root = commit_files(&remote, "refs/heads/main", &[], &[("base.txt", "base\n")], "root");
    let local = init_repo(&dir.join("local"), false);
    local.remote("origin", dir.join("remote.git").to_str().unwrap()).unwrap();
    let outcome = sync_unrelated_histories(&local, "origin", &KeyDirectory::empty()).unwrap();
    assert_eq!(
        outcome,
        ReconcileOutcome::Tracking {
            branch: "main".to_string(),
            upstream: "origin/main".to_string(),
            local: None,
            remote: id_of(root),
            alignment: Alignment::Initialized,
        }
    );
    assert_eq!(local.head().unwrap().target().unwrap(), root);
    let again = sync_unrelated_histories(&local, "origin", &KeyDirectory::empty()).unwrap();
    assert_eq!(
        again,
        ReconcileOutcome::Tracking {
            branch: "main".to_string(),
            upstream: "origin/main".to_string(),
            local: Some(id_of(root)),
            remote: id_of(root),
            alignment: Alignment::AlreadyAligned,
        }
    );
    (local, remote, root)
}

#[test]
fn linking_an_empty_local_repository_checks_out_the_remote_branch() {
    let dir = tempfile::tempdir().unwrap();
    let (local, _remote, _root) = linked_pair(dir.path());
    assert_eq!(file_on_disk(&local, "base.txt"), Some(b"base\n".to_vec()));
    assert_eq!(local.head().unwrap().shorthand().unwrap(), "main");
    assert_eq!(is_dirty(&local).unwrap(), false);
}

#[test]
fn pull_without_remote_does_nothing() {
    let dir = tempfile::tempdir().unwrap();
    let local = init_repo(&dir.path().join("solo"), false);
    assert!(!has_remote(&local, "origin"));
    assert_eq!(pull(&local, "origin", "main", &KeyDirectory::empty()).unwrap(), PullOutcome::NoRemote);
    assert_eq!(
        push(&local, "origin", "main", false, &KeyDirectory::empty()).unwrap(),
        PushOutcome::NoRemote
    );
}

#[test]
fn pull_of_an_unchanged_remote_is_up_to_date() {
    let dir = tempfile::tempdir().unwrap();
    let (local, _remote, root) = linked_pair(dir.path());
    let compared = Compared { local: Some(id_of(root)), remote: id_of(root), base: None };
    assert_eq!(
        pull(&local, "origin", "main", &KeyDirectory::empty()).unwrap(),
        PullOutcome::UpToDate { compared }
    );
    assert_eq!(local.head().unwrap().target().unwrap(), root);
    let ahead = commit_files(&local, "refs/heads/main", &[root], &[("l.txt", "l\n")], "ahead");
    let compared = Compared { local: Some(id_of(ahead)), remote: id_of(root), base: Some(id_of(root)) };
    assert_eq!(
        pull(&local, "origin", "main", &KeyDirectory::empty()).unwrap(),
        PullOutcome::UpToDate { compared }
    );
    assert_eq!(local.head().unwrap().target().unwrap(), ahead);
}

#[test]
fn pull_fast_forwards_to_a_descendant() {
    let dir = tempfile::tempdir().unwrap();
    let (local, remote, root) = linked_pair(dir.path());
    let next = commit_files(&remote, "refs/heads/main", &[root], &[("new.txt", "new\n")], "next");
    let outcome = pull(&local, "origin", "main", &KeyDirectory::empty()).unwrap();
    match outcome {
        PullOutcome::FastForwarded { compared, outcome } => {
            assert_eq!(
                compared,
                Compared { local: Some(id_of(root)), remote: id_of(next), base: Some(id_of(root)) }
            );
            assert!(outcome.branch_found);
            assert_eq!(outcome.steps.len(), 3);
            assert_eq!(
                outcome.steps[0],
                RefStep::MoveBranch {
                    refname: "refs/heads/main".to_string(),
                    target: id_of(next),
                    log: format!("Fast-Forward: Setting refs/heads/main to id: {}", next),
                }
            );
            assert_eq!(outcome.steps[1], RefStep::AttachHead { refname: "refs/heads/main".to_string() });
            assert_eq!(outcome.steps[2], RefStep::ForceCheckout);
        }
        other => panic!("expected a fast-forward, got {:?}", other),
    }
    assert_eq!(local.find_reference("refs/heads/main").unwrap().target().unwrap(), next);
    assert_eq!(file_on_disk(&local, "new.txt"), Some(b"new\n".to_vec()));
    assert_eq!(file_on_disk(&local, "base.txt"), Some(b"base\n".to_vec()));
}

#[test]
fn fast_forward_without_the_branch_detaches_head() {
    let dir = tempfile::tempdir().unwrap();
    let (local, remote, root) = linked_pair(dir.path());
    let next = commit_files(&remote, "refs/heads/main", &[root], &[("new.txt", "new\n")], "next");
    let outcome = pull(&local, "origin", "HEAD", &KeyDirectory::empty()).unwrap();
    match outcome {
        PullOutcome::FastForwarded { compared, outcome } => {
            assert_eq!(compared.remote, id_of(next));
            assert!(!outcome.branch_found);
            assert_eq!(outcome.steps, vec![RefStep::DetachHead { target: id_of(next) }]);
        }
        other => panic!("expected a fast-forward, got {:?}", other),
    }
    assert!(local.head_detached().unwrap());
    assert_eq!(local.head().unwrap().target().unwrap(), next);
    assert_eq!(local.find_reference("refs/heads/main").unwrap().target().unwrap(), root);
}

#[test]
fn analysis_follows_ancestry() {
    let dir = tempfile::tempdir().unwrap();
    let repo = init_repo(&dir.path().join("graph"), true);
    let a = commit_files(&repo, "refs/heads/a", &[], &[("a", "1")], "a");
    let b = commit_files(&repo, "refs/heads/b", &[a], &[("b", "1")], "b");
    let c = commit_files(&repo, "refs/heads/c", &[a], &[("c", "1")], "c");
    let other = commit_files(&repo, "refs/heads/other", &[], &[("o", "1")], "other");
    assert_eq!(analyze(&repo, &id_of(a), &id_of(b)).unwrap().kind, MergeAnalysis::FastForward);
    assert_eq!(analyze(&repo, &id_of(b), &id_of(a)).unwrap().kind, MergeAnalysis::UpToDate);
    assert_eq!(analyze(&repo, &id_of(a), &id_of(a)).unwrap().kind, MergeAnalysis::UpToDate);
    let diverged = analyze(&repo, &id_of(b), &id_of(c)).unwrap();
    assert_eq!(diverged.kind, MergeAnalysis::Normal);
    assert_eq!(diverged.base, Some(id_of(a)));
    let unrelated = analyze(&repo, &id_of(b), &id_of(other)).unwrap();
    assert_eq!(unrelated.kind, MergeAnalysis::Normal);
    assert_eq!(unrelated.base, None);
}

#[test]
fn diverged_histories_with_disjoint_files_merge_with_two_parents() {
    let dir = tempfile::tempdir().unwrap();
    let (local, remote, root) = linked_pair(dir.path());
    let l1 = commit_files(&local, "refs/heads/main", &[root], &[("local.txt", "L1\n")], "L1");
    local.checkout_head(Some(git2::build::CheckoutBuilder::new().force())).unwrap();
    let r1 = commit_files(&remote, "refs/heads/main", &[root], &[("remote.txt", "R1\n")], "R1");
    let outcome = pull(&local, "origin", "main", &KeyDirectory::empty()).unwrap();
    let merge = match outcome {
        PullOutcome::Merged { compared, outcome } => {
            assert_eq!(
                compared,
                Compared { local: Some(id_of(l1)), remote: id_of(r1), base: Some(id_of(root)) }
            );
            assert_eq!(outcome.request.parents, vec![id_of(l1), id_of(r1)]);
            assert_eq!(outcome.request.message, "Merge remote-tracking branch 'origin/main' into main");
            assert_eq!(outcome.request.update_ref, Some("HEAD".to_string()));
            assert_eq!(outcome.branch, "main");
            assert!(outcome.resolution.is_none());
            oid_of(&outcome.commit)
        }
        other => panic!("expected a merge, got {:?}", other),
    };
    let commit = local.find_commit(merge).unwrap();
    assert_eq!(commit.parent_count(), 2);
    assert_eq!(commit.parent_id(0).unwrap(), l1);
    assert_eq!(commit.parent_id(1).unwrap(), r1);
    assert_eq!(local.head().unwrap().target().unwrap(), merge);
    assert_eq!(file_in_commit(&local, merge, "local.txt"), Some(b"L1\n".to_vec()));
    assert_eq!(file_in_commit(&local, merge, "remote.txt"), Some(b"R1\n".to_vec()));
    assert_eq!(file_on_disk(&local, "remote.txt"), Some(b"R1\n".to_vec()));
    assert_eq!(file_on_disk(&local, "local.txt"), Some(b"L1\n".to_vec()));
    assert_eq!(file_on_disk(&local, "local.txt.theirs"), None);
    assert_eq!(file_on_disk(&local, "remote.txt.theirs"), None);
}

#[test]
fn conflicting_change_keeps_the_local_version_and_saves_the_remote_one() {
    let dir = tempfile::tempdir().unwrap();
    let remote = init_repo(&dir.path().join("remote.git"), true);
    let root = commit_files(&remote, "refs/heads/main", &[], &[("f.txt", "base\n")], "root");
    let local = init_repo(&dir.path().join("local"), false);
    local.remote("origin", dir.path().join("remote.git").to_str().unwrap()).unwrap();
    sync_unrelated_histories(&local, "origin", &KeyDirectory::empty()).unwrap();
    let l1 = commit_files(&local, "refs/heads/main", &[root], &[("f.txt", "local\n")], "L1");
    local.checkout_head(Some(git2::build::CheckoutBuilder::new().force())).unwrap();
    let r1 = commit_files(&remote, "refs/heads/main", &[root], &[("f.txt", "remote\n")], "R1");
    let outcome = pull(&local, "origin", "main", &KeyDirectory::empty()).unwrap();
    let (merge, resolution) = match outcome {
        PullOutcome::Merged { compared, outcome } => {
            assert_eq!(compared.local, Some(id_of(l1)));
            assert_eq!(compared.remote, id_of(r1));
            (oid_of(&outcome.commit), outcome.resolution.expect("conflicts were resolved"))
        }
        other => panic!("expected a merge, got {:?}", other),
    };
    assert_eq!(resolution.conflicts.len(), 1);
    assert_eq!(resolution.plan.unresolved.len(), 0);
    assert_eq!(resolution.plan.remote_absent.len(), 0);
    assert_eq!(resolution.restores.len(), 1);
    assert_eq!(resolution.restores[0].target.path, "f.txt");
    assert_eq!(resolution.restores[0].target.kind, WriteKind::Ours);
    assert_eq!(resolution.restores[0].content, b"local\n".to_vec());
    assert_eq!(resolution.artifacts.len(), 1);
    assert_eq!(resolution.artifacts[0].target.path, "f.txt.theirs");
    assert_eq!(resolution.artifacts[0].target.kind, WriteKind::Theirs);
    assert_eq!(resolution.artifacts[0].content, b"remote\n".to_vec());
    let commit = local.find_commit(merge).unwrap();
    assert_eq!(commit.parent_count(), 2);
    assert_eq!(file_in_commit(&local, merge, "f.txt"), Some(b"local\n".to_vec()));
    assert_eq!(file_on_disk(&local, "f.txt"), Some(b"local\n".to_vec()));
    assert!(!local.index().unwrap().has_conflicts());
    assert_eq!(file_on_disk(&local, "f.txt.theirs"), None);
    for write in &resolution.artifacts {
        write_to_disk(&local, &write.target.path, &write.content);
    }
    assert_eq!(file_on_disk(&local, "f.txt"), Some(b"local\n".to_vec()));
    assert_eq!(file_on_disk(&local, "f.txt.theirs"), Some(b"remote\n".to_vec()));
}

/// A remote and a local repository that both changed what `root` holds.
fn diverged(
    dir: &std::path::Path,
    base: &[(&str, Option<&str>)],
    ours: &[(&str, Option<&str>)],
    theirs: &[(&str, Option<&str>)],
) -> (git2::Repository, git2::Oid, git2::Oid) {
    let remote = init_repo(&dir.join("remote.git"), true);
    let root = commit_changes(&remote, "refs/heads/main", &[], base, "root");
    let local = init_repo(&dir.join("local"), false);
    local.remote("origin", dir.join("remote.git").to_str().unwrap()).unwrap();
    sync_unrelated_histories(&local, "origin", &KeyDirectory::empty()).unwrap();
    let l1 = commit_changes(&local, "refs/heads/main", &[root], ours, "L1");
    local.checkout_head(Some(git2::build::CheckoutBuilder::new().force())).unwrap();
    let r1 = commit_changes(&remote, "refs/heads/main", &[root], theirs, "R1");
    (local, l1, r1)
}

#[test]
fn several_conflicts_leave_one_artifact_each() {
    let dir = tempfile::tempdir().unwrap();
    let (local, l1, r1) = diverged(
        dir.path(),
        &[("a.txt", Some("a0\n")), ("dir/sub/b.txt", Some("b0\n")), ("c.txt", Some("c0\n"))],
        &[("a.txt", Some("a-local\n")), ("dir/sub/b.txt", Some("b-local\n")), ("l.txt", Some("l\n"))],
        &[("a.txt", Some("a-remote\n")), ("dir/sub/b.txt", Some("b-remote\n")), ("c.txt", Some("c1\n"))],
    );
    let outcome = pull(&local, "origin", "main", &KeyDirectory::empty()).unwrap();
    let (merge, resolution) = match outcome {
        PullOutcome::Merged { outcome, .. } => {
            assert_eq!(outcome.request.parents, vec![id_of(l1), id_of(r1)]);
            (oid_of(&outcome.commit), outcome.resolution.expect("conflicts were resolved"))
        }
        other => panic!("expected a merge, got {:?}", other),
    };
    assert_eq!(resolution.conflicts.len(), 2);
    assert_eq!(resolution.artifacts.len(), 2);
    assert_eq!(resolution.restores.len(), 2);
    let mut artifacts: Vec<(String, Vec<u8>)> = resolution
        .artifacts
        .iter()
        .map(|w| (w.target.path.clone(), w.content.clone()))
        .collect();
    artifacts.sort();
    assert_eq!(
        artifacts,
        vec![
            ("a.txt.theirs".to_string(), b"a-remote\n".to_vec()),
            ("dir/sub/b.txt.theirs".to_string(), b"b-remote\n".to_vec()),
        ]
    );
    assert_eq!(file_in_commit(&local, merge, "a.txt"), Some(b"a-local\n".to_vec()));
    assert_eq!(file_in_commit(&local, merge, "dir/sub/b.txt"), Some(b"b-local\n".to_vec()));
    assert_eq!(file_in_commit(&local, merge, "c.txt"), Some(b"c1\n".to_vec()));
    assert_eq!(file_in_commit(&local, merge, "l.txt"), Some(b"l\n".to_vec()));
    assert_eq!(file_in_commit(&local, merge, "a.txt.theirs"), None);
    assert_eq!(file_on_disk(&local, "a.txt"), Some(b"a-local\n".to_vec()));
    assert_eq!(file_on_disk(&local, "dir/sub/b.txt"), Some(b"b-local\n".to_vec()));
    assert_eq!(file_on_disk(&local, "c.txt"), Some(b"c1\n".to_vec()));
    assert!(!local.index().unwrap().has_conflicts());
    assert!(!is_dirty(&local).unwrap());
}

#[test]
fn remote_deletion_of_a_changed_file_keeps_the_local_version() {
    let dir = tempfile::tempdir().unwrap();
    let (local, _l1, _r1) = diverged(
        dir.path(),
        &[("f.txt", Some("base\n")), ("g.txt", Some("g\n"))],
        &[("f.txt", Some("local\n"))],
        &[("f.txt", None)],
    );
    let outcome = pull(&local, "origin", "main", &KeyDirectory::empty()).unwrap();
    let (merge, resolution) = match outcome {
        PullOutcome::Merged { outcome, .. } => {
            (oid_of(&outcome.commit), outcome.resolution.expect("conflicts were resolved"))
        }
        other => panic!("expected a merge, got {:?}", other),
    };
    assert_eq!(resolution.plan.remote_absent, vec!["f.txt"]);
    assert!(resolution.artifacts.is_empty());
    assert_eq!(file_in_commit(&local, merge, "f.txt"), Some(b"local\n".to_vec()));
    assert_eq!(file_on_disk(&local, "f.txt"), Some(b"local\n".to_vec()));
}

#[test]
fn a_merge_that_cannot_check_out_hands_the_remote_versions_back() {
    let dir = tempfile::tempdir().unwrap();
    let repo = init_repo(&dir.path().join("bare.git"), true);
    let root = commit_files(&repo, "refs/heads/main", &[], &[("f.txt", "base\n")], "root");
    let r1 = commit_files(&repo, "refs/heads/other", &[root], &[("f.txt", "remote\n")], "R1");
    let l1 = commit_files(&repo, "refs/heads/main", &[root], &[("f.txt", "local\n")], "L1");
    let failure = three_way_merge(&repo, &id_of(l1), &id_of(r1), &id_of(root), "origin")
        .expect_err("a bare repository has nothing to check out");
    match failure {
        SyncError::Interrupted { cause, artifacts } => {
            assert!(matches!(*cause, SyncError::Engine { .. }));
            assert_eq!(artifacts.len(), 1);
            assert_eq!(artifacts[0].target.path, "f.txt.theirs");
            assert_eq!(artifacts[0].target.kind, WriteKind::Theirs);
            assert_eq!(artifacts[0].content, b"remote\n".to_vec());
        }
        other => panic!("expected an interrupted merge, got {:?}", other),
    }
    let merge = repo.head().unwrap().target().unwrap();
    let commit = repo.find_commit(merge).unwrap();
    assert_eq!(commit.parent_count(), 2);
    assert_eq!(commit.parent_id(0).unwrap(), l1);
    assert_eq!(commit.parent_id(1).unwrap(), r1);
    assert_eq!(file_in_commit(&repo, merge, "f.txt"), Some(b"local\n".to_vec()));
}

#[test]
fn local_deletion_of_a_remotely_changed_file_stops_the_merge() {
    let dir = tempfile::tempdir().unwrap();
    let (local, l1, _r1) = diverged(
        dir.path(),
        &[("f.txt", Some("base\n")), ("g.txt", Some("g\n"))],
        &[("f.txt", None)],
        &[("f.txt", Some("remote\n"))],
    );
    let outcome = pull(&local, "origin", "main", &KeyDirectory::empty());
    assert_eq!(outcome, Err(SyncError::Unresolved { paths: vec!["f.txt".to_string()] }));
    assert_eq!(local.head().unwrap().target().unwrap(), l1);
    assert_eq!(file_on_disk(&local, "f.txt"), None);
    assert!(!local.index().unwrap().has_conflicts());
}

#[test]
fn unrelated_histories_are_refused_by_pull_and_joined_by_replay() {
    let dir = tempfile::tempdir().unwrap();
    let remote = init_repo(&dir.path().join("remote.git"), true);
    let r0 = commit_files(&remote, "refs/heads/main", &[], &[("remote.txt", "R\n")], "remote root");
    let local = init_repo(&dir.path().join("local"), false);
    let l0 = commit_files(&local, "refs/heads/main", &[], &[("local.txt", "L\n")], "local root");
    local.checkout_head(Some(git2::build::CheckoutBuilder::new().force())).unwrap();
    local.remote("origin", dir.path().join("remote.git").to_str().unwrap()).unwrap();
    assert_eq!(
        pull(&local, "origin", "main", &KeyDirectory::empty()),
        Err(SyncError::Precondition(Precondition::NoCommonAncestor))
    );
    assert_eq!(local.head().unwrap().target().unwrap(), l0);
    let outcome = sync_unrelated_histories(&local, "origin", &KeyDirectory::empty()).unwrap();
    assert_eq!(
        outcome,
        ReconcileOutcome::Tracking {
            branch: "main".to_string(),
            upstream: "origin/main".to_string(),
            local: Some(id_of(l0)),
            remote: id_of(r0),
            alignment: Alignment::Replayed(1),
        }
    );
    let tip = local.head().unwrap().peel_to_commit().unwrap();
    assert_eq!(tip.parent_count(), 1);
    assert_eq!(tip.parent_id(0).unwrap(), r0);
    assert_eq!(tip.message().unwrap(), "local root");
    assert_eq!(file_on_disk(&local, "local.txt"), Some(b"L\n".to_vec()));
    assert_eq!(file_on_disk(&local, "remote.txt"), Some(b"R\n".to_vec()));
}

#[test]
fn replayed_commits_keep_their_author() {
    let dir = tempfile::tempdir().unwrap();
    let remote = init_repo(&dir.path().join("remote.git"), true);
    commit_files(&remote, "refs/heads/main", &[], &[("remote.txt", "R\n")], "remote root");
    let local = init_repo(&dir.path().join("local"), false);
    {
        let blob = local.blob(b"L\n").unwrap();
        let mut builder = local.treebuilder(None).unwrap();
        builder.insert("local.txt", blob, 0o100644).unwrap();
        let tree = local.find_tree(builder.write().unwrap()).unwrap();
        let author = git2::Signature::now("Original Author", "author@example.com").unwrap();
        let committer = git2::Signature::now("First Committer", "first@example.com").unwrap();
        local.commit(Some("refs/heads/main"), &author, &committer, "local work", &tree, &[]).unwrap();
    }
    local.checkout_head(Some(git2::build::CheckoutBuilder::new().force())).unwrap();
    local.remote("origin", dir.path().join("remote.git").to_str().unwrap()).unwrap();
    sync_unrelated_histories(&local, "origin", &KeyDirectory::empty()).unwrap();
    let tip = local.head().unwrap().peel_to_commit().unwrap();
    assert_eq!(tip.message().unwrap(), "local work");
    assert_eq!(tip.author().name().unwrap(), "Original Author");
    assert_eq!(tip.author().email().unwrap(), "author@example.com");
    assert_eq!(tip.committer().name().unwrap(), "Test User");
    assert_eq!(gg::reconcile::replayed_author(), gg::reconcile::ReplayAuthor::Original);
}

#[test]
fn replay_that_conflicts_is_rolled_back() {
    let dir = tempfile::tempdir().unwrap();
    let remote = init_repo(&dir.path().join("remote.git"), true);
    commit_files(&remote, "refs/heads/main", &[], &[("f.txt", "remote\n")], "remote root");
    let local = init_repo(&dir.path().join("local"), false);
    let l0 = commit_files(&local, "refs/heads/main", &[], &[("f.txt", "local\n")], "local root");
    local.checkout_head(Some(git2::build::CheckoutBuilder::new().force())).unwrap();
    local.remote("origin", dir.path().join("remote.git").to_str().unwrap()).unwrap();
    let outcome = sync_unrelated_histories(&local, "origin", &KeyDirectory::empty());
    assert_eq!(outcome, Err(SyncError::Conflict { step: 0 }));
    assert_eq!(local.find_reference("refs/heads/main").unwrap().target().unwrap(), l0);
    assert_eq!(local.head().unwrap().target().unwrap(), l0);
    assert!(!local.head_detached().unwrap());
    assert_eq!(local.head().unwrap().name().unwrap(), "refs/heads/main");
    assert_eq!(file_on_disk(&local, "f.txt"), Some(b"local\n".to_vec()));
    assert_eq!(local.state(), git2::RepositoryState::Clean);
    assert!(!local.index().unwrap().has_conflicts());
    let branch = local.find_branch("main", git2::BranchType::Local).unwrap();
    assert!(branch.upstream().is_err());
}

#[test]
fn replay_that_the_engine_cannot_apply_is_rolled_back() {
    let dir = tempfile::tempdir().unwrap();
    let remote = init_repo(&dir.path().join("remote.git"), true);
    commit_files(&remote, "refs/heads/main", &[], &[("remote.txt", "R\n")], "remote root");
    let local = init_repo(&dir.path().join("local"), false);
    let l0 = commit_files(
        &local,
        "refs/heads/main",
        &[],
        &[("a.txt", "A\n"), ("b.txt", "B\n")],
        "local root",
    );
    let l1 = commit_changes(&local, "refs/heads/main", &[l0], &[("b.txt", None)], "drop b");
    local.checkout_head(Some(git2::build::CheckoutBuilder::new().force())).unwrap();
    // An untracked file stands where the first replayed commit puts one.
    write_to_disk(&local, "b.txt", b"stray\n");
    local.remote("origin", dir.path().join("remote.git").to_str().unwrap()).unwrap();
    let outcome = sync_unrelated_histories(&local, "origin", &KeyDirectory::empty());
    assert!(matches!(outcome, Err(SyncError::Engine { .. })), "{:?}", outcome);
    assert_eq!(local.state(), git2::RepositoryState::Clean);
    assert_eq!(local.find_reference("refs/heads/main").unwrap().target().unwrap(), l1);
    assert_eq!(local.head().unwrap().target().unwrap(), l1);
    assert!(!local.head_detached().unwrap());
    assert_eq!(file_on_disk(&local, "a.txt"), Some(b"A\n".to_vec()));
    assert_eq!(file_on_disk(&local, "b.txt"), Some(b"stray\n".to_vec()));
    let branch = local.find_branch("main", git2::BranchType::Local).unwrap();
    assert!(branch.upstream().is_err());
}

#[test]
fn remote_without_the_branch_is_reported_empty() {
    let dir = tempfile::tempdir().unwrap();
    let _remote = init_repo(&dir.path().join("remote.git"), true);
    let local = init_repo(&dir.path().join("local"), false);
    local.remote("origin", dir.path().join("remote.git").to_str().unwrap()).unwrap();
    assert_eq!(
        sync_unrelated_histories(&local, "origin", &KeyDirectory::empty()).unwrap(),
        ReconcileOutcome::RemoteEmpty { branch: "main".to_string() }
    );
}

#[test]
fn push_publishes_the_branch_and_refuses_head() {
    let dir = tempfile::tempdir().unwrap();
    let (local, remote, root) = linked_pair(dir.path());
    let l1 = commit_files(&local, "refs/heads/main", &[root], &[("local.txt", "L1\n")], "L1");
    assert_eq!(
        push(&local, "origin", "HEAD", false, &KeyDirectory::empty()),
        Err(SyncError::Precondition(Precondition::PushHead))
    );
    assert_eq!(
        push(&local, "origin", "main", false, &KeyDirectory::empty()).unwrap(),
        PushOutcome::Pushed { refspec: "refs/heads/main:refs/heads/main".to_string() }
    );
    assert_eq!(remote.find_reference("refs/heads/main").unwrap().target().unwrap(), l1);
    let rewritten = commit_files(&local, "refs/heads/main", &[root], &[("other.txt", "x\n")], "other");
    assert!(push(&local, "origin", "main", false, &KeyDirectory::empty()).is_err());
    assert_eq!(
        push(&local, "origin", "main", true, &KeyDirectory::empty()).unwrap(),
        PushOutcome::Pushed { refspec: "+refs/heads/main:refs/heads/main".to_string() }
    );
    assert_eq!(remote.find_reference("refs/heads/main").unwrap().target().unwrap(), rewritten);
}

#[test]
fn fast_forward_moves_the_branch_to_the_target() {
    let dir = tempfile::tempdir().unwrap();
    let repo = init_repo(&dir.path().join("repo"), false);
    let a = commit_files(&repo, "refs/heads/main", &[], &[("a.txt", "1\n")], "a");
    let b = commit_files(&repo, "refs/heads/side", &[a], &[("b.txt", "2\n")], "b");
    let outcome = fast_forward(&repo, "main", &id_of(b)).unwrap();
    assert!(outcome.branch_found);
    assert_eq!(repo.find_reference("refs/heads/main").unwrap().target().unwrap(), b);
    assert_eq!(repo.head().unwrap().name().unwrap(), "refs/heads/main");
    assert_eq!(file_on_disk(&repo, "a.txt"), Some(b"1\n".to_vec()));
    assert_eq!(file_on_disk(&repo, "b.txt"), Some(b"2\n".to_vec()));
}

#[test]
fn only_an_amending_commit_is_followed_by_a_move_of_the_branch() {
    assert_eq!(plan_amend_move(false, &id_of(git2::Oid::ZERO_SHA1)), None);
    assert_eq!(
        plan_amend_move(true, &ObjectId::from_bytes(vec![7; 20])),
        Some(BranchMove {
            target: ObjectId::from_bytes(vec![7; 20]),
            log: "gg: amend commit".to_string()
        })
    );
}

#[test]
fn comparisons_decide_what_a_pull_does() {
    let dir = tempfile::tempdir().unwrap();
    let repo = init_repo(&dir.path().join("repo"), false);
    let id = |b: u8| ObjectId::from_bytes(vec![b; 20]);
    let unrelated = Compared { local: Some(id(1)), remote: id(2), base: None };
    assert_eq!(decide_action(&unrelated), SyncAction::Reconcile);
    assert_eq!(
        act_on(&repo, "origin", "main", unrelated),
        Err(SyncError::Precondition(Precondition::NoCommonAncestor))
    );
    let contained = Compared { local: Some(id(1)), remote: id(2), base: Some(id(2)) };
    assert_eq!(decide_action(&contained), SyncAction::Nothing);
    assert_eq!(
        act_on(&repo, "origin", "main", contained),
        Ok(PullOutcome::UpToDate {
            compared: Compared { local: Some(id(1)), remote: id(2), base: Some(id(2)) }
        })
    );
    let same = Compared { local: Some(id(1)), remote: id(1), base: None };
    assert_eq!(decide_action(&same), SyncAction::Nothing);
    let behind = Compared { local: Some(id(1)), remote: id(2), base: Some(id(1)) };
    assert_eq!(decide_action(&behind), SyncAction::FastForward);
    let fresh = Compared { local: None, remote: id(2), base: None };
    assert_eq!(decide_action(&fresh), SyncAction::FastForward);
    let diverged = Compared { local: Some(id(1)), remote: id(2), base: Some(id(3)) };
    assert_eq!(decide_action(&diverged), SyncAction::Merge);
    assert!(matches!(
        act_on(&repo, "origin", "main", diverged),
        Err(SyncError::Engine { .. })
    ));
}

#[test]
fn a_pull_ends_early_only_without_the_remote() {
    assert_eq!(end_without_remote(false), Some(PullOutcome::NoRemote));
    assert_eq!(end_without_remote(true), None);
}

#[test]
fn replay_steps_are_judged_by_their_conflicts() {
    assert_eq!(judge_step(false, 0), Ok(()));
    assert_eq!(judge_step(false, 7), Ok(()));
    assert_eq!(judge_step(true, 0), Err(SyncError::Conflict { step: 0 }));
    assert_eq!(judge_step(true, 7), Err(SyncError::Conflict { step: 7 }));
    let conflict = || SyncError::Conflict { step: 2 };
    let broken = || SyncError::Engine { message: "cannot abort".to_string() };
    assert_eq!(after_abort(conflict(), Ok(())), conflict());
    assert_eq!(after_abort(conflict(), Err(broken())), broken());
}

#[test]
fn failures_after_a_resolution_carry_the_artifacts() {
    let cause = || SyncError::Engine { message: "checkout failed".to_string() };
    assert_eq!(interrupted(cause(), Vec::new()), cause());
    let write = || FileWrite {
        target: WriteTarget {
            path: "f.txt.theirs".to_string(),
            source: ObjectId::from_bytes(vec![2; 20]),
            kind: WriteKind::Theirs,
        },
        content: b"remote\n".to_vec(),
    };
    let failure = interrupted(cause(), vec![write()]);
    assert_eq!(
        failure,
        SyncError::Interrupted { cause: Box::new(cause()), artifacts: vec![write()] }
    );
    assert_eq!(failure.message(), "checkout failed");
    assert_eq!(after_pull(cause(), PullOutcome::NoRemote), cause());
    let plan = ResolutionPlan {
        restores: Vec::new(),
        artifacts: Vec::new(),
        staged: Vec::new(),
        remote_absent: Vec::new(),
        unresolved: vec!["gone.txt".to_string(), "old.txt".to_string()],
    };
    assert_eq!(
        check_resolved(&plan),
        Err(SyncError::Unresolved { paths: vec!["gone.txt".to_string(), "old.txt".to_string()] })
    );
    let clean = ResolutionPlan { unresolved: Vec::new(), ..plan };
    assert_eq!(check_resolved(&clean), Ok(()));
}

#[test]
fn commit_all_commits_the_index_on_top_of_head() {
    let dir = tempfile::tempdir().unwrap();
    let repo = init_repo(&dir.path().join("repo"), false);
    assert_eq!(
        commit_all(&repo, "nothing yet", true),
        Err(SyncError::Precondition(Precondition::NothingToAmend))
    );
    let first = commit_all(&repo, "first", false).unwrap();
    assert_eq!(first.previous, None);
    assert_eq!(first.request.parents, Vec::<ObjectId>::new());
    assert_eq!(first.request.update_ref, Some("HEAD".to_string()));
    assert_eq!(repo.head().unwrap().target().unwrap(), oid_of(&first.id));
    let second = commit_all(&repo, "second", false).unwrap();
    assert_eq!(second.request.parents, vec![first.id.clone()]);
    assert_eq!(second.request.message, "second");
    assert_eq!(second.moved, None);
    let amended = commit_all(&repo, "ignored", true).unwrap();
    assert_eq!(
        amended.moved,
        Some(BranchMove { target: amended.id.clone(), log: "gg: amend commit".to_string() })
    );
    assert_eq!(amended.request.update_ref, None);
    assert_eq!(amended.request.message, "second");
    assert_eq!(amended.request.parents, vec![first.id.clone()]);
    let head = repo.head().unwrap().peel_to_commit().unwrap();
    assert_eq!(head.id(), oid_of(&amended.id));
    assert_eq!(head.message().unwrap(), "second");
    assert_eq!(head.parent_id(0).unwrap(), oid_of(&first.id));
    assert_eq!(repo.head().unwrap().name().unwrap(), "refs/heads/main");
}
