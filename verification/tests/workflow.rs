use gg::error::{
    engine_failure, lift, lift_transport, transport_failure, EngineFailure,
    FailureKind, Precondition, SyncError,
};
use gg::conflicts::Resolution;
use gg::resolve::{
    conclude_resolution, first_phase, next_phase, resolve, ResolutionPhase, ResolveOutcome,
};
use gg::sync::{checkout_mode, CheckoutMode, CheckoutOccasion};
use gg::workflow::{
    accepts_deletion, configure_git, decide_branch_fate, guard_clean, has_changes,
    is_affirmative, is_dirty, link_remote, needs_clean_tree, pick_main_branch, plan_link,
    plan_save, status_scope, BranchFate, Operation, RemoteLink, SavePlan, StatusScope,
};
use std::io::Write;

#[test]
fn which_operations_need_a_clean_tree() {
    assert!(needs_clean_tree(Operation::Feature));
    assert!(needs_clean_tree(Operation::Done));
    assert!(needs_clean_tree(Operation::Remote));
    assert!(!needs_clean_tree(Operation::Save));
    assert!(!needs_clean_tree(Operation::Creds));
}

#[test]
fn dirty_tree_stops_the_operations_that_need_a_clean_one() {
    let refused = Err(SyncError::Precondition(Precondition::DirtyTree));
    assert_eq!(guard_clean(Operation::Feature, true), refused);
    assert_eq!(guard_clean(Operation::Done, true), refused);
    assert_eq!(guard_clean(Operation::Remote, true), refused);
    assert_eq!(guard_clean(Operation::Save, true), Ok(()));
    assert_eq!(guard_clean(Operation::Creds, true), Ok(()));
    assert_eq!(guard_clean(Operation::Feature, false), Ok(()));
    assert_eq!(guard_clean(Operation::Save, false), Ok(()));
}

#[test]
fn a_save_pushes_with_force_only_after_amending() {
    assert_eq!(
        plan_save(false, false),
        SavePlan { pull: true, commit: true, push: true, force: false }
    );
    assert_eq!(
        plan_save(false, true),
        SavePlan { pull: true, commit: true, push: true, force: true }
    );
    let nothing = SavePlan { pull: false, commit: false, push: false, force: false };
    assert_eq!(plan_save(true, false), nothing);
    assert_eq!(plan_save(true, true), nothing);
}

#[test]
fn answers_to_the_deletion_prompt() {
    assert!(accepts_deletion("y"));
    assert!(accepts_deletion("yes"));
    assert!(accepts_deletion("Y\n"));
    assert!(accepts_deletion("  YES \r\n"));
    assert!(accepts_deletion("\tYeS"));
    assert!(accepts_deletion("\u{3000}yes\u{2003}\u{a0}"));
    assert!(!accepts_deletion("\u{200b}yes"));
    assert!(!accepts_deletion(""));
    assert!(!accepts_deletion("\n"));
    assert!(!accepts_deletion("n"));
    assert!(!accepts_deletion("no"));
    assert!(!accepts_deletion("yess"));
    assert!(!accepts_deletion("y es"));
    assert!(!accepts_deletion("ye"));
}

#[test]
fn what_the_engine_is_handed() {
    assert_eq!(status_scope(), StatusScope { untracked: true, recurse_untracked: true });
    assert_eq!(gg::sync::merge_checkout(), CheckoutMode::Force);
    assert_eq!(checkout_mode(CheckoutOccasion::AfterMerge), CheckoutMode::Force);
    assert_eq!(checkout_mode(CheckoutOccasion::FirstLink), CheckoutMode::Force);
    assert_eq!(checkout_mode(CheckoutOccasion::BranchSwitch), CheckoutMode::Safe);
    assert_eq!(gg::conflicts::merged_entry_flags(), 0);
}

#[test]
fn normalised_answers() {
    assert!(is_affirmative("y"));
    assert!(is_affirmative("yes"));
    assert!(!is_affirmative("Y"));
    assert!(!is_affirmative("yes "));
    assert!(!is_affirmative(""));
    assert!(!is_affirmative("ye"));
    assert!(!is_affirmative("n"));
}

#[test]
fn untracked_files_in_untracked_directories_count() {
    let dir = tempfile::tempdir().unwrap();
    let repo = init(dir.path(), false);
    assert!(!is_dirty(&repo).unwrap());
    let nested = tempfile::Builder::new().prefix("untracked").tempdir_in(dir.path()).unwrap();
    let mut file = tempfile::NamedTempFile::new_in(nested.path()).unwrap();
    file.write_all(b"x").unwrap();
    assert!(is_dirty(&repo).unwrap());
}

#[test]
fn small_decisions() {
    assert!(has_changes(1));
    assert!(has_changes(usize::MAX));
    assert!(!has_changes(0));
    assert_eq!(plan_link(true), RemoteLink::Updated);
    assert_eq!(plan_link(false), RemoteLink::Added);
    assert_eq!(pick_main_branch(true), "main");
    assert_eq!(pick_main_branch(false), "master");
    assert_eq!(gg::sync::head_branch_name(Some("topic".to_string())), "topic");
    assert_eq!(gg::sync::head_branch_name(None), "HEAD");
}

#[test]
fn what_becomes_of_the_feature_branch() {
    assert_eq!(decide_branch_fate(true, true, false), BranchFate::Keep);
    assert_eq!(decide_branch_fate(true, false, true), BranchFate::Keep);
    assert_eq!(decide_branch_fate(false, true, false), BranchFate::Ask);
    assert_eq!(decide_branch_fate(false, true, true), BranchFate::Delete);
    assert_eq!(decide_branch_fate(false, false, false), BranchFate::Delete);
    assert_eq!(decide_branch_fate(false, false, true), BranchFate::Delete);
}

#[test]
fn failures_have_their_texts() {
    let text = |p: Precondition| SyncError::Precondition(p).message();
    assert_eq!(text(Precondition::PushHead), "Cannot push 'HEAD'. You must be on a named branch.");
    assert_eq!(text(Precondition::NothingToAmend), "No commit to amend");
    assert_eq!(text(Precondition::NoWorkdir), "Repository has no workdir");
    assert_eq!(text(Precondition::NotOnBranch), "Not on a valid branch");
    assert_eq!(
        text(Precondition::NoCommonAncestor),
        "No common ancestor. Link the remote to replay local history onto it."
    );
    assert_eq!(text(Precondition::DirtyTree), "You have unstaged changes or untracked files.");
    assert_eq!(text(Precondition::UnreadableBranchName), "Branch refname not found");
    assert_eq!(Precondition::PushHead.message(), text(Precondition::PushHead));
    assert_eq!(
        SyncError::Conflict { step: 3 }.message(),
        "Conflict! Rebase aborted. Resolve manually."
    );
    assert_eq!(
        SyncError::Io { path: "f.txt".to_string(), message: "disk full".to_string() }.message(),
        "Failed to write f.txt: disk full"
    );
    assert_eq!(
        SyncError::Unresolved { paths: vec!["a".to_string(), "b".to_string()] }.message(),
        "Conflict! 2 path(s) deleted locally and changed remotely. Resolve manually."
    );
    assert_eq!(SyncError::Auth { message: "denied".to_string() }.message(), "denied");
    assert_eq!(SyncError::Transport { message: "no route".to_string() }.message(), "no route");
    assert_eq!(SyncError::Engine { message: "corrupt".to_string() }.message(), "corrupt");
}

#[test]
fn engine_failures_are_sorted_by_kind() {
    let auth = git2::Error::new(git2::ErrorCode::Auth, git2::ErrorClass::Ssh, "denied");
    let other = git2::Error::new(git2::ErrorCode::NotFound, git2::ErrorClass::Net, "no route");
    let failure = |kind: FailureKind, text: &str| EngineFailure { kind, message: text.to_string() };
    assert_eq!(
        transport_failure(&failure(FailureKind::Auth, "denied")),
        SyncError::Auth { message: "denied".to_string() }
    );
    assert_eq!(
        transport_failure(&failure(FailureKind::NotFound, "no route")),
        SyncError::Transport { message: "no route".to_string() }
    );
    assert_eq!(
        transport_failure(&failure(FailureKind::Other, "")),
        SyncError::Transport { message: String::new() }
    );
    assert_eq!(
        lift_transport(Err::<u8, git2::Error>(other)),
        Err(SyncError::Transport { message: "no route".to_string() })
    );
    let refused = git2::Error::new(git2::ErrorCode::Auth, git2::ErrorClass::Http, "refused");
    assert_eq!(
        lift_transport(Err::<u8, git2::Error>(refused)),
        Err(SyncError::Auth { message: "refused".to_string() })
    );
    assert_eq!(engine_failure(&auth), SyncError::Engine { message: "denied".to_string() });
    assert_eq!(lift(Ok::<u8, git2::Error>(7)), Ok(7));
    assert_eq!(
        lift(Err::<u8, git2::Error>(git2::Error::from_str("broken"))),
        Err(SyncError::Engine { message: "broken".to_string() })
    );
    assert_eq!(lift_transport(Ok::<u8, git2::Error>(7)), Ok(7));
    assert_eq!(
        lift_transport(Err::<u8, git2::Error>(git2::Error::from_str("broken"))),
        Err(SyncError::Transport { message: "broken".to_string() })
    );
}

fn init(path: &std::path::Path, bare: bool) -> git2::Repository {
    let mut options = git2::RepositoryInitOptions::new();
    options.initial_head("main");
    options.bare(bare);
    let repo = git2::Repository::init_opts(path, &options).unwrap();
    configure_git(&repo, "Test User", "test@example.com", false).unwrap();
    repo
}

fn commit_files(
    repo: &git2::Repository,
    refname: &str,
    parents: &[git2::Oid],
    files: &[(&str, Option<&str>)],
    message: &str,
) -> git2::Oid {
    let mut index = git2::Index::new().unwrap();
    if let Some(first) = parents.first() {
        index.read_tree(&repo.find_commit(*first).unwrap().tree().unwrap()).unwrap();
    }
    for (path, content) in files {
        match content {
            Some(content) => {
                let blob = repo.blob(content.as_bytes()).unwrap();
                index
                    .add(&git2::IndexEntry {
                        ctime: git2::IndexTime::new(0, 0),
                        mtime: git2::IndexTime::new(0, 0),
                        dev: 0,
                        ino: 0,
                        mode: 0o100644,
                        uid: 0,
                        gid: 0,
                        file_size: 0,
                        id: blob,
                        flags: 0,
                        flags_extended: 0,
                        path: path.as_bytes().to_vec(),
                    })
                    .unwrap();
            }
            None => index.remove_path(std::path::Path::new(path)).unwrap(),
        }
    }
    let tree = repo.find_tree(index.write_tree_to(repo).unwrap()).unwrap();
    let signature = git2::Signature::now("Test User", "test@example.com").unwrap();
    let parent_commits: Vec<git2::Commit> =
        parents.iter().map(|p| repo.find_commit(*p).unwrap()).collect();
    let parent_refs: Vec<&git2::Commit> = parent_commits.iter().collect();
    let id = repo.commit(None, &signature, &signature, message, &tree, &parent_refs).unwrap();
    repo.reference(refname, id, true, message).unwrap();
    id
}

#[test]
fn configured_identity_signs_commits() {
    let dir = tempfile::tempdir().unwrap();
    let repo = git2::Repository::init(dir.path()).unwrap();
    configure_git(&repo, "Ada", "ada@example.com", false).unwrap();
    let signature = repo.signature().unwrap();
    assert_eq!(signature.name().unwrap(), "Ada");
    assert_eq!(signature.email().unwrap(), "ada@example.com");
    assert_eq!(repo.config().unwrap().get_string("user.name").unwrap(), "Ada");
}

#[test]
fn untracked_and_modified_files_make_the_tree_dirty() {
    let dir = tempfile::tempdir().unwrap();
    let repo = init(dir.path(), false);
    assert!(!is_dirty(&repo).unwrap());
    commit_files(&repo, "refs/heads/main", &[], &[("a.txt", Some("a\n"))], "first");
    assert!(is_dirty(&repo).unwrap());
    repo.checkout_head(Some(git2::build::CheckoutBuilder::new().force())).unwrap();
    assert!(!is_dirty(&repo).unwrap());
}

#[test]
fn remote_is_added_then_updated() {
    let dir = tempfile::tempdir().unwrap();
    let repo = init(dir.path(), false);
    assert_eq!(link_remote(&repo, "origin", "git@example.com:a/b.git").unwrap(), RemoteLink::Added);
    assert_eq!(repo.find_remote("origin").unwrap().url().unwrap(), "git@example.com:a/b.git");
    assert_eq!(link_remote(&repo, "origin", "git@example.com:c/d.git").unwrap(), RemoteLink::Updated);
    assert_eq!(repo.find_remote("origin").unwrap().url().unwrap(), "git@example.com:c/d.git");
    assert!(matches!(link_remote(&repo, "bad name", "x"), Err(SyncError::Engine { .. })));
}

#[test]
fn fetch_from_a_missing_remote_is_a_transport_failure() {
    let dir = tempfile::tempdir().unwrap();
    let repo = init(&dir.path().join("local"), false);
    repo.remote("origin", dir.path().join("nowhere.git").to_str().unwrap()).unwrap();
    let result = gg::sync::pull(&repo, "origin", "main", &gg::credentials::KeyDirectory::empty());
    assert!(matches!(result, Err(SyncError::Transport { .. })));
}

#[test]
fn resolve_refuses_a_bare_repository() {
    let dir = tempfile::tempdir().unwrap();
    let repo = init(dir.path(), true);
    assert_eq!(resolve(&repo, false), Err(SyncError::Precondition(Precondition::NoWorkdir)));
    assert_eq!(resolve(&repo, true), Err(SyncError::Precondition(Precondition::NoWorkdir)));
}

#[test]
fn resolve_hands_cleanup_to_the_caller() {
    let dir = tempfile::tempdir().unwrap();
    let repo = init(dir.path(), false);
    let workdir = repo.workdir().unwrap().to_string_lossy().into_owned();
    assert_eq!(resolve(&repo, true), Ok(ResolveOutcome::Cleanup { workdir: workdir.clone() }));
    assert_eq!(resolve(&repo, false), Ok(ResolveOutcome::NothingConflicted { workdir }));
}

/// A repository whose index is left conflicted by a merge of `theirs` into `main`.
fn conflicted(
    dir: &std::path::Path,
    ours: Option<&str>,
    theirs: Option<&str>,
) -> (git2::Repository, git2::Oid, git2::Oid) {
    let repo = init(dir, false);
    let root = commit_files(&repo, "refs/heads/main", &[], &[("f.txt", Some("base\n"))], "root");
    let l1 = commit_files(&repo, "refs/heads/main", &[root], &[("f.txt", ours)], "ours");
    let r1 = commit_files(&repo, "refs/heads/theirs", &[root], &[("f.txt", theirs)], "theirs");
    repo.checkout_head(Some(git2::build::CheckoutBuilder::new().force())).unwrap();
    {
        let their_head = repo.find_annotated_commit(r1).unwrap();
        repo.merge(&[&their_head], None, None).unwrap();
    }
    assert!(repo.index().unwrap().has_conflicts());
    (repo, l1, r1)
}

/// Puts `content` into the file at `path` of the working directory.
fn write_to_disk(repo: &git2::Repository, path: &str, content: &[u8]) {
    let workdir = repo.workdir().unwrap();
    let mut file = tempfile::NamedTempFile::new_in(workdir).unwrap();
    file.write_all(content).unwrap();
    file.persist(workdir.join(path)).unwrap();
}

fn file_on_disk(repo: &git2::Repository, path: &str) -> Option<Vec<u8>> {
    let full = repo.workdir().unwrap().join(path);
    if !full.exists() {
        return None;
    }
    let blob = repo.blob_path(&full).unwrap();
    Some(repo.find_blob(blob).unwrap().content().to_vec())
}

fn prepared(repo: &git2::Repository) -> Resolution {
    match resolve(repo, false).unwrap() {
        ResolveOutcome::Conflicted { resolution } => resolution,
        other => panic!("expected a resolution, got {:?}", other),
    }
}

#[test]
fn resolve_settles_a_conflicted_index_in_favour_of_ours() {
    let dir = tempfile::tempdir().unwrap();
    let (repo, _l1, _r1) = conflicted(dir.path(), Some("local\n"), Some("remote\n"));
    let resolution = prepared(&repo);
    assert_eq!(resolution.conflicts.len(), 1);
    assert_eq!(resolution.restores.len(), 1);
    assert_eq!(resolution.restores[0].target.path, "f.txt");
    assert_eq!(resolution.restores[0].content, b"local\n".to_vec());
    assert_eq!(resolution.artifacts.len(), 1);
    assert_eq!(resolution.artifacts[0].target.path, "f.txt.theirs");
    assert_eq!(resolution.artifacts[0].content, b"remote\n".to_vec());

    assert!(repo.index().unwrap().has_conflicts());
    assert_eq!(prepared(&repo), resolution);
    assert_ne!(file_on_disk(&repo, "f.txt"), Some(b"local\n".to_vec()));

    let mut phases = Vec::new();
    let mut phase = first_phase();
    while phase != ResolutionPhase::Done {
        match phase {
            ResolutionPhase::Restore => {
                for write in &resolution.restores {
                    write_to_disk(&repo, &write.target.path, &write.content);
                }
            }
            ResolutionPhase::Stage => conclude_resolution(&repo, &resolution.plan).unwrap(),
            ResolutionPhase::Keep => {
                for write in &resolution.artifacts {
                    write_to_disk(&repo, &write.target.path, &write.content);
                }
            }
            ResolutionPhase::Done => {}
        }
        phases.push(phase);
        phase = next_phase(phase);
    }
    assert_eq!(
        phases,
        vec![ResolutionPhase::Restore, ResolutionPhase::Stage, ResolutionPhase::Keep]
    );
    assert_eq!(next_phase(ResolutionPhase::Done), ResolutionPhase::Done);

    let reopened = git2::Repository::open(dir.path()).unwrap();
    let index = reopened.index().unwrap();
    assert!(!index.has_conflicts());
    let staged = index.get_path(std::path::Path::new("f.txt"), 0).unwrap();
    assert_eq!(reopened.find_blob(staged.id).unwrap().content(), b"local\n");
    assert_eq!(file_on_disk(&repo, "f.txt"), Some(b"local\n".to_vec()));
    assert_eq!(file_on_disk(&repo, "f.txt.theirs"), Some(b"remote\n".to_vec()));
    assert!(matches!(resolve(&repo, false), Ok(ResolveOutcome::NothingConflicted { .. })));
}

#[test]
fn resolve_keeps_ours_where_the_remote_deleted() {
    let dir = tempfile::tempdir().unwrap();
    let (repo, _l1, _r1) = conflicted(dir.path(), Some("local\n"), None);
    let resolution = prepared(&repo);
    assert_eq!(resolution.plan.remote_absent, vec!["f.txt"]);
    assert_eq!(resolution.plan.unresolved, Vec::<String>::new());
    assert_eq!(resolution.restores.len(), 1);
    assert_eq!(resolution.restores[0].content, b"local\n".to_vec());
    assert!(resolution.artifacts.is_empty());
    conclude_resolution(&repo, &resolution.plan).unwrap();
    assert!(!repo.index().unwrap().has_conflicts());
}

#[test]
fn resolve_leaves_a_local_deletion_conflicted() {
    let dir = tempfile::tempdir().unwrap();
    let (repo, _l1, _r1) = conflicted(dir.path(), None, Some("remote\n"));
    let resolution = prepared(&repo);
    assert_eq!(resolution.plan.unresolved, vec!["f.txt"]);
    assert!(resolution.restores.is_empty());
    assert!(resolution.artifacts.is_empty());
    assert!(resolution.plan.staged.is_empty());
    conclude_resolution(&repo, &resolution.plan).unwrap();
    assert!(repo.index().unwrap().has_conflicts());
}

#[test]
fn repositories_are_opened_by_path() {
    let dir = tempfile::tempdir().unwrap();
    assert!(matches!(
        gg::workflow::open_repository(dir.path().to_str().unwrap()),
        Err(SyncError::Engine { .. })
    ));
    init(dir.path(), false);
    let repo = gg::workflow::open_repository(dir.path().to_str().unwrap()).unwrap();
    assert!(!repo.is_bare());
    assert_eq!(gg::sync::current_branch_or_head(&repo).err().map(|e| e.message().is_empty()), Some(false));
}
