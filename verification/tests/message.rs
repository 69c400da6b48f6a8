use gg::message::{
    conventional_message, generate_conventional_message, summarize, Change, ChangeKind,
    ChangeSummary,
};

fn change(kind: ChangeKind, path: &str) -> Change {
    Change { kind, new_path: Some(path.to_string()), old_path: Some(path.to_string()) }
}

fn summary(added: u64, deleted: u64, modified: u64, files: &[&str]) -> ChangeSummary {
    ChangeSummary { added, deleted, modified, files: files.iter().map(|f| f.to_string()).collect() }
}

#[test]
fn changes_are_counted_by_kind() {
    let changes = vec![
        change(ChangeKind::Added, "a"),
        change(ChangeKind::Modified, "b"),
        change(ChangeKind::Added, "c"),
        change(ChangeKind::Other, "d"),
        change(ChangeKind::Deleted, "e"),
        Change { kind: ChangeKind::Deleted, new_path: None, old_path: Some("old".to_string()) },
        Change { kind: ChangeKind::Modified, new_path: Some("new".to_string()), old_path: None },
        Change { kind: ChangeKind::Added, new_path: None, old_path: None },
    ];
    assert_eq!(summarize(&changes), summary(3, 2, 2, &["a", "b", "c", "d", "e", "old", "new"]));
    assert_eq!(summarize(&Vec::new()), summary(0, 0, 0, &[]));
}

#[test]
fn message_for_no_changes() {
    assert_eq!(conventional_message(&summary(0, 0, 0, &[])), "chore: no changes detected");
    assert_eq!(conventional_message(&summary(1, 0, 0, &[])), "chore: no changes detected");
}

#[test]
fn message_for_one_file() {
    assert_eq!(
        conventional_message(&summary(1, 0, 0, &["src/a.rs"])),
        "feat(src/a.rs): added file (+1, -0, ~0)"
    );
    assert_eq!(
        conventional_message(&summary(0, 1, 0, &["src/a.rs"])),
        "fix(src/a.rs): removed file (+0, -1, ~0)"
    );
    assert_eq!(
        conventional_message(&summary(0, 0, 1, &["src/a.rs"])),
        "fix(src/a.rs): changed file (+0, -0, ~1)"
    );
    assert_eq!(
        conventional_message(&summary(0, 0, 0, &["src/a.rs"])),
        "fix(src/a.rs): updated file (+0, -0, ~0)"
    );
}

#[test]
fn message_for_documentation() {
    assert_eq!(
        conventional_message(&summary(1, 0, 0, &["README.md"])),
        "docs(README.md): added file (+1, -0, ~0)"
    );
    assert_eq!(
        conventional_message(&summary(0, 0, 1, &["docs/guide.txt"])),
        "docs(docs/guide.txt): changed file (+0, -0, ~1)"
    );
    assert_eq!(
        conventional_message(&summary(0, 0, 1, &["mydocs/guide.txt"])),
        "docs(mydocs/guide.txt): changed file (+0, -0, ~1)"
    );
    assert_eq!(
        conventional_message(&summary(0, 0, 1, &["docs"])),
        "fix(docs): changed file (+0, -0, ~1)"
    );
}

#[test]
fn message_for_several_files() {
    assert_eq!(
        conventional_message(&summary(2, 0, 0, &["a", "b"])),
        "feat: added 2 files (+2, -0, ~0)"
    );
    assert_eq!(
        conventional_message(&summary(0, 3, 0, &["a", "b", "c"])),
        "fix: removed 3 files (+0, -3, ~0)"
    );
    assert_eq!(
        conventional_message(&summary(1, 1, 10, &["a.md", "b", "c", "d", "e", "f", "g", "h", "i", "j", "k", "l"])),
        "fix: updated 12 files (+1, -1, ~10)"
    );
    assert_eq!(
        conventional_message(&summary(0, 0, 2, &["a.md", "b.md"])),
        "fix: changed 2 files (+0, -0, ~2)"
    );
}

fn stage(repo: &git2::Repository, path: &str, content: &str) {
    let blob = repo.blob(content.as_bytes()).unwrap();
    let mut index = repo.index().unwrap();
    index
        .add(&git2::IndexEntry {
            ctime: git2::IndexTime::new(0, 0),
            mtime: git2::IndexTime::new(0, 0),
            dev: 0,
            ino: 0,
            mode: 0o100644,
            uid: 0,
            gid: 0,
            file_size: 0,
            id: blob,
            flags: 0,
            flags_extended: 0,
            path: path.as_bytes().to_vec(),
        })
        .unwrap();
    index.write().unwrap();
}

#[test]
fn message_is_generated_from_the_index() {
    let dir = tempfile::tempdir().unwrap();
    let repo = git2::Repository::init(dir.path()).unwrap();
    gg::workflow::configure_git(&repo, "Test User", "test@example.com", false).unwrap();
    assert_eq!(generate_conventional_message(&repo).unwrap(), "chore: no changes detected");
    stage(&repo, "src/lib.rs", "fn main() {}\n");
    assert_eq!(
        generate_conventional_message(&repo).unwrap(),
        "feat(src/lib.rs): added file (+1, -0, ~0)"
    );
    stage(&repo, "notes.md", "# notes\n");
    assert_eq!(generate_conventional_message(&repo).unwrap(), "feat: added 2 files (+2, -0, ~0)");
    gg::commit::commit_all(&repo, "first", false).unwrap();
    assert_eq!(generate_conventional_message(&repo).unwrap(), "chore: no changes detected");
    stage(&repo, "notes.md", "# more notes\n");
    assert_eq!(
        generate_conventional_message(&repo).unwrap(),
        "docs(notes.md): changed file (+0, -0, ~1)"
    );
    repo.index().unwrap().remove_path(std::path::Path::new("src/lib.rs")).unwrap();
    let mut index = repo.index().unwrap();
    index.remove_path(std::path::Path::new("src/lib.rs")).unwrap();
    index.write().unwrap();
    assert_eq!(generate_conventional_message(&repo).unwrap(), "fix: updated 2 files (+0, -1, ~1)");
}
