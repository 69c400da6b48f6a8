//! Suggesting a commit message from what is staged.
use vstd::prelude::*;
use crate::error::{lift, SyncError};
use crate::text::{
    contains,
    decimal,
    ends_with,
    has_infix,
    has_suffix,
    text_view,
    text_views,
    to_decimal,
};
use crate::trusted::git::{
    commit_tree,
    diff_changes,
    diff_tree_to_index,
    reference_commit,
    repo_head,
    repo_index,
};

verus! {

/// The kind of a staged change.
#[derive(Debug, Clone, Copy, PartialEq, Eq, Structural)]
pub enum ChangeKind {
    /// The path is new.
    Added,
    /// The path is gone.
    Deleted,
    /// The content of the path changed.
    Modified,
    /// Anything else: a rename, a copy, a change of type.
    Other,
}

/// One staged change.
#[derive(Debug, PartialEq, Eq)]
pub struct Change {
    /// What happened to the path.
    pub kind: ChangeKind,
    /// The path after the change.
    pub new_path: Option<String>,
    /// The path before the change.
    pub old_path: Option<String>,
}

/// The staged changes, counted.
#[derive(Debug, PartialEq, Eq)]
pub struct ChangeSummary {
    /// How many paths were added.
    pub added: u64,
    /// How many paths were deleted.
    pub deleted: u64,
    /// How many paths were modified.
    pub modified: u64,
    /// The paths the changes touch, in order.
    pub files: Vec<String>,
}

/// A change as plain mathematical values.
pub struct ChangeView {
    pub kind: ChangeKind,
    pub new_path: Option<Seq<char>>,
    pub old_path: Option<Seq<char>>,
}

impl View for Change {
    type V = ChangeView;

    open spec fn view(&self) -> ChangeView {
        ChangeView {
            kind: self.kind,
            new_path: text_view(self.new_path),
            old_path: text_view(self.old_path),
        }
    }
}

/// The views of a list of changes.
pub open spec fn change_views(changes: Seq<Change>) -> Seq<ChangeView> {
    changes.map_values(|c: Change| c@)
}

/// The path a change is listed under: the new one, else the old one.
pub open spec fn listed_path(c: ChangeView) -> Option<Seq<char>> {
    match c.new_path {
        Some(p) => Some(p),
        None => c.old_path,
    }
}

/// How many of the changes are of the given kind.
pub open spec fn count_of(changes: Seq<ChangeView>, kind: ChangeKind) -> nat
    decreases changes.len(),
{
    if changes.len() == 0 {
        0
    } else {
        count_of(changes.drop_last(), kind) + if changes.last().kind == kind {
            1nat
        } else {
            0nat
        }
    }
}

/// The paths the changes are listed under, in order.
pub open spec fn listed_paths(changes: Seq<ChangeView>) -> Seq<Seq<char>>
    decreases changes.len(),
{
    if changes.len() == 0 {
        Seq::empty()
    } else {
        match listed_path(changes.last()) {
            Some(p) => listed_paths(changes.drop_last()).push(p),
            None => listed_paths(changes.drop_last()),
        }
    }
}

/// The prefix of the message: a feature where paths were only added, a fix otherwise.
pub open spec fn prefix_for(added: nat, deleted: nat, modified: nat) -> Seq<char> {
    if added > 0 && modified == 0 && deleted == 0 {
        "feat"@
    } else {
        "fix"@
    }
}

/// The verb of the message, by which kinds of change occur.
pub open spec fn verb_for(added: nat, deleted: nat, modified: nat) -> Seq<char> {
    if added > 0 && modified == 0 && deleted == 0 {
        "added"@
    } else if deleted > 0 && added == 0 && modified == 0 {
        "removed"@
    } else if modified > 0 && added == 0 && deleted == 0 {
        "changed"@
    } else {
        "updated"@
    }
}

/// Whether a path is documentation: a Markdown file, or anything under `docs/`.
pub open spec fn is_documentation(path: Seq<char>) -> bool {
    has_suffix(path, ".md"@) || has_infix(path, "docs/"@)
}

/// The counts at the end of a message.
pub open spec fn counts_text(added: nat, deleted: nat, modified: nat) -> Seq<char> {
    " (+"@ + decimal(added) + ", -"@ + decimal(deleted) + ", ~"@ + decimal(modified) + ")"@
}

/// The suggested message for the given counts and paths.
pub open spec fn message_for(added: nat, deleted: nat, modified: nat, files: Seq<Seq<char>>) -> Seq<
    char,
> {
    if files.len() == 0 {
        "chore: no changes detected"@
    } else if files.len() == 1 {
        (if is_documentation(files[0]) {
            "docs"@
        } else {
            prefix_for(added, deleted, modified)
        }) + "("@ + files[0] + "): "@ + verb_for(added, deleted, modified) + " file"@ + counts_text(
            added,
            deleted,
            modified,
        )
    } else {
        prefix_for(added, deleted, modified) + ": "@ + verb_for(added, deleted, modified) + " "@
            + decimal(files.len()) + " files"@ + counts_text(added, deleted, modified)
    }
}

/// The suggested message for a list of changes: the changes counted by
/// kind, with the paths they are listed under.
pub open spec fn message_of(changes: Seq<ChangeView>) -> Seq<char> {
    message_for(
        count_of(changes, ChangeKind::Added),
        count_of(changes, ChangeKind::Deleted),
        count_of(changes, ChangeKind::Modified),
        listed_paths(changes),
    )
}

proof fn lemma_count_bounded(changes: Seq<ChangeView>, kind: ChangeKind)
    ensures
        count_of(changes, kind) <= changes.len(),
    decreases changes.len(),
{
    if changes.len() > 0 {
        lemma_count_bounded(changes.drop_last(), kind);
    }
}

/// Counts the changes by kind and lists the paths they touch.
pub fn summarize(changes: &Vec<Change>) -> (summary: ChangeSummary)
    ensures
        summary.added == count_of(change_views(changes@), ChangeKind::Added),
        summary.deleted == count_of(change_views(changes@), ChangeKind::Deleted),
        summary.modified == count_of(change_views(changes@), ChangeKind::Modified),
        text_views(summary.files@) == listed_paths(change_views(changes@)),
{
    let ghost all = change_views(changes@);
    let mut added: u64 = 0;
    let mut deleted: u64 = 0;
    let mut modified: u64 = 0;
    let mut files: Vec<String> = Vec::new();
    assert(all.take(0) =~= Seq::<ChangeView>::empty());
    assert(text_views(files@) =~= Seq::<Seq<char>>::empty());
    let mut i: usize = 0;
    while i < changes.len()
        invariant
            i <= changes.len(),
            all == change_views(changes@),
            added == count_of(all.take(i as int), ChangeKind::Added),
            deleted == count_of(all.take(i as int), ChangeKind::Deleted),
            modified == count_of(all.take(i as int), ChangeKind::Modified),
            text_views(files@) == listed_paths(all.take(i as int)),
        decreases changes.len() - i,
    {
        let c = &changes[i];
        let ghost listed = text_views(files@);
        proof {
            assert(all.take(i + 1).drop_last() =~= all.take(i as int));
            assert(all.take(i + 1).last() == c@);
            lemma_count_bounded(all.take(i as int), ChangeKind::Added);
            lemma_count_bounded(all.take(i as int), ChangeKind::Deleted);
            lemma_count_bounded(all.take(i as int), ChangeKind::Modified);
        }
        match &c.new_path {
            Some(p) => {
                files.push(p.clone());
                assert(text_views(files@) =~= listed.push(p@));
            },
            None => match &c.old_path {
                Some(p) => {
                    files.push(p.clone());
                    assert(text_views(files@) =~= listed.push(p@));
                },
                None => {},
            },
        }
        match c.kind {
            ChangeKind::Added => {
                added += 1;
            },
            ChangeKind::Deleted => {
                deleted += 1;
            },
            ChangeKind::Modified => {
                modified += 1;
            },
            ChangeKind::Other => {},
        }
        i += 1;
    }
    assert(all.take(i as int) =~= all);
    ChangeSummary { added, deleted, modified, files }
}

fn counts_suffix(added: u64, deleted: u64, modified: u64) -> (s: String)
    ensures
        s@ == counts_text(added as nat, deleted as nat, modified as nat),
{
    let mut s = String::from_str(" (+");
    s.append(to_decimal(added).as_str());
    s.append(", -");
    s.append(to_decimal(deleted).as_str());
    s.append(", ~");
    s.append(to_decimal(modified).as_str());
    s.append(")");
    s
}

/// Words the message for a summary; see [`message_for`].
pub fn conventional_message(summary: &ChangeSummary) -> (message: String)
    ensures
        message@ == message_for(
            summary.added as nat,
            summary.deleted as nat,
            summary.modified as nat,
            text_views(summary.files@),
        ),
{
    let added = summary.added;
    let deleted = summary.deleted;
    let modified = summary.modified;
    if summary.files.len() == 0 {
        return String::from_str("chore: no changes detected");
    }
    let only_added = added > 0 && modified == 0 && deleted == 0;
    let prefix = if only_added {
        "feat"
    } else {
        "fix"
    };
    let verb = if only_added {
        "added"
    } else if deleted > 0 && added == 0 && modified == 0 {
        "removed"
    } else if modified > 0 && added == 0 && deleted == 0 {
        "changed"
    } else {
        "updated"
    };
    let counts = counts_suffix(added, deleted, modified);
    if summary.files.len() == 1 {
        let file = &summary.files[0];
        let documentation = ends_with(file.as_str(), ".md") || contains(file.as_str(), "docs/");
        let mut message = if documentation {
            String::from_str("docs")
        } else {
            String::from_str(prefix)
        };
        message.append("(");
        message.append(file.as_str());
        message.append("): ");
        message.append(verb);
        message.append(" file");
        message.append(counts.as_str());
        assert(file@ == text_views(summary.files@)[0]);
        message
    } else {
        let mut message = String::from_str(prefix);
        message.append(": ");
        message.append(verb);
        message.append(" ");
        message.append(to_decimal(summary.files.len() as u64).as_str());
        message.append(" files");
        message.append(counts.as_str());
        message
    }
}

/// Suggests a commit message for what is staged.
///
/// The index is compared with the tree of the commit HEAD points at, or with
/// nothing in a repository without commits; the changes are counted by
/// [`summarize`] and worded by [`conventional_message`]. Which changes the
/// engine reports is its affair; the message is the one of [`message_of`] for
/// them.
pub fn generate_conventional_message(repo: &git2::Repository) -> (r: Result<String, SyncError>)
    ensures
        r matches Ok(message) ==> exists|changes: Seq<ChangeView>|
            message@ == #[trigger] message_of(changes),
        r matches Err(e) ==> e is Engine,
{
    let index = lift(repo_index(repo))?;
    let head_tree = match repo_head(repo) {
        Ok(head) => {
            let commit = lift(reference_commit(&head))?;
            Some(lift(commit_tree(&commit))?)
        },
        Err(_) => None,
    };
    let diff = match &head_tree {
        Some(tree) => lift(diff_tree_to_index(repo, Some(tree), &index))?,
        None => lift(diff_tree_to_index(repo, None, &index))?,
    };
    let changes = diff_changes(&diff);
    let summary = summarize(&changes);
    let message = conventional_message(&summary);
    assert(message@ == message_of(change_views(changes@)));
    Ok(message)
}

} // verus!
