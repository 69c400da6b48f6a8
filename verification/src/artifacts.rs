//! Finding the `.theirs` files that conflict resolution left behind.
//!
//! The files are plain siblings of the conflicted paths and belong to no
//! commit. They are found by walking the working directory; the directory
//! that holds the repository's own data is never entered. The walk is kept
//! here as a list of directories still to visit: the caller lists one
//! directory at a time and hands the entries back.
use vstd::prelude::*;
use crate::text::{
    ends_with,
    has_suffix,
    same_text,
    text_views,
    trim_trailing,
    without_trailing,
};

verus! {

/// An entry of a directory listing.
#[derive(Debug, PartialEq, Eq)]
pub struct DirEntry {
    /// The path of the entry.
    pub path: String,
    /// The last component of the path.
    pub name: String,
    /// Whether the entry is a directory.
    pub is_dir: bool,
}

/// A walk over a directory tree in search of `.theirs` files.
#[derive(Debug, PartialEq, Eq)]
pub struct ArtifactScan {
    /// The directories still to be listed.
    pub pending: Vec<String>,
    /// The `.theirs` files found so far.
    pub found: Vec<String>,
}

/// A `.theirs` file and the path whose remote version it keeps.
#[derive(Debug, PartialEq, Eq)]
pub struct KeptVersion {
    /// The conflicted path.
    pub path: String,
    /// The file that holds the remote version.
    pub artifact: String,
}

/// An entry as plain mathematical values.
pub struct EntryView {
    pub path: Seq<char>,
    pub name: Seq<char>,
    pub is_dir: bool,
}

impl View for DirEntry {
    type V = EntryView;

    open spec fn view(&self) -> EntryView {
        EntryView { path: self.path@, name: self.name@, is_dir: self.is_dir }
    }
}

/// The views of a list of entries.
pub open spec fn entry_views(entries: Seq<DirEntry>) -> Seq<EntryView> {
    entries.map_values(|e: DirEntry| e@)
}

/// Whether a directory of this name holds the repository's own data.
pub open spec fn is_metadata_name(name: Seq<char>) -> bool {
    name == ".git"@
}

/// Whether a path names a `.theirs` file.
pub open spec fn is_artifact_path(path: Seq<char>) -> bool {
    has_suffix(path, ".theirs"@)
}

/// Whether an entry is a directory the walk enters.
pub open spec fn is_entered(e: EntryView) -> bool {
    e.is_dir && !is_metadata_name(e.name)
}

/// Whether an entry is a `.theirs` file.
pub open spec fn is_artifact_entry(e: EntryView) -> bool {
    !e.is_dir && is_artifact_path(e.path)
}

/// The directories among `entries` that the walk enters, in order.
pub open spec fn entered_dirs(entries: Seq<EntryView>) -> Seq<Seq<char>>
    decreases entries.len(),
{
    if entries.len() == 0 {
        Seq::empty()
    } else if is_entered(entries.last()) {
        entered_dirs(entries.drop_last()).push(entries.last().path)
    } else {
        entered_dirs(entries.drop_last())
    }
}

/// The `.theirs` files among `entries`, in order.
pub open spec fn artifact_files(entries: Seq<EntryView>) -> Seq<Seq<char>>
    decreases entries.len(),
{
    if entries.len() == 0 {
        Seq::empty()
    } else if is_artifact_entry(entries.last()) {
        artifact_files(entries.drop_last()).push(entries.last().path)
    } else {
        artifact_files(entries.drop_last())
    }
}

/// The path whose remote version a `.theirs` file keeps.
pub open spec fn conflicted_path_of(artifact: Seq<char>) -> Seq<char> {
    without_trailing(artifact, ".theirs"@)
}

/// Whether a directory of this name holds the repository's own data.
pub fn is_metadata_dir(name: &str) -> (r: bool)
    ensures
        r == is_metadata_name(name@),
{
    same_text(name, ".git")
}

/// Whether a path names a `.theirs` file.
pub fn is_artifact(path: &str) -> (r: bool)
    ensures
        r == is_artifact_path(path@),
{
    ends_with(path, ".theirs")
}

/// The path whose remote version a `.theirs` file keeps.
pub fn conflicted_path(artifact: &str) -> (path: String)
    ensures
        path@ == conflicted_path_of(artifact@),
{
    trim_trailing(artifact, ".theirs")
}

/// Pairs every `.theirs` file with the path it belongs to.
pub fn kept_versions(artifacts: &Vec<String>) -> (kept: Vec<KeptVersion>)
    ensures
        kept@.len() == artifacts@.len(),
        forall|i: int|
            0 <= i < artifacts@.len() ==> (#[trigger] kept@[i]).artifact@ == artifacts@[i]@
                && kept@[i].path@ == conflicted_path_of(artifacts@[i]@),
{
    let mut kept: Vec<KeptVersion> = Vec::new();
    let mut i: usize = 0;
    while i < artifacts.len()
        invariant
            i <= artifacts.len(),
            kept@.len() == i,
            forall|k: int|
                0 <= k < i ==> (#[trigger] kept@[k]).artifact@ == artifacts@[k]@
                    && kept@[k].path@ == conflicted_path_of(artifacts@[k]@),
        decreases artifacts.len() - i,
    {
        let artifact = &artifacts[i];
        kept.push(
            KeptVersion { path: conflicted_path(artifact.as_str()), artifact: artifact.clone() },
        );
        i += 1;
    }
    kept
}

impl ArtifactScan {
    /// A walk that starts at `root`. A root that is itself a metadata
    /// directory is not entered, so that walk finds nothing.
    pub fn start(root: &DirEntry) -> (scan: ArtifactScan)
        ensures
            text_views(scan.found@) == Seq::<Seq<char>>::empty(),
            text_views(scan.pending@) == if is_entered(root@) {
                seq![root@.path]
            } else {
                Seq::<Seq<char>>::empty()
            },
    {
        let mut pending: Vec<String> = Vec::new();
        if root.is_dir && !is_metadata_dir(root.name.as_str()) {
            pending.push(root.path.clone());
        }
        let scan = ArtifactScan { pending, found: Vec::new() };
        assert(text_views(scan.found@) =~= Seq::<Seq<char>>::empty());
        assert(text_views(scan.pending@) =~= if is_entered(root@) {
            seq![root@.path]
        } else {
            Seq::<Seq<char>>::empty()
        });
        scan
    }

    /// Takes the next directory to list, the one added last. `None` when the
    /// walk is complete.
    pub fn next_directory(&mut self) -> (dir: Option<String>)
        ensures
            text_views(final(self).found@) == text_views(old(self).found@),
            match dir {
                Some(d) => old(self).pending@.len() > 0 && d@ == old(self).pending@.last()@
                    && text_views(final(self).pending@) == text_views(old(self).pending@).drop_last(),
                None => old(self).pending@.len() == 0 && final(self).pending@.len() == 0,
            },
    {
        let dir = self.pending.pop();
        proof {
            if dir is Some {
                assert(text_views(self.pending@) =~= text_views(old(self).pending@).drop_last());
            }
        }
        dir
    }

    /// Takes in the listing of a directory: its sub-directories are queued,
    /// except the metadata directory, and its `.theirs` files are noted.
    /// Every other entry is passed over.
    pub fn record(&mut self, entries: &Vec<DirEntry>)
        ensures
            text_views(final(self).pending@) == text_views(old(self).pending@) + entered_dirs(
                entry_views(entries@),
            ),
            text_views(final(self).found@) == text_views(old(self).found@) + artifact_files(
                entry_views(entries@),
            ),
    {
        let ghost all = entry_views(entries@);
        let ghost pending0 = text_views(self.pending@);
        let ghost found0 = text_views(self.found@);
        assert(all.take(0) =~= Seq::<EntryView>::empty());
        assert(text_views(self.pending@) =~= pending0 + entered_dirs(all.take(0)));
        assert(text_views(self.found@) =~= found0 + artifact_files(all.take(0)));
        let mut i: usize = 0;
        while i < entries.len()
            invariant
                i <= entries.len(),
                all == entry_views(entries@),
                text_views(self.pending@) == pending0 + entered_dirs(all.take(i as int)),
                text_views(self.found@) == found0 + artifact_files(all.take(i as int)),
            decreases entries.len() - i,
        {
            let e = &entries[i];
            let ghost pending1 = text_views(self.pending@);
            let ghost found1 = text_views(self.found@);
            proof {
                assert(all.take(i + 1).drop_last() =~= all.take(i as int));
                assert(all.take(i + 1).last() == e@);
            }
            if e.is_dir {
                if !is_metadata_dir(e.name.as_str()) {
                    self.pending.push(e.path.clone());
                    assert(text_views(self.pending@) =~= pending1.push(e@.path));
                }
            } else if is_artifact(e.path.as_str()) {
                self.found.push(e.path.clone());
                assert(text_views(self.found@) =~= found1.push(e@.path));
            }
            proof {
                assert(text_views(self.pending@) =~= pending0 + entered_dirs(all.take(i + 1)));
                assert(text_views(self.found@) =~= found0 + artifact_files(all.take(i + 1)));
            }
            i += 1;
        }
        assert(all.take(i as int) =~= all);
    }

    /// Whether every queued directory has been listed.
    pub fn is_complete(&self) -> (r: bool)
        ensures
            r == (self.pending@.len() == 0),
    {
        self.pending.len() == 0
    }

    /// The `.theirs` files found.
    pub fn into_found(self) -> (found: Vec<String>)
        ensures
            found == self.found,
    {
        self.found
    }
}

/// A walk as plain mathematical values.
pub struct ScanView {
    pub pending: Seq<Seq<char>>,
    pub found: Seq<Seq<char>>,
}

impl View for ArtifactScan {
    type V = ScanView;

    open spec fn view(&self) -> ScanView {
        ScanView { pending: text_views(self.pending@), found: text_views(self.found@) }
    }
}

} // verus!
