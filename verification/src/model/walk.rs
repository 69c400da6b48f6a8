//! A directory tree under the walk that looks for `.theirs` files.
//!
//! The tree is given by what listing each directory returns. The walk is
//! followed step by step, each step listing the directory that was queued
//! last, as `ArtifactScan::next_directory` and `ArtifactScan::record` do.
use vstd::prelude::*;
use crate::artifacts::{
    artifact_files,
    entered_dirs,
    is_artifact_entry,
    is_artifact_path,
    is_entered,
    EntryView,
    ScanView,
};

verus! {

/// Whether the listing of `dir` holds a `.theirs` file at `path`.
pub open spec fn lists_artifact(
    listing: spec_fn(Seq<char>) -> Seq<EntryView>,
    dir: Seq<char>,
    path: Seq<char>,
) -> bool {
    exists|i: int|
        0 <= i < listing(dir).len() && is_artifact_entry(#[trigger] listing(dir)[i]) && listing(
            dir,
        )[i].path == path
}

/// Whether the listing of `dir` holds a directory at `path` that the walk enters.
pub open spec fn lists_dir(
    listing: spec_fn(Seq<char>) -> Seq<EntryView>,
    dir: Seq<char>,
    path: Seq<char>,
) -> bool {
    exists|i: int|
        0 <= i < listing(dir).len() && is_entered(#[trigger] listing(dir)[i]) && listing(
            dir,
        )[i].path == path
}

/// Whether `dir` is reached from `root` through at most `depth` directories
/// that the walk enters.
pub open spec fn under(
    listing: spec_fn(Seq<char>) -> Seq<EntryView>,
    root: Seq<char>,
    dir: Seq<char>,
    depth: nat,
) -> bool
    decreases depth,
{
    dir == root || (depth > 0 && exists|parent: Seq<char>|
        under(listing, root, parent, (depth - 1) as nat) && #[trigger] lists_dir(
            listing,
            parent,
            dir,
        ))
}

/// Whether `dir` is `root` or lies below it, outside every metadata directory.
pub open spec fn is_under(
    listing: spec_fn(Seq<char>) -> Seq<EntryView>,
    root: Seq<char>,
    dir: Seq<char>,
) -> bool {
    exists|depth: nat| under(listing, root, dir, depth)
}

/// The walk after the directory added last was listed.
pub open spec fn scan_step(scan: ScanView, listing: spec_fn(Seq<char>) -> Seq<EntryView>) -> ScanView {
    let dir = scan.pending.last();
    ScanView {
        pending: scan.pending.drop_last() + entered_dirs(listing(dir)),
        found: scan.found + artifact_files(listing(dir)),
    }
}

/// What holds of a walk from `root` at every moment, with `visited` the
/// directories listed so far: it has only been below the root; it has found
/// exactly the `.theirs` files of the directories it listed; and every
/// directory it saw and has to enter is listed or queued.
pub open spec fn covers(
    listing: spec_fn(Seq<char>) -> Seq<EntryView>,
    root: Seq<char>,
    scan: ScanView,
    visited: Set<Seq<char>>,
) -> bool {
    &&& forall|d: Seq<char>| #[trigger] visited.contains(d) ==> is_under(listing, root, d)
    &&& forall|k: int|
        0 <= k < scan.pending.len() ==> is_under(listing, root, #[trigger] scan.pending[k])
    &&& forall|p: Seq<char>| #[trigger]
        scan.found.contains(p) <==> exists|d: Seq<char>|
            visited.contains(d) && #[trigger] lists_artifact(listing, d, p)
    &&& forall|d: Seq<char>, p: Seq<char>|
        visited.contains(d) && #[trigger] lists_dir(listing, d, p) ==> visited.contains(p)
            || scan.pending.contains(p)
    &&& visited.contains(root) || scan.pending.contains(root)
}

proof fn lemma_artifact_files_hold(entries: Seq<EntryView>, path: Seq<char>)
    ensures
        artifact_files(entries).contains(path) <==> exists|i: int|
            0 <= i < entries.len() && is_artifact_entry(#[trigger] entries[i]) && entries[i].path
                == path,
    decreases entries.len(),
{
    if entries.len() > 0 {
        let front = entries.drop_last();
        let n = entries.len() - 1;
        lemma_artifact_files_hold(front, path);
        let before = artifact_files(front);
        let all = artifact_files(entries);
        if all.contains(path) {
            let k = choose|k: int| 0 <= k < all.len() && all[k] == path;
            if is_artifact_entry(entries.last()) && k == before.len() {
                assert(is_artifact_entry(entries[n]) && entries[n].path == path);
            } else {
                assert(before[k] == path);
                assert(before.contains(path));
                let i = choose|i: int|
                    0 <= i < front.len() && is_artifact_entry(#[trigger] front[i]) && front[i].path
                        == path;
                assert(entries[i] == front[i]);
            }
        }
        if exists|i: int|
            0 <= i < entries.len() && is_artifact_entry(#[trigger] entries[i]) && entries[i].path
                == path {
            let i = choose|i: int|
                0 <= i < entries.len() && is_artifact_entry(#[trigger] entries[i])
                    && entries[i].path == path;
            if i == n {
                assert(all == before.push(path));
                assert(all[before.len() as int] == path);
            } else {
                assert(front[i] == entries[i]);
                assert(before.contains(path));
                let k = choose|k: int| 0 <= k < before.len() && before[k] == path;
                assert(all[k] == path);
            }
        }
    }
}

proof fn lemma_entered_dirs_hold(entries: Seq<EntryView>, path: Seq<char>)
    ensures
        entered_dirs(entries).contains(path) <==> exists|i: int|
            0 <= i < entries.len() && is_entered(#[trigger] entries[i]) && entries[i].path == path,
    decreases entries.len(),
{
    if entries.len() > 0 {
        let front = entries.drop_last();
        let n = entries.len() - 1;
        lemma_entered_dirs_hold(front, path);
        let before = entered_dirs(front);
        let all = entered_dirs(entries);
        if all.contains(path) {
            let k = choose|k: int| 0 <= k < all.len() && all[k] == path;
            if is_entered(entries.last()) && k == before.len() {
                assert(is_entered(entries[n]) && entries[n].path == path);
            } else {
                assert(before[k] == path);
                assert(before.contains(path));
                let i = choose|i: int|
                    0 <= i < front.len() && is_entered(#[trigger] front[i]) && front[i].path
                        == path;
                assert(entries[i] == front[i]);
            }
        }
        if exists|i: int|
            0 <= i < entries.len() && is_entered(#[trigger] entries[i]) && entries[i].path == path {
            let i = choose|i: int|
                0 <= i < entries.len() && is_entered(#[trigger] entries[i]) && entries[i].path
                    == path;
            if i == n {
                assert(all == before.push(path));
                assert(all[before.len() as int] == path);
            } else {
                assert(front[i] == entries[i]);
                assert(before.contains(path));
                let k = choose|k: int| 0 <= k < before.len() && before[k] == path;
                assert(all[k] == path);
            }
        }
    }
}

proof fn lemma_joined_contains(a: Seq<Seq<char>>, b: Seq<Seq<char>>, x: Seq<char>)
    ensures
        (a + b).contains(x) <==> a.contains(x) || b.contains(x),
{
    if a.contains(x) {
        let k = choose|k: int| 0 <= k < a.len() && a[k] == x;
        assert((a + b)[k] == x);
    }
    if b.contains(x) {
        let k = choose|k: int| 0 <= k < b.len() && b[k] == x;
        assert((a + b)[a.len() + k] == x);
    }
    if (a + b).contains(x) {
        let k = choose|k: int| 0 <= k < (a + b).len() && (a + b)[k] == x;
        if k < a.len() {
            assert(a[k] == x);
        } else {
            assert(b[k - a.len()] == x);
        }
    }
}

/// A walk that has just begun at a root it enters covers nothing yet but
/// has the root queued.
pub proof fn lemma_start_covers(listing: spec_fn(Seq<char>) -> Seq<EntryView>, root: Seq<char>)
    ensures
        covers(
            listing,
            root,
            ScanView { pending: seq![root], found: Seq::empty() },
            Set::empty(),
        ),
{
    let scan = ScanView { pending: seq![root], found: Seq::empty() };
    assert(under(listing, root, root, 0));
    assert(scan.pending[0] == root);
    assert(scan.pending.contains(root));
}

/// Listing the directory added last keeps the walk covering, with that
/// directory now among the visited.
pub proof fn lemma_step_covers(
    listing: spec_fn(Seq<char>) -> Seq<EntryView>,
    root: Seq<char>,
    scan: ScanView,
    visited: Set<Seq<char>>,
)
    requires
        covers(listing, root, scan, visited),
        scan.pending.len() > 0,
    ensures
        covers(listing, root, scan_step(scan, listing), visited.insert(scan.pending.last())),
{
    let dir = scan.pending.last();
    let next = scan_step(scan, listing);
    let seen = visited.insert(dir);
    let rest = scan.pending.drop_last();
    let fresh = entered_dirs(listing(dir));
    assert(dir == scan.pending[scan.pending.len() - 1]);
    assert(is_under(listing, root, dir));
    let depth = choose|depth: nat| under(listing, root, dir, depth);
    assert forall|d: Seq<char>| #[trigger] seen.contains(d) implies is_under(listing, root, d) by {
        if d != dir {
            assert(visited.contains(d));
        }
    }
    assert forall|k: int| 0 <= k < next.pending.len() implies is_under(
        listing,
        root,
        #[trigger] next.pending[k],
    ) by {
        let p = next.pending[k];
        if k < rest.len() {
            assert(p == scan.pending[k]);
        } else {
            assert(fresh[k - rest.len()] == p);
            assert(fresh.contains(p));
            lemma_entered_dirs_hold(listing(dir), p);
            assert(lists_dir(listing, dir, p));
            assert(under(listing, root, dir, ((depth + 1) - 1) as nat));
            assert(under(listing, root, p, depth + 1));
        }
    }
    assert forall|p: Seq<char>| #[trigger]
        next.found.contains(p) <==> exists|d: Seq<char>|
            seen.contains(d) && #[trigger] lists_artifact(listing, d, p) by {
        lemma_joined_contains(scan.found, artifact_files(listing(dir)), p);
        lemma_artifact_files_hold(listing(dir), p);
        if next.found.contains(p) {
            if scan.found.contains(p) {
                let d = choose|d: Seq<char>|
                    visited.contains(d) && #[trigger] lists_artifact(listing, d, p);
                assert(seen.contains(d));
            } else {
                assert(lists_artifact(listing, dir, p));
                assert(seen.contains(dir));
            }
        }
        if exists|d: Seq<char>| seen.contains(d) && #[trigger] lists_artifact(listing, d, p) {
            let d = choose|d: Seq<char>| seen.contains(d) && #[trigger] lists_artifact(listing, d, p);
            if d != dir {
                assert(visited.contains(d));
                assert(scan.found.contains(p));
            }
        }
    }
    assert forall|d: Seq<char>, p: Seq<char>|
        seen.contains(d) && #[trigger] lists_dir(listing, d, p) implies seen.contains(p)
        || next.pending.contains(p) by {
        lemma_joined_contains(rest, fresh, p);
        if d == dir {
            lemma_entered_dirs_hold(listing(dir), p);
            assert(fresh.contains(p));
        } else {
            assert(visited.contains(d));
            if !visited.contains(p) {
                assert(scan.pending.contains(p));
                let k = choose|k: int| 0 <= k < scan.pending.len() && scan.pending[k] == p;
                if k < rest.len() {
                    assert(rest[k] == p);
                } else {
                    assert(p == dir);
                }
            }
        }
    }
    if !visited.contains(root) {
        lemma_joined_contains(rest, fresh, root);
        let k = choose|k: int| 0 <= k < scan.pending.len() && scan.pending[k] == root;
        if k < rest.len() {
            assert(rest[k] == root);
        } else {
            assert(root == dir);
        }
    }
}

proof fn lemma_complete_walk_visits(
    listing: spec_fn(Seq<char>) -> Seq<EntryView>,
    root: Seq<char>,
    scan: ScanView,
    visited: Set<Seq<char>>,
    dir: Seq<char>,
    depth: nat,
)
    requires
        covers(listing, root, scan, visited),
        scan.pending.len() == 0,
        under(listing, root, dir, depth),
    ensures
        visited.contains(dir),
    decreases depth,
{
    if dir != root {
        let parent = choose|parent: Seq<char>|
            under(listing, root, parent, (depth - 1) as nat) && #[trigger] lists_dir(
                listing,
                parent,
                dir,
            );
        lemma_complete_walk_visits(listing, root, scan, visited, parent, (depth - 1) as nat);
        assert(lists_dir(listing, parent, dir));
    }
}

/// A walk with nothing left to list has found every `.theirs` file in the
/// root and in the directories below it that it enters, and has found
/// nothing else: no other file, and nothing inside a metadata directory.
pub proof fn lemma_complete_walk_finds_all(
    listing: spec_fn(Seq<char>) -> Seq<EntryView>,
    root: Seq<char>,
    scan: ScanView,
    visited: Set<Seq<char>>,
)
    requires
        covers(listing, root, scan, visited),
        scan.pending.len() == 0,
    ensures
        forall|path: Seq<char>| #[trigger]
            scan.found.contains(path) <==> exists|dir: Seq<char>|
                is_under(listing, root, dir) && #[trigger] lists_artifact(listing, dir, path),
        forall|path: Seq<char>| #[trigger] scan.found.contains(path) ==> is_artifact_path(path),
{
    assert forall|path: Seq<char>| #[trigger]
        scan.found.contains(path) <==> exists|dir: Seq<char>|
            is_under(listing, root, dir) && #[trigger] lists_artifact(listing, dir, path) by {
        if scan.found.contains(path) {
            let d = choose|d: Seq<char>|
                visited.contains(d) && #[trigger] lists_artifact(listing, d, path);
            assert(is_under(listing, root, d));
        }
        if exists|dir: Seq<char>|
            is_under(listing, root, dir) && #[trigger] lists_artifact(listing, dir, path) {
            let dir = choose|dir: Seq<char>|
                is_under(listing, root, dir) && #[trigger] lists_artifact(listing, dir, path);
            let depth = choose|depth: nat| under(listing, root, dir, depth);
            lemma_complete_walk_visits(listing, root, scan, visited, dir, depth);
        }
    }
    assert forall|path: Seq<char>| #[trigger] scan.found.contains(path) implies is_artifact_path(
        path,
    ) by {
        let d = choose|d: Seq<char>|
            visited.contains(d) && #[trigger] lists_artifact(listing, d, path);
        let i = choose|i: int|
            0 <= i < listing(d).len() && is_artifact_entry(#[trigger] listing(d)[i]) && listing(
                d,
            )[i].path == path;
    }
}

/// The files that are left once those found were deleted.
pub open spec fn after_cleanup(files: Set<Seq<char>>, found: Seq<Seq<char>>) -> Set<Seq<char>> {
    Set::new(|path: Seq<char>| files.contains(path) && !found.contains(path))
}

/// Whether `path` is a `.theirs` file in the root or in a directory below it
/// that the walk enters.
pub open spec fn is_artifact_under(
    listing: spec_fn(Seq<char>) -> Seq<EntryView>,
    root: Seq<char>,
    path: Seq<char>,
) -> bool {
    exists|dir: Seq<char>| is_under(listing, root, dir) && #[trigger] lists_artifact(listing, dir, path)
}

/// Deleting what a complete walk found removes every `.theirs` file below
/// the root outside the metadata directories, and leaves every other file
/// where it was.
pub proof fn lemma_cleanup_removes_the_artifacts(
    listing: spec_fn(Seq<char>) -> Seq<EntryView>,
    root: Seq<char>,
    scan: ScanView,
    visited: Set<Seq<char>>,
    files: Set<Seq<char>>,
)
    requires
        covers(listing, root, scan, visited),
        scan.pending.len() == 0,
    ensures
        forall|path: Seq<char>| #[trigger]
            is_artifact_under(listing, root, path) ==> !after_cleanup(files, scan.found).contains(
                path,
            ),
        forall|path: Seq<char>|
            files.contains(path) && !(#[trigger] is_artifact_under(listing, root, path))
                ==> after_cleanup(files, scan.found).contains(path),
        forall|path: Seq<char>| #[trigger]
            after_cleanup(files, scan.found).contains(path) ==> files.contains(path),
{
    lemma_complete_walk_finds_all(listing, root, scan, visited);
    assert forall|path: Seq<char>| #[trigger] is_artifact_under(listing, root, path) implies
        scan.found.contains(path) by {
        let dir = choose|dir: Seq<char>|
            is_under(listing, root, dir) && #[trigger] lists_artifact(listing, dir, path);
    }
    assert forall|path: Seq<char>|
        files.contains(path) && !(#[trigger] is_artifact_under(listing, root, path))
            implies after_cleanup(files, scan.found).contains(path) by {
        if scan.found.contains(path) {
            let dir = choose|dir: Seq<char>|
                is_under(listing, root, dir) && #[trigger] lists_artifact(listing, dir, path);
            assert(is_artifact_under(listing, root, path));
        }
    }
}

} // verus!
