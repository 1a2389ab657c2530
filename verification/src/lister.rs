//! The two asynchronous workers' compute cores. The surrounding application
//! performs the raw filesystem access and hands its observations in as plain
//! values; an absent observation stands for a read that failed, and yields
//! the absent result rather than a partial one.

use vstd::prelude::*;
use crate::entry::{Entry, entries_sorted, sort_entries};

verus! {

/// What the filesystem says a path currently is. `Other` covers everything
/// that is neither a regular file nor a directory: missing paths, special
/// files, and paths whose type could not be determined.
#[derive(Debug, Clone, Copy, PartialEq, Eq)]
pub enum PathKind {
    Directory,
    File,
    Other,
}

/// One raw child of a directory, as enumeration observed it: its path, its
/// bare name, and what kind of object it was at that moment.
#[derive(Debug, Clone, PartialEq, Eq)]
pub struct Child {
    pub path: String,
    pub name: String,
    pub kind: PathKind,
}

/// The entry a classifiable child turns into.
pub open spec fn entry_of(c: Child) -> Entry
    recommends
        !(c.kind is Other),
{
    if c.kind is File {
        Entry::File { path: c.path, name: c.name }
    } else {
        Entry::Directory { path: c.path, name: c.name }
    }
}

/// The entries a raw listing classifies into, in enumeration order:
/// children of kind `Other` are silently skipped, the rest become entries.
pub open spec fn classified(cs: Seq<Child>) -> Seq<Entry>
    decreases cs.len(),
{
    if cs.len() == 0 {
        Seq::empty()
    } else if cs.first().kind is Other {
        classified(cs.drop_first())
    } else {
        seq![entry_of(cs.first())] + classified(cs.drop_first())
    }
}

/// Produces the sorted listing of a directory from the raw children its
/// enumeration observed, or the absent result where the directory could not
/// be opened at all (`children` absent).
///
/// On success the result pairs the requested path with exactly the
/// classifiable children — unclassifiable ones silently skipped — sorted so
/// that every directory precedes every file and names are non-decreasing
/// within each group.
pub fn read_directory(path: String, children: Option<Vec<Child>>) -> (r: Option<
    (String, Vec<Entry>),
>)
    ensures
        children is None ==> r is None,
        children matches Some(cs) ==> {
            &&& r matches Some(pe)
            &&& pe.0 == path
            &&& entries_sorted(pe.1@)
            &&& pe.1@.to_multiset() == classified(cs@).to_multiset()
        },
{
    let mut rest = match children {
        None => {
            return None;
        },
        Some(cs) => cs,
    };
    let ghost all = rest@;
    let mut entries: Vec<Entry> = Vec::new();
    proof {
        assert(entries@ + classified(rest@) =~= classified(all));
    }
    while rest.len() > 0
        invariant
            entries@ + classified(rest@) == classified(all),
        decreases rest.len(),
    {
        let ghost pre_rest = rest@;
        let child = rest.remove(0);
        proof {
            assert(rest@ =~= pre_rest.drop_first());
        }
        match child.kind {
            PathKind::File => {
                entries.push(Entry::File { path: child.path, name: child.name });
            },
            PathKind::Directory => {
                entries.push(Entry::Directory { path: child.path, name: child.name });
            },
            PathKind::Other => {},
        }
        proof {
            assert(entries@ + classified(rest@) =~= classified(all));
        }
    }
    proof {
        assert(entries@ =~= classified(all));
    }
    let entries = sort_entries(entries);
    Some((path, entries))
}

/// Produces a loaded file from the text its read decoded, or the absent
/// result where the read or the decoding failed (`contents` absent) — a
/// directory path, a vanished file, or a file that is not text.
pub fn read_file(path: String, contents: Option<String>) -> (r: Option<(String, String)>)
    ensures
        contents is None ==> r is None,
        contents matches Some(c) ==> r == Some((path, c)),
{
    match contents {
        None => None,
        Some(c) => Some((path, c)),
    }
}

} // verus!
