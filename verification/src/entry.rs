//! Directory-listing entries and their ordering: directories sort before
//! files, and names sort codepoint-lexicographically within each group.

use vstd::prelude::*;
use vstd::string::*;
use crate::order::{lex_le, lemma_lex_le_total, lemma_lex_le_trans, str_lex_le};
use crate::state::Message;

verus! {

/// One directory-or-file child discovered by a listing. Identity is `path`;
/// `name` is the child's bare file name. Immutable once constructed.
#[derive(Debug, Clone, PartialEq, Eq)]
pub enum Entry {
    File { path: String, name: String },
    Directory { path: String, name: String },
}

impl Entry {
    /// The bare name the entry was listed under.
    pub open spec fn spec_name(self) -> Seq<char> {
        match self {
            Entry::File { name, .. } => name@,
            Entry::Directory { name, .. } => name@,
        }
    }

    /// The display label: the bare name prefixed with a marker that tells
    /// files and directories apart.
    pub open spec fn spec_label(self) -> Seq<char> {
        match self {
            Entry::File { name, .. } => "F - "@ + name@,
            Entry::Directory { name, .. } => "D - "@ + name@,
        }
    }

    /// Display label for the entry: files are prefixed `F - `, directories
    /// `D - `, so the two kinds are told apart in a rendered listing.
    pub fn name(&self) -> (r: String)
        ensures
            r@ == self.spec_label(),
    {
        match self {
            Entry::File { name, .. } => {
                let mut r = "F - ".to_owned();
                r.append(name.as_str());
                r
            },
            Entry::Directory { name, .. } => {
                let mut r = "D - ".to_owned();
                r.append(name.as_str());
                r
            },
        }
    }

    /// The follow-up request that selecting the entry stands for: read the
    /// file, or descend into the directory, at the entry's own path.
    pub fn message(&self) -> (m: Message)
        ensures
            *self matches Entry::File { path, .. } ==> m matches Message::ReadFile(q) && q@
                == path@,
            *self matches Entry::Directory { path, .. } ==> m matches Message::ChangeDirectory(q)
                && q@ == path@,
    {
        match self {
            Entry::File { path, .. } => Message::ReadFile(path.clone()),
            Entry::Directory { path, .. } => Message::ChangeDirectory(path.clone()),
        }
    }
}

/// The listing order: every directory sorts before every file, and entries
/// of the same kind sort by name, codepoint-lexicographically. Entries of
/// the same kind with equal names rank equally, whatever their paths.
pub open spec fn entry_le(a: Entry, b: Entry) -> bool {
    match (a, b) {
        (Entry::Directory { .. }, Entry::File { .. }) => true,
        (Entry::File { .. }, Entry::Directory { .. }) => false,
        _ => lex_le(a.spec_name(), b.spec_name()),
    }
}

/// Any two entries are comparable under `entry_le`.
pub proof fn lemma_entry_le_total(a: Entry, b: Entry)
    ensures
        entry_le(a, b) || entry_le(b, a),
{
    lemma_lex_le_total(a.spec_name(), b.spec_name());
}

/// `entry_le` is transitive.
pub proof fn lemma_entry_le_trans(a: Entry, b: Entry, c: Entry)
    requires
        entry_le(a, b),
        entry_le(b, c),
    ensures
        entry_le(a, c),
{
    if a is Directory && c is File {
    } else if !(a is File && c is Directory) {
        if a is Directory && b is File {
        } else if b is Directory && c is File {
        } else {
            lemma_lex_le_trans(a.spec_name(), b.spec_name(), c.spec_name());
        }
    }
}

/// A listing is sorted when every pair of entries, in order, satisfies
/// `entry_le`.
pub open spec fn entries_sorted(s: Seq<Entry>) -> bool {
    forall|i: int, j: int|
        0 <= i < j < s.len() ==> entry_le(#[trigger] s[i], #[trigger] s[j])
}

/// In a sorted listing every directory entry precedes every file entry, and
/// within each group names are non-decreasing.
pub proof fn lemma_sorted_listing_shape(s: Seq<Entry>)
    requires
        entries_sorted(s),
    ensures
        forall|i: int, j: int|
            0 <= i < j < s.len() && #[trigger] s[i] is File ==> #[trigger] s[j] is File,
        forall|i: int, j: int|
            0 <= i < j < s.len() && #[trigger] s[i] is File && #[trigger] s[j] is File
                ==> lex_le(s[i].spec_name(), s[j].spec_name()),
        forall|i: int, j: int|
            0 <= i < j < s.len() && #[trigger] s[i] is Directory && #[trigger] s[j] is Directory
                ==> lex_le(s[i].spec_name(), s[j].spec_name()),
{
}

/// Compares two entries in the listing order.
fn entry_le_exec(a: &Entry, b: &Entry) -> (r: bool)
    ensures
        r == entry_le(*a, *b),
{
    match (a, b) {
        (Entry::Directory { .. }, Entry::File { .. }) => true,
        (Entry::File { .. }, Entry::Directory { .. }) => false,
        (Entry::File { name: na, .. }, Entry::File { name: nb, .. }) => {
            str_lex_le(na.as_str(), nb.as_str())
        },
        (Entry::Directory { name: na, .. }, Entry::Directory { name: nb, .. }) => {
            str_lex_le(na.as_str(), nb.as_str())
        },
    }
}

/// Inserting an element anywhere in a sequence adds it, and nothing else,
/// to the sequence's multiset.
proof fn lemma_insert_to_multiset(s: Seq<Entry>, i: int, e: Entry)
    requires
        0 <= i <= s.len(),
    ensures
        s.insert(i, e).to_multiset() =~= s.to_multiset().insert(e),
{
    broadcast use vstd::multiset::group_multiset_axioms;

    let front = s.subrange(0, i);
    let back = s.subrange(i, s.len() as int);
    assert(s =~= front + back);
    vstd::seq_lib::lemma_multiset_commutative(front, back);
    vstd::seq_lib::lemma_multiset_commutative(front.push(e), back);
    front.to_multiset_ensures();
}

/// Places one entry into an already sorted listing, keeping it sorted.
fn insert_sorted(r: &mut Vec<Entry>, e: Entry)
    requires
        entries_sorted(old(r)@),
    ensures
        entries_sorted(final(r)@),
        final(r)@.to_multiset() == old(r)@.to_multiset().insert(e),
{
    let mut pos: usize = 0;
    while pos < r.len() && entry_le_exec(&r[pos], &e)
        invariant
            pos <= r.len(),
            r@ == old(r)@,
            forall|k: int| 0 <= k < pos ==> entry_le(#[trigger] r@[k], e),
        decreases r.len() - pos,
    {
        pos = pos + 1;
    }
    proof {
        if pos < r@.len() {
            lemma_entry_le_total(r@[pos as int], e);
        }
        let s = r@.insert(pos as int, e);
        assert forall|i: int, j: int| 0 <= i < j < s.len() implies entry_le(
            #[trigger] s[i],
            #[trigger] s[j],
        ) by {
            if i < pos && j > pos {
                assert(entry_le(r@[i], r@[j - 1]));
            } else if i == pos && j > pos {
                if pos < r@.len() && j - 1 > pos {
                    lemma_entry_le_trans(e, r@[pos as int], r@[j - 1]);
                }
            } else if i < pos && j == pos {
                assert(entry_le(r@[i], e));
            }
        }
        lemma_insert_to_multiset(r@, pos as int, e);
    }
    r.insert(pos, e);
}

/// Sorts a listing into the order `entries_sorted` describes. The result
/// holds exactly the given entries: same multiset, sorted order.
pub fn sort_entries(entries: Vec<Entry>) -> (r: Vec<Entry>)
    ensures
        entries_sorted(r@),
        r@.to_multiset() == entries@.to_multiset(),
{
    let mut rest = entries;
    let mut r: Vec<Entry> = Vec::new();
    proof {
        broadcast use vstd::multiset::group_multiset_axioms;

        r@.to_multiset_ensures();
        assert(r@.to_multiset().add(rest@.to_multiset()) =~= entries@.to_multiset());
    }
    while rest.len() > 0
        invariant
            entries_sorted(r@),
            r@.to_multiset().add(rest@.to_multiset()) == entries@.to_multiset(),
        decreases rest.len(),
    {
        proof {
            broadcast use vstd::multiset::group_multiset_axioms;

            rest@.to_multiset_ensures();
            assert(rest@.remove(rest@.len() - 1).to_multiset() =~= rest@.to_multiset().remove(
                rest@[rest@.len() - 1],
            ));
        }
        let ghost pre_rest = rest@;
        let ghost pre_r = r@;
        let e = rest.pop().unwrap();
        proof {
            assert(rest@ =~= pre_rest.remove(pre_rest.len() - 1));
        }
        insert_sorted(&mut r, e);
        proof {
            broadcast use vstd::multiset::group_multiset_axioms;

            assert(r@.to_multiset().add(rest@.to_multiset()) =~= entries@.to_multiset());
        }
    }
    proof {
        broadcast use vstd::multiset::group_multiset_axioms;

        rest@.to_multiset_ensures();
        assert(r@.to_multiset() =~= entries@.to_multiset());
    }
    r
}

} // verus!
