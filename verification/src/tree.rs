//! A directory tree as a value, and the list of the regular files under it.
//!
//! The tree is a snapshot: for each directory the entries that a listing of
//! it gave, in that order, or nothing where the directory could not be
//! opened. Paths are not stored; they follow from the root's path and the
//! names on the way down.

use vstd::prelude::*;
use vstd::string::*;
use crate::event::path_texts;

verus! {

/// One entry of a directory listing.
#[derive(Debug, PartialEq, Eq)]
pub enum DirEntry {
    /// A regular file.
    File { name: String },
    /// A directory, with its own listing, or `None` where it could not be
    /// opened.
    Directory { name: String, listing: Option<Vec<DirEntry>> },
    /// Anything else: a socket, a device, a link that leads nowhere.
    Other { name: String },
}

/// A directory tree: the path of its root and the root's listing, or `None`
/// where the root could not be opened.
#[derive(Debug, PartialEq, Eq)]
pub struct DirTree {
    pub root: String,
    pub listing: Option<Vec<DirEntry>>,
}

/// The path of the entry `name` in the directory `parent`: the two joined by
/// one separator, unless `parent` is empty or already ends in one.
pub open spec fn joined(parent: Seq<char>, name: Seq<char>) -> Seq<char> {
    if parent.len() == 0 || parent.last() == '/' {
        parent + name
    } else {
        parent + seq!['/'] + name
    }
}

/// The regular files at or under `entry`, which lies in the directory
/// `parent`: depth first, in listing order.
pub open spec fn files_of(entry: DirEntry, parent: Seq<char>) -> Seq<Seq<char>>
    decreases entry, 0nat,
{
    match entry {
        DirEntry::File { name } => seq![joined(parent, name@)],
        DirEntry::Directory { name, listing: Some(entries) } => files_among(
            entries@,
            joined(parent, name@),
            entries@.len(),
        ),
        _ => Seq::empty(),
    }
}

/// The regular files at or under the first `upto` of `entries`, which lie
/// in the directory `parent`.
pub open spec fn files_among(entries: Seq<DirEntry>, parent: Seq<char>, upto: nat) -> Seq<Seq<char>>
    decreases entries, upto,
{
    if upto == 0 || upto > entries.len() {
        Seq::empty()
    } else {
        files_among(entries, parent, (upto - 1) as nat) + files_of(entries[upto - 1], parent)
    }
}

/// The regular files under the root of `tree`.
pub open spec fn files_under(tree: DirTree) -> Seq<Seq<char>> {
    match tree.listing {
        Some(entries) => files_among(entries@, tree.root@, entries@.len()),
        None => Seq::empty(),
    }
}

/// The name of an entry.
pub open spec fn entry_name(entry: DirEntry) -> Seq<char> {
    match entry {
        DirEntry::File { name } => name@,
        DirEntry::Directory { name, .. } => name@,
        DirEntry::Other { name } => name@,
    }
}

/// A name as a directory listing gives it: not empty, and without a
/// separator.
pub open spec fn valid_name(name: Seq<char>) -> bool {
    name.len() > 0 && !name.contains('/')
}

/// An entry as a file system holds it: its name is valid and, where it is a
/// directory that could be opened, so is its listing.
pub open spec fn valid_entry(entry: DirEntry) -> bool
    decreases entry, 0nat,
{
    valid_name(entry_name(entry)) && match entry {
        DirEntry::Directory { listing: Some(entries), .. } => valid_listing(entries@),
        _ => true,
    }
}

/// A listing as a file system gives it: every entry is valid, and no two
/// entries have the same name.
pub open spec fn valid_listing(entries: Seq<DirEntry>) -> bool
    decreases entries, 1nat,
{
    &&& forall|i: int| 0 <= i < entries.len() ==> valid_entry(#[trigger] entries[i])
    &&& forall|i: int, j: int|
        0 <= i < j < entries.len() ==> entry_name(#[trigger] entries[i]) != entry_name(
            #[trigger] entries[j],
        )
}

/// How many regular files lie at or under `entry`.
pub open spec fn file_count_of(entry: DirEntry) -> nat
    decreases entry, 0nat,
{
    match entry {
        DirEntry::File { .. } => 1,
        DirEntry::Directory { listing: Some(entries), .. } => file_count_among(
            entries@,
            entries@.len(),
        ),
        _ => 0,
    }
}

/// How many regular files lie at or under the first `upto` of `entries`.
pub open spec fn file_count_among(entries: Seq<DirEntry>, upto: nat) -> nat
    decreases entries, upto,
{
    if upto == 0 || upto > entries.len() {
        0
    } else {
        file_count_among(entries, (upto - 1) as nat) + file_count_of(entries[upto - 1])
    }
}

/// Whether `path` is the path of a regular file at or under `entry`, which
/// lies in the directory `parent`.
pub open spec fn is_file_at(entry: DirEntry, parent: Seq<char>, path: Seq<char>) -> bool
    decreases entry, 0nat,
{
    match entry {
        DirEntry::File { name } => path == joined(parent, name@),
        DirEntry::Directory { name, listing: Some(entries) } => is_file_among(
            entries@,
            joined(parent, name@),
            path,
        ),
        _ => false,
    }
}

/// Whether `path` is the path of a regular file at or under one of
/// `entries`, which lie in the directory `parent`.
pub open spec fn is_file_among(entries: Seq<DirEntry>, parent: Seq<char>, path: Seq<char>) -> bool
    decreases entries, 1nat,
{
    exists|i: int| 0 <= i < entries.len() && is_file_at(#[trigger] entries[i], parent, path)
}

impl DirTree {
    /// A tree as a file system holds it: see [`valid_listing`].
    pub open spec fn valid(&self) -> bool {
        match self.listing {
            Some(entries) => valid_listing(entries@),
            None => true,
        }
    }

    /// How many regular files the tree holds.
    pub open spec fn file_count(&self) -> nat {
        match self.listing {
            Some(entries) => file_count_among(entries@, entries@.len()),
            None => 0,
        }
    }

    /// Whether `path` is the path of a regular file of the tree.
    pub open spec fn has_file(&self, path: Seq<char>) -> bool {
        match self.listing {
            Some(entries) => is_file_among(entries@, self.root@, path),
            None => false,
        }
    }
}

/// The path of the entry `name` in the directory `parent`.
pub fn join_path(parent: &str, name: &str) -> (path: String)
    ensures
        path@ == joined(parent@, name@),
{
    let length = parent.unicode_len();
    let mut path = parent.to_owned();
    if length > 0 && parent.get_char(length - 1) != '/' {
        proof {
            reveal_strlit("/");
        }
        path.append("/");
        assert(path@ =~= parent@ + seq!['/']);
    }
    path.append(name);
    path
}

/// Appends to `files` the regular files at or under `entries`, which lie in
/// the directory `parent`.
pub fn collect_files_recursive_impl(entries: &Vec<DirEntry>, parent: &str, files: &mut Vec<String>)
    ensures
        path_texts(final(files)@) == path_texts(old(files)@) + files_among(
            entries@,
            parent@,
            entries@.len(),
        ),
    decreases entries,
{
    let mut i: usize = 0;
    while i < entries.len()
        invariant
            0 <= i <= entries.len(),
            path_texts(files@) == path_texts(old(files)@) + files_among(entries@, parent@, i as nat),
        decreases entries.len() - i,
    {
        let ghost before = files@;
        match &entries[i] {
            DirEntry::File { name } => {
                files.push(join_path(parent, name.as_str()));
                assert(path_texts(files@) =~= path_texts(before) + seq![joined(parent@, name@)]);
            },
            DirEntry::Directory { name, listing } => {
                match listing {
                    Some(children) => {
                        let child = join_path(parent, name.as_str());
                        collect_files_recursive_impl(children, child.as_str(), files);
                    },
                    None => {},
                }
            },
            DirEntry::Other { name } => {},
        }
        assert(path_texts(files@) =~= path_texts(before) + files_of(entries@[i as int], parent@));
        i = i + 1;
    }
}

/// Lists the regular files under the root of `tree`: depth first, each
/// directory's entries in listing order. Directories that could not be
/// opened contribute nothing, and neither do entries that are not regular
/// files.
pub fn collect_files_recursive(tree: &DirTree) -> (files: Vec<String>)
    ensures
        path_texts(files@) == files_under(*tree),
        files.len() == files_under(*tree).len(),
{
    let mut files: Vec<String> = Vec::new();
    match &tree.listing {
        Some(entries) => {
            collect_files_recursive_impl(entries, tree.root.as_str(), &mut files);
        },
        None => {},
    }
    assert(path_texts(Seq::<String>::empty()) =~= Seq::<Seq<char>>::empty());
    files
}

} // verus!
