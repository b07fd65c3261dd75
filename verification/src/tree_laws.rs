//! What holds of the list of files under a tree: it has one path for each
//! regular file, every path is that of a regular file of the tree, and in a
//! tree as a file system holds it no path comes twice.

use vstd::prelude::*;
use vstd::seq_lib::lemma_no_dup_in_concat;
use crate::tree::{
    entry_name, file_count_among, file_count_of, files_among, files_of, files_under, is_file_at,
    joined, valid_entry, valid_listing, valid_name, DirEntry, DirTree,
};

verus! {

/// Whether `path` is `place` itself or lies below it: it begins with
/// `place`, and what follows, if anything, begins with a separator.
pub open spec fn at_or_below(path: Seq<char>, place: Seq<char>) -> bool {
    &&& path.len() >= place.len()
    &&& path.subrange(0, place.len() as int) == place
    &&& path.len() == place.len() || path[place.len() as int] == '/'
}

/// A directory's path made ready for a name to follow: ended by one
/// separator, unless it is empty.
pub open spec fn with_separator(parent: Seq<char>) -> Seq<char> {
    if parent.len() == 0 || parent.last() == '/' {
        parent
    } else {
        parent + seq!['/']
    }
}

/// Joining is putting the name behind the separator-ended parent. The path
/// of an entry with a valid name is not empty and does not end in a
/// separator.
pub proof fn lemma_joined(parent: Seq<char>, name: Seq<char>)
    ensures
        joined(parent, name) == with_separator(parent) + name,
        valid_name(name) ==> joined(parent, name).len() > 0 && joined(parent, name).last() != '/',
        valid_name(name) ==> with_separator(joined(parent, name)) == joined(parent, name) + seq!['/'],
{
    assert(joined(parent, name) =~= with_separator(parent) + name);
    if valid_name(name) {
        let whole = with_separator(parent) + name;
        assert(whole.last() == name.last());
        assert(name.contains(name.last()));
    }
}

/// The list for an entry has one path for each regular file at or under it.
pub proof fn lemma_count_of(entry: DirEntry, parent: Seq<char>)
    ensures
        files_of(entry, parent).len() == file_count_of(entry),
    decreases entry, 0nat,
{
    match entry {
        DirEntry::Directory { name, listing: Some(entries) } => {
            lemma_count_among(entries@, joined(parent, name@), entries@.len());
        },
        _ => {},
    }
}

/// The list for the first `upto` entries has one path for each regular file
/// at or under them.
pub proof fn lemma_count_among(entries: Seq<DirEntry>, parent: Seq<char>, upto: nat)
    ensures
        files_among(entries, parent, upto).len() == file_count_among(entries, upto),
    decreases entries, upto,
{
    if upto == 0 || upto > entries.len() {
    } else {
        lemma_count_among(entries, parent, (upto - 1) as nat);
        lemma_count_of(entries[upto - 1], parent);
    }
}

/// A path is in the list for the first `upto` entries exactly when it is in
/// the list for one of them.
pub proof fn lemma_listed_among(entries: Seq<DirEntry>, parent: Seq<char>, upto: nat, path: Seq<char>)
    requires
        upto <= entries.len(),
    ensures
        files_among(entries, parent, upto).contains(path) <==> exists|i: int|
            0 <= i < upto && files_of(#[trigger] entries[i], parent).contains(path),
    decreases upto,
{
    if upto == 0 {
    } else {
        let earlier = files_among(entries, parent, (upto - 1) as nat);
        let last = files_of(entries[upto - 1], parent);
        let all = files_among(entries, parent, upto);
        assert(all == earlier + last);
        lemma_listed_among(entries, parent, (upto - 1) as nat, path);
        if all.contains(path) {
            let at = choose|at: int| 0 <= at < all.len() && all[at] == path;
            if at < earlier.len() {
                assert(earlier[at] == path);
                assert(earlier.contains(path));
                let i = choose|i: int|
                    0 <= i < upto - 1 && files_of(#[trigger] entries[i], parent).contains(path);
                assert(0 <= i < upto && files_of(entries[i], parent).contains(path));
            } else {
                assert(last[at - earlier.len()] == path);
                assert(files_of(entries[upto - 1], parent).contains(path));
            }
        }
        if exists|i: int| 0 <= i < upto && files_of(#[trigger] entries[i], parent).contains(path) {
            let i = choose|i: int|
                0 <= i < upto && files_of(#[trigger] entries[i], parent).contains(path);
            if i < upto - 1 {
                assert(earlier.contains(path));
                let at = choose|at: int| 0 <= at < earlier.len() && earlier[at] == path;
                assert(all[at] == path);
            } else {
                let at = choose|at: int| 0 <= at < last.len() && last[at] == path;
                assert(all[earlier.len() + at] == path);
            }
        }
    }
}

/// A path is in the list for an entry exactly when it is the path of a
/// regular file at or under that entry.
pub proof fn lemma_listed_of(entry: DirEntry, parent: Seq<char>, path: Seq<char>)
    ensures
        files_of(entry, parent).contains(path) <==> is_file_at(entry, parent, path),
    decreases entry,
{
    match entry {
        DirEntry::File { name } => {
            let only = seq![joined(parent, name@)];
            assert(only[0] == joined(parent, name@));
        },
        DirEntry::Directory { name, listing: Some(entries) } => {
            let place = joined(parent, name@);
            lemma_listed_among(entries@, place, entries@.len(), path);
            assert forall|i: int| 0 <= i < entries@.len() implies (files_of(
                #[trigger] entries@[i],
                place,
            ).contains(path) <==> is_file_at(entries@[i], place, path)) by {
                lemma_listed_of(entries@[i], place, path);
            }
        },
        _ => {},
    }
}

/// Every path in the list for a valid entry is the entry's own path or lies
/// below it.
pub proof fn lemma_listed_at_or_below(entry: DirEntry, parent: Seq<char>, path: Seq<char>)
    requires
        valid_entry(entry),
        files_of(entry, parent).contains(path),
    ensures
        at_or_below(path, joined(parent, entry_name(entry))),
    decreases entry,
{
    let place = joined(parent, entry_name(entry));
    match entry {
        DirEntry::File { name } => {
            let only = seq![joined(parent, name@)];
            assert(only[0] == place);
            assert(path == place);
            assert(path.subrange(0, place.len() as int) =~= place);
        },
        DirEntry::Directory { name, listing: Some(entries) } => {
            lemma_listed_among(entries@, place, entries@.len(), path);
            let i = choose|i: int|
                0 <= i < entries@.len() && files_of(#[trigger] entries@[i], place).contains(path);
            let child = entries@[i];
            lemma_listed_at_or_below(child, place, path);
            let deeper = joined(place, entry_name(child));
            lemma_joined(parent, name@);
            lemma_joined(place, entry_name(child));
            assert(deeper == place + seq!['/'] + entry_name(child));
            assert(path.subrange(0, deeper.len() as int) == deeper);
            assert forall|k: int| 0 <= k <= place.len() implies path[k] == deeper[k] by {
                assert(path.subrange(0, deeper.len() as int)[k] == path[k]);
            }
            assert(path.subrange(0, place.len() as int) =~= place);
            assert(deeper[place.len() as int] == '/');
        },
        _ => {},
    }
}

/// Two paths at or below two entries of one directory differ when the
/// entries' names do.
pub proof fn lemma_siblings_apart(
    parent: Seq<char>,
    first: Seq<char>,
    second: Seq<char>,
    under_first: Seq<char>,
    under_second: Seq<char>,
)
    requires
        valid_name(first),
        valid_name(second),
        first != second,
        at_or_below(under_first, joined(parent, first)),
        at_or_below(under_second, joined(parent, second)),
    ensures
        under_first != under_second,
{
    if under_first == under_second {
        let path = under_first;
        let base = with_separator(parent);
        let b = base.len() as int;
        lemma_joined(parent, first);
        lemma_joined(parent, second);
        let one = base + first;
        let two = base + second;
        assert forall|k: int| 0 <= k < first.len() implies path[b + k] == first[k] by {
            assert(path.subrange(0, one.len() as int)[b + k] == one[b + k]);
        }
        assert forall|k: int| 0 <= k < second.len() implies path[b + k] == second[k] by {
            assert(path.subrange(0, two.len() as int)[b + k] == two[b + k]);
        }
        if first.len() == second.len() {
            assert(first =~= second);
        } else if first.len() < second.len() {
            assert(path[b + first.len()] == '/');
            assert(second[first.len() as int] == '/');
            assert(second.contains('/'));
        } else {
            assert(path[b + second.len()] == '/');
            assert(first[second.len() as int] == '/');
            assert(first.contains('/'));
        }
    }
}

/// In the list for a valid entry no path comes twice.
pub proof fn lemma_distinct_of(entry: DirEntry, parent: Seq<char>)
    requires
        valid_entry(entry),
    ensures
        files_of(entry, parent).no_duplicates(),
    decreases entry, 0nat,
{
    match entry {
        DirEntry::Directory { name, listing: Some(entries) } => {
            lemma_distinct_among(entries@, joined(parent, name@), entries@.len());
        },
        _ => {},
    }
}

/// In the list for the first `upto` entries of a valid listing no path
/// comes twice.
pub proof fn lemma_distinct_among(entries: Seq<DirEntry>, parent: Seq<char>, upto: nat)
    requires
        valid_listing(entries),
        upto <= entries.len(),
    ensures
        files_among(entries, parent, upto).no_duplicates(),
    decreases entries, upto,
{
    if upto == 0 {
    } else {
        let earlier = files_among(entries, parent, (upto - 1) as nat);
        let last = files_of(entries[upto - 1], parent);
        lemma_distinct_among(entries, parent, (upto - 1) as nat);
        lemma_distinct_of(entries[upto - 1], parent);
        assert forall|i: int, j: int| 0 <= i < earlier.len() && 0 <= j < last.len() implies earlier[i]
            != last[j] by {
            let before = earlier[i];
            let after = last[j];
            assert(earlier.contains(before));
            assert(last.contains(after));
            lemma_listed_among(entries, parent, (upto - 1) as nat, before);
            let k = choose|k: int|
                0 <= k < upto - 1 && files_of(#[trigger] entries[k], parent).contains(before);
            lemma_listed_at_or_below(entries[k], parent, before);
            lemma_listed_at_or_below(entries[upto - 1], parent, after);
            lemma_siblings_apart(
                parent,
                entry_name(entries[k]),
                entry_name(entries[upto - 1]),
                before,
                after,
            );
        }
        lemma_no_dup_in_concat(earlier, last);
    }
}

/// Listing the files of a tree gives exactly one path for each regular file
/// the tree holds.
pub proof fn lemma_one_path_per_file(tree: DirTree)
    ensures
        files_under(tree).len() == tree.file_count(),
{
    match tree.listing {
        Some(entries) => {
            lemma_count_among(entries@, tree.root@, entries@.len());
        },
        None => {},
    }
}

/// A path is listed exactly when it is the path of a regular file of the
/// tree.
pub proof fn lemma_listed_paths_are_files(tree: DirTree, path: Seq<char>)
    ensures
        files_under(tree).contains(path) <==> tree.has_file(path),
{
    match tree.listing {
        Some(entries) => {
            lemma_listed_among(entries@, tree.root@, entries@.len(), path);
            assert forall|i: int| 0 <= i < entries@.len() implies (files_of(
                #[trigger] entries@[i],
                tree.root@,
            ).contains(path) <==> is_file_at(entries@[i], tree.root@, path)) by {
                lemma_listed_of(entries@[i], tree.root@, path);
            }
        },
        None => {},
    }
}

/// In a valid tree no path is listed twice: the listed paths are pairwise
/// distinct.
pub proof fn lemma_no_path_twice(tree: DirTree)
    requires
        tree.valid(),
    ensures
        files_under(tree).no_duplicates(),
{
    match tree.listing {
        Some(entries) => {
            lemma_distinct_among(entries@, tree.root@, entries@.len());
        },
        None => {},
    }
}

/// The list of the files under a valid tree is exact: it has as many paths
/// as the tree has regular files, each listed path is that of a regular
/// file of the tree and each regular file's path is listed, and no path is
/// listed twice.
pub proof fn lemma_enumeration_exact(tree: DirTree)
    requires
        tree.valid(),
    ensures
        files_under(tree).len() == tree.file_count(),
        forall|path: Seq<char>| #[trigger] files_under(tree).contains(path) <==> tree.has_file(path),
        files_under(tree).no_duplicates(),
{
    lemma_one_path_per_file(tree);
    lemma_no_path_twice(tree);
    assert forall|path: Seq<char>| #[trigger]
        files_under(tree).contains(path) <==> tree.has_file(path) by {
        lemma_listed_paths_are_files(tree, path);
    }
}

} // verus!
