//! Starting the watcher that a mode asks for on a directory tree.

use vstd::prelude::*;
use crate::event::{BackendError, Notification};
use crate::filter::kept_paths;
use crate::mode::WatcherMode;
use crate::registrar::{individual_requests, layer_failure, recursive_request, WatchRequest};
use crate::select::{
    every_nth, get_filtered_files, lemma_every_nth_distinct, lemma_every_nth_within,
};
use crate::tree::{collect_files_recursive, files_under, DirTree};
use crate::tree_laws::{lemma_listed_paths_are_files, lemma_no_path_twice};
use crate::watcher::{
    FilteredNativeRecursiveWatcher, ManualRecursiveWatcher, NativeRecursiveWatcher,
};

verus! {

/// The requests that `mode` issues on a tree whose regular files are
/// `files` and whose root is `root`, when the filtered modes take every
/// `ratio`-th file: one per file, or one per selected file, or the one
/// recursive request on the root.
pub open spec fn requests_for(
    mode: WatcherMode,
    root: Seq<char>,
    files: Seq<Seq<char>>,
    ratio: nat,
) -> Seq<WatchRequest> {
    match mode {
        WatcherMode::Manual => individual_requests(files),
        WatcherMode::ManualFiltered => individual_requests(every_nth(files, ratio)),
        WatcherMode::Native => recursive_request(root),
        WatcherMode::NativeFiltered => recursive_request(root),
    }
}

/// The paths that `requests` ask to watch, in order.
pub open spec fn requested_paths(requests: Seq<WatchRequest>) -> Seq<Seq<char>> {
    Seq::new(requests.len(), |i: int| requests[i].path)
}

/// In the per-file modes on a valid tree, the watched paths are regular
/// files of the tree, and none is watched twice.
pub proof fn lemma_watched_paths(mode: WatcherMode, tree: DirTree, ratio: nat, path: Seq<char>)
    requires
        tree.valid(),
        ratio >= 1,
        mode == WatcherMode::Manual || mode == WatcherMode::ManualFiltered,
    ensures
        requested_paths(requests_for(mode, tree.root@, files_under(tree), ratio)).no_duplicates(),
        requested_paths(requests_for(mode, tree.root@, files_under(tree), ratio)).contains(path)
            ==> tree.has_file(path),
{
    let files = files_under(tree);
    let watched = if mode == WatcherMode::Manual {
        files
    } else {
        every_nth(files, ratio)
    };
    assert(requested_paths(requests_for(mode, tree.root@, files, ratio)) =~= watched);
    lemma_no_path_twice(tree);
    lemma_every_nth_distinct(files, ratio);
    if watched.contains(path) {
        if mode == WatcherMode::ManualFiltered {
            lemma_every_nth_within(files, ratio, path);
        }
        lemma_listed_paths_are_files(tree, path);
    }
}

/// In the filtered recursive mode the filter set holds only regular files
/// of the tree, whatever is found on disk.
pub proof fn lemma_filter_within_tree(tree: DirTree, ratio: nat, regular: Seq<bool>, path: Seq<char>)
    requires
        ratio >= 1,
        kept_paths(every_nth(files_under(tree), ratio), regular).contains(path),
    ensures
        tree.has_file(path),
{
    let selected = every_nth(files_under(tree), ratio);
    let i = choose|i: int|
        0 <= i < selected.len() && i < regular.len() && regular[i] && #[trigger] selected[i] == path;
    assert(selected.contains(path));
    lemma_every_nth_within(files_under(tree), ratio, path);
    lemma_listed_paths_are_files(tree, path);
}

/// A watcher that is set up and delivering, whichever mode made it.
pub struct ActiveWatch {
    owner: notify::RecommendedWatcher,
    receiver: std::sync::mpsc::Receiver<Notification>,
    setup_time: std::time::Duration,
    reported: usize,
    requests: Ghost<Seq<WatchRequest>>,
    filter: Ghost<Option<Set<Seq<char>>>>,
}

impl ActiveWatch {
    /// The requests the notification layer accepted for this watcher.
    pub closed spec fn requests(&self) -> Seq<WatchRequest> {
        self.requests@
    }

    /// The filter set, where the mode filters notifications.
    pub closed spec fn filter(&self) -> Option<Set<Seq<char>>> {
        self.filter@
    }

    /// The number of files reported for this watcher.
    pub closed spec fn reported(&self) -> nat {
        self.reported as nat
    }

    /// The connection to the notification layer that keeps the watches alive.
    pub closed spec fn connection(&self) -> notify::RecommendedWatcher {
        self.owner
    }

    /// The consuming end of the event channel.
    pub closed spec fn channel(&self) -> std::sync::mpsc::Receiver<Notification> {
        self.receiver
    }

    /// The time the registrations took.
    pub closed spec fn measured(&self) -> std::time::Duration {
        self.setup_time
    }

    /// Sets up the watcher that `mode` asks for on `tree`. The filtered
    /// modes work on every `filter_ratio`-th file of the tree.
    ///
    /// The number reported is that of the files watched one by one, or of
    /// the files in the filter set; for the plain recursive watch, which
    /// counts no files, it is the number of files in the tree. Fails only
    /// with a failure of the notification layer.
    pub fn start(mode: WatcherMode, tree: &DirTree, filter_ratio: usize) -> (started: Result<
        ActiveWatch,
        BackendError,
    >)
        requires
            filter_ratio >= 1,
        ensures
            started matches Ok(watch) ==> {
                &&& watch.requests() == requests_for(
                    mode,
                    tree.root@,
                    files_under(*tree),
                    filter_ratio as nat,
                )
                &&& mode == WatcherMode::Manual ==> watch.reported() == files_under(*tree).len()
                &&& mode == WatcherMode::Native ==> watch.reported() == files_under(*tree).len()
                &&& mode == WatcherMode::ManualFiltered ==> watch.reported() == every_nth(
                    files_under(*tree),
                    filter_ratio as nat,
                ).len()
                &&& mode == WatcherMode::NativeFiltered ==> exists|regular: Seq<bool>|
                    regular.len() == every_nth(files_under(*tree), filter_ratio as nat).len()
                        && watch.filter() == Some(
                        #[trigger] kept_paths(
                            every_nth(files_under(*tree), filter_ratio as nat),
                            regular,
                        ),
                    ) && watch.reported() == kept_paths(
                        every_nth(files_under(*tree), filter_ratio as nat),
                        regular,
                    ).len()
                &&& mode == WatcherMode::NativeFiltered ==> (watch.filter() matches Some(members)
                    && members.finite() && watch.reported() == members.len() && members.len()
                    <= every_nth(files_under(*tree), filter_ratio as nat).len())
                &&& mode != WatcherMode::NativeFiltered ==> watch.filter().is_none()
            },
            started matches Err(error) ==> layer_failure(error),
    {
        let all_files = collect_files_recursive(tree);
        match mode {
            WatcherMode::Manual => {
                match ManualRecursiveWatcher::new_with_files(all_files) {
                    Ok(watcher) => Ok(ActiveWatch::of_manual(watcher)),
                    Err(error) => Err(error),
                }
            },
            WatcherMode::ManualFiltered => {
                let selected = get_filtered_files(all_files.as_slice(), filter_ratio);
                match ManualRecursiveWatcher::new_with_files(selected) {
                    Ok(watcher) => Ok(ActiveWatch::of_manual(watcher)),
                    Err(error) => Err(error),
                }
            },
            WatcherMode::Native => {
                match NativeRecursiveWatcher::new(tree.root.as_str()) {
                    Ok(watcher) => Ok(ActiveWatch::of_native(watcher, all_files.len())),
                    Err(error) => Err(error),
                }
            },
            WatcherMode::NativeFiltered => {
                let selected = get_filtered_files(all_files.as_slice(), filter_ratio);
                match NativeRecursiveWatcher::new_with_filter(tree.root.as_str(), selected) {
                    Ok(watcher) => Ok(ActiveWatch::of_filtered(watcher)),
                    Err(error) => Err(error),
                }
            },
        }
    }

    /// A per-file watcher as an active watch; it reports the files it watches.
    fn of_manual(watcher: ManualRecursiveWatcher) -> (watch: ActiveWatch)
        ensures
            watch.requests() == watcher.requests(),
            watch.reported() == watcher.requests().len(),
            watch.filter().is_none(),
    {
        let reported = watcher.files_watched();
        let setup_time = watcher.setup_time();
        let ghost requests = watcher.requests();
        let (owner, receiver) = watcher.into_parts();
        ActiveWatch {
            owner,
            receiver,
            setup_time,
            reported,
            requests: Ghost(requests),
            filter: Ghost(None),
        }
    }

    /// A recursive watcher as an active watch; it reports `file_count`.
    fn of_native(watcher: NativeRecursiveWatcher, file_count: usize) -> (watch: ActiveWatch)
        ensures
            watch.requests() == watcher.requests(),
            watch.reported() == file_count,
            watch.filter().is_none(),
    {
        let setup_time = watcher.setup_time();
        let ghost requests = watcher.requests();
        let (owner, receiver) = watcher.into_parts();
        ActiveWatch {
            owner,
            receiver,
            setup_time,
            reported: file_count,
            requests: Ghost(requests),
            filter: Ghost(None),
        }
    }

    /// A filtered recursive watcher as an active watch; it reports the size
    /// of its filter set.
    fn of_filtered(watcher: FilteredNativeRecursiveWatcher) -> (watch: ActiveWatch)
        ensures
            watch.requests() == watcher.requests(),
            watch.reported() == watcher.filter().len(),
            watch.filter() == Some(watcher.filter()),
            watcher.filter().finite(),
    {
        let reported = watcher.files_filtered();
        let setup_time = watcher.setup_time();
        let ghost requests = watcher.requests();
        let ghost members = watcher.filter();
        let (owner, receiver) = watcher.into_parts();
        ActiveWatch {
            owner,
            receiver,
            setup_time,
            reported,
            requests: Ghost(requests),
            filter: Ghost(Some(members)),
        }
    }

    /// The number of files reported for this watcher.
    pub fn watched_count(&self) -> (count: usize)
        ensures
            count == self.reported(),
    {
        self.reported
    }

    /// The time the registrations took.
    pub fn setup_time(&self) -> (time: std::time::Duration)
        ensures
            time == self.measured(),
    {
        self.setup_time
    }

    /// The consuming end of the event channel, for repeated polling.
    pub fn receiver(&self) -> (end: &std::sync::mpsc::Receiver<Notification>)
        ensures
            *end == self.channel(),
    {
        &self.receiver
    }

    /// Splits the watcher into the connection that keeps the watches alive
    /// and the consuming end of the channel.
    pub fn into_parts(self) -> (parts: (
        notify::RecommendedWatcher,
        std::sync::mpsc::Receiver<Notification>,
    ))
        ensures
            parts.0 == self.connection(),
            parts.1 == self.channel(),
    {
        (self.owner, self.receiver)
    }
}

} // verus!
