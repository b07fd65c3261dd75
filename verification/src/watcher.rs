//! The watcher handles: a per-file watcher, a recursive watcher on a root
//! directory, and a recursive watcher whose notifications are filtered.
//!
//! A handle exists only once every registration has been accepted. When a
//! registration is refused, the connection to the notification layer is
//! released, and with it the watches installed before the refusal.

use vstd::prelude::*;
use crate::backend::{clock_elapsed, clock_now, open_channel};
use crate::event::{path_texts, BackendError, Notification};
use crate::filter::{kept_paths, FilterSet};
use crate::registrar::{
    individual_requests, layer_failure, recursive_request, WatchRegistrar, WatchRequest,
};
use crate::tree::{collect_files_recursive, files_under, DirTree};

verus! {

/// Watches each file of a list by a watch of its own.
pub struct ManualRecursiveWatcher {
    registrar: WatchRegistrar,
    receiver: std::sync::mpsc::Receiver<Notification>,
    files_watched: usize,
    setup_time: std::time::Duration,
}

/// Watches a directory tree by one recursive watch on its root.
pub struct NativeRecursiveWatcher {
    registrar: WatchRegistrar,
    receiver: std::sync::mpsc::Receiver<Notification>,
    setup_time: std::time::Duration,
}

/// Watches a directory tree by one recursive watch on its root and lets
/// through only the changes that mention a path of its filter set.
pub struct FilteredNativeRecursiveWatcher {
    registrar: WatchRegistrar,
    receiver: std::sync::mpsc::Receiver<Notification>,
    files_filtered: usize,
    setup_time: std::time::Duration,
}

impl ManualRecursiveWatcher {
    #[verifier::type_invariant]
    spec fn counted(self) -> bool {
        self.files_watched == self.registrar.accepted().len()
    }

    /// The requests the notification layer accepted for this watcher.
    pub closed spec fn requests(&self) -> Seq<WatchRequest> {
        self.registrar.accepted()
    }

    /// The requests issued to the notification layer for this watcher.
    pub closed spec fn issued(&self) -> Seq<WatchRequest> {
        self.registrar.issued()
    }

    /// Whether every notification is forwarded to the channel.
    pub closed spec fn forwards_all(&self) -> bool {
        self.registrar.filter().is_none()
    }

    /// The connection to the notification layer that keeps the watches alive.
    pub closed spec fn connection(&self) -> notify::RecommendedWatcher {
        self.registrar.connection()
    }

    /// The consuming end of the event channel.
    pub closed spec fn channel(&self) -> std::sync::mpsc::Receiver<Notification> {
        self.receiver
    }

    /// The time the registrations took.
    pub closed spec fn measured(&self) -> std::time::Duration {
        self.setup_time
    }

    /// Watches each regular file under the root of `tree` by a watch of its
    /// own, in the order in which the tree lists them. Fails only with a
    /// failure of the notification layer.
    pub fn new(tree: &DirTree) -> (made: Result<ManualRecursiveWatcher, BackendError>)
        ensures
            made matches Ok(watcher) ==> watcher.requests() == individual_requests(
                files_under(*tree),
            ) && watcher.issued() == watcher.requests() && watcher.forwards_all(),
            made matches Err(error) ==> layer_failure(error),
    {
        let files = collect_files_recursive(tree);
        ManualRecursiveWatcher::new_with_files(files)
    }

    /// Watches each of `files_to_watch` by a non-recursive watch of its own,
    /// registered in the order of the list: one request per file is issued
    /// and no other. The setup time covers the registrations alone. Fails
    /// with the first refusal, or where the layer cannot be connected to,
    /// and with nothing else.
    pub fn new_with_files(files_to_watch: Vec<String>) -> (made: Result<
        ManualRecursiveWatcher,
        BackendError,
    >)
        ensures
            made matches Ok(watcher) ==> watcher.requests() == individual_requests(
                path_texts(files_to_watch@),
            ) && watcher.requests().len() == files_to_watch.len() && watcher.issued()
                == watcher.requests() && watcher.forwards_all(),
            made matches Err(error) ==> layer_failure(error),
    {
        let (sender, receiver) = open_channel();
        let mut registrar = match WatchRegistrar::start(sender, None) {
            Ok(registrar) => registrar,
            Err(error) => {
                return Err(error);
            },
        };
        let files_watched = files_to_watch.len();
        let started = clock_now();
        match registrar.register_individual(&files_to_watch) {
            Ok(()) => {},
            Err(error) => {
                return Err(error);
            },
        }
        let setup_time = clock_elapsed(&started);
        Ok(ManualRecursiveWatcher { registrar, receiver, files_watched, setup_time })
    }

    /// How many files are under watch.
    pub fn files_watched(&self) -> (count: usize)
        ensures
            count == self.requests().len(),
    {
        proof {
            use_type_invariant(self);
        }
        self.files_watched
    }

    /// The time the registrations took.
    pub fn setup_time(&self) -> (time: std::time::Duration)
        ensures
            time == self.measured(),
    {
        self.setup_time
    }

    /// The consuming end of the event channel, for repeated polling.
    pub fn receiver(&self) -> (end: &std::sync::mpsc::Receiver<Notification>)
        ensures
            *end == self.channel(),
    {
        &self.receiver
    }

    /// Splits the handle into the connection that keeps the watches alive
    /// and the consuming end of the channel.
    pub fn into_parts(self) -> (parts: (
        notify::RecommendedWatcher,
        std::sync::mpsc::Receiver<Notification>,
    ))
        ensures
            parts.0 == self.connection(),
            parts.1 == self.channel(),
    {
        (self.registrar.into_backend(), self.receiver)
    }
}

impl NativeRecursiveWatcher {
    /// The requests the notification layer accepted for this watcher.
    pub closed spec fn requests(&self) -> Seq<WatchRequest> {
        self.registrar.accepted()
    }

    /// The requests issued to the notification layer for this watcher.
    pub closed spec fn issued(&self) -> Seq<WatchRequest> {
        self.registrar.issued()
    }

    /// Whether every notification is forwarded to the channel.
    pub closed spec fn forwards_all(&self) -> bool {
        self.registrar.filter().is_none()
    }

    /// The connection to the notification layer that keeps the watch alive.
    pub closed spec fn connection(&self) -> notify::RecommendedWatcher {
        self.registrar.connection()
    }

    /// The consuming end of the event channel.
    pub closed spec fn channel(&self) -> std::sync::mpsc::Receiver<Notification> {
        self.receiver
    }

    /// The time the registration took.
    pub closed spec fn measured(&self) -> std::time::Duration {
        self.setup_time
    }

    /// Watches the tree under `dir` by one recursive watch on `dir`: that
    /// one request is issued and no other. The setup time covers that one
    /// registration. Fails when it is refused, or where the layer cannot be
    /// connected to, and with nothing else.
    pub fn new(dir: &str) -> (made: Result<NativeRecursiveWatcher, BackendError>)
        ensures
            made matches Ok(watcher) ==> watcher.requests() == recursive_request(dir@)
                && watcher.issued() == watcher.requests() && watcher.forwards_all(),
            made matches Err(error) ==> layer_failure(error),
    {
        let (sender, receiver) = open_channel();
        let mut registrar = match WatchRegistrar::start(sender, None) {
            Ok(registrar) => registrar,
            Err(error) => {
                return Err(error);
            },
        };
        let started = clock_now();
        match registrar.register_recursive(dir) {
            Ok(()) => {},
            Err(error) => {
                return Err(error);
            },
        }
        let setup_time = clock_elapsed(&started);
        Ok(NativeRecursiveWatcher { registrar, receiver, setup_time })
    }

    /// Watches the tree under `dir` by one recursive watch on `dir` and lets
    /// through only the changes that mention a path of `filter`; failures of
    /// the notification layer always pass. The one request is issued and no
    /// other. Fails only with a failure of the notification layer.
    pub fn with_filter_set(dir: &str, filter: FilterSet) -> (made: Result<
        FilteredNativeRecursiveWatcher,
        BackendError,
    >)
        ensures
            made matches Ok(watcher) ==> watcher.requests() == recursive_request(dir@)
                && watcher.issued() == watcher.requests() && watcher.filter() == filter@
                && watcher.filter().finite(),
            made matches Err(error) ==> layer_failure(error),
    {
        let files_filtered = filter.len();
        let (sender, receiver) = open_channel();
        let mut registrar = match WatchRegistrar::start(sender, Some(filter)) {
            Ok(registrar) => registrar,
            Err(error) => {
                return Err(error);
            },
        };
        let started = clock_now();
        match registrar.register_recursive(dir) {
            Ok(()) => {},
            Err(error) => {
                return Err(error);
            },
        }
        let setup_time = clock_elapsed(&started);
        Ok(FilteredNativeRecursiveWatcher { registrar, receiver, files_filtered, setup_time })
    }

    /// Watches the tree under `dir` by one recursive watch on `dir` and lets
    /// through only the changes that mention one of `files_to_watch`. Of
    /// that list, the filter set keeps the paths that exist as regular files
    /// when the watcher is made, so it holds no more paths than the list.
    /// Fails only with a failure of the notification layer.
    pub fn new_with_filter(dir: &str, files_to_watch: Vec<String>) -> (made: Result<
        FilteredNativeRecursiveWatcher,
        BackendError,
    >)
        ensures
            made matches Ok(watcher) ==> watcher.requests() == recursive_request(dir@)
                && watcher.issued() == watcher.requests() && exists|regular: Seq<bool>|
                regular.len() == files_to_watch.len() && watcher.filter() == #[trigger] kept_paths(
                    path_texts(files_to_watch@),
                    regular,
                ),
            made matches Ok(watcher) ==> watcher.filter().finite() && watcher.filter().len()
                <= files_to_watch.len(),
            made matches Err(error) ==> layer_failure(error),
    {
        let filter = FilterSet::build(&files_to_watch);
        NativeRecursiveWatcher::with_filter_set(dir, filter)
    }

    /// The time the registration took.
    pub fn setup_time(&self) -> (time: std::time::Duration)
        ensures
            time == self.measured(),
    {
        self.setup_time
    }

    /// The consuming end of the event channel, for repeated polling.
    pub fn receiver(&self) -> (end: &std::sync::mpsc::Receiver<Notification>)
        ensures
            *end == self.channel(),
    {
        &self.receiver
    }

    /// Splits the handle into the connection that keeps the watch alive and
    /// the consuming end of the channel.
    pub fn into_parts(self) -> (parts: (
        notify::RecommendedWatcher,
        std::sync::mpsc::Receiver<Notification>,
    ))
        ensures
            parts.0 == self.connection(),
            parts.1 == self.channel(),
    {
        (self.registrar.into_backend(), self.receiver)
    }
}

impl FilteredNativeRecursiveWatcher {
    #[verifier::type_invariant]
    spec fn counted(self) -> bool {
        self.registrar.filter() matches Some(members) && members.finite() && self.files_filtered
            == members.len()
    }

    /// The requests the notification layer accepted for this watcher.
    pub closed spec fn requests(&self) -> Seq<WatchRequest> {
        self.registrar.accepted()
    }

    /// The requests issued to the notification layer for this watcher.
    pub closed spec fn issued(&self) -> Seq<WatchRequest> {
        self.registrar.issued()
    }

    /// The filter set: the paths changes are reported for.
    pub closed spec fn filter(&self) -> Set<Seq<char>> {
        self.registrar.filter().unwrap()
    }

    /// The connection to the notification layer that keeps the watch alive.
    pub closed spec fn connection(&self) -> notify::RecommendedWatcher {
        self.registrar.connection()
    }

    /// The consuming end of the event channel.
    pub closed spec fn channel(&self) -> std::sync::mpsc::Receiver<Notification> {
        self.receiver
    }

    /// The time the registration took.
    pub closed spec fn measured(&self) -> std::time::Duration {
        self.setup_time
    }

    /// How many paths the filter set holds.
    pub fn files_filtered(&self) -> (count: usize)
        ensures
            count == self.filter().len(),
            self.filter().finite(),
    {
        proof {
            use_type_invariant(self);
        }
        self.files_filtered
    }

    /// The time the registration took.
    pub fn setup_time(&self) -> (time: std::time::Duration)
        ensures
            time == self.measured(),
    {
        self.setup_time
    }

    /// The consuming end of the event channel, for repeated polling.
    pub fn receiver(&self) -> (end: &std::sync::mpsc::Receiver<Notification>)
        ensures
            *end == self.channel(),
    {
        &self.receiver
    }

    /// Splits the handle into the connection that keeps the watch alive and
    /// the consuming end of the channel.
    pub fn into_parts(self) -> (parts: (
        notify::RecommendedWatcher,
        std::sync::mpsc::Receiver<Notification>,
    ))
        ensures
            parts.0 == self.connection(),
            parts.1 == self.channel(),
    {
        (self.registrar.into_backend(), self.receiver)
    }
}

} // verus!
