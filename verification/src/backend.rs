//! The operating system's notification facility, the clock and the channel
//! between the facility's callback and the consumer. Nothing in this file is
//! proved: each item states what is taken on trust of code outside the crate.

use vstd::prelude::*;
use crate::event::{
    same_failure, BackendError, BackendErrorKind, Notification, ReportedChange, ReportedKind,
};
use crate::filter::FilterSet;

verus! {

/// `notify::RecommendedWatcher`, the watcher the platform is best served by.
/// Dropping it ends its watches.
#[verifier::external_type_specification]
#[verifier::external_body]
pub struct ExRecommendedWatcher(notify::RecommendedWatcher);

/// `notify::Event`, a change as the facility reports it.
#[verifier::external_type_specification]
#[verifier::external_body]
pub struct ExBackendEvent(notify::Event);

/// `notify::Error`, a failure as the facility reports it.
#[verifier::external_type_specification]
#[verifier::external_body]
pub struct ExBackendFailure(notify::Error);

/// `std::sync::mpsc::Sender`, the producing end of an unbounded channel.
#[verifier::external_type_specification]
#[verifier::external_body]
#[verifier::reject_recursive_types(T)]
pub struct ExSender<T>(std::sync::mpsc::Sender<T>);

/// `std::sync::mpsc::Receiver`, the consuming end of a channel.
#[verifier::external_type_specification]
#[verifier::external_body]
#[verifier::reject_recursive_types(T)]
pub struct ExReceiver<T>(std::sync::mpsc::Receiver<T>);

/// `std::time::Instant`, a reading of the monotonic clock.
#[verifier::external_type_specification]
#[verifier::external_body]
pub struct ExInstant(std::time::Instant);

/// `std::sync::mpsc::channel`: a fresh unbounded channel. Nothing is claimed
/// of the two ends.
#[verifier::external_body]
pub(crate) fn open_channel() -> (ends: (
    std::sync::mpsc::Sender<Notification>,
    std::sync::mpsc::Receiver<Notification>,
))
{
    std::sync::mpsc::channel()
}

/// `std::sync::mpsc::Sender::send`: queues the notification without blocking.
/// When the receiver is gone the notification is discarded and the call
/// still returns.
#[verifier::external_body]
pub(crate) fn send_notification(
    sender: &std::sync::mpsc::Sender<Notification>,
    notification: Notification,
)
{
    let _ = sender.send(notification);
}

/// `notify::Watcher::new` on the recommended watcher, with the default
/// configuration and a handler that passes each arrival to
/// [`crate::channel::deliver`]. Whether a watcher can be had depends on the
/// operating system, so nothing is claimed of the outcome.
#[verifier::external_body]
pub(crate) fn start_backend(
    sender: std::sync::mpsc::Sender<Notification>,
    filter: Option<FilterSet>,
) -> (started: Result<notify::RecommendedWatcher, notify::Error>)
{
    <notify::RecommendedWatcher as notify::Watcher>::new(
        move |arrived: Result<notify::Event, notify::Error>| {
            crate::channel::deliver(&filter, &sender, arrived);
        },
        notify::Config::default(),
    )
}

/// `notify::Watcher::watch`: asks the facility to watch `path`, with its
/// whole subtree when `recursive` is set. Whether the watch is installed
/// depends on what is on disk and on the operating system's limits, so
/// nothing is claimed of the outcome.
#[verifier::external_body]
pub(crate) fn watch_path(
    watcher: &mut notify::RecommendedWatcher,
    path: &str,
    recursive: bool,
) -> (outcome: Result<(), notify::Error>)
{
    let mode = if recursive {
        notify::RecursiveMode::Recursive
    } else {
        notify::RecursiveMode::NonRecursive
    };
    notify::Watcher::watch(watcher, std::path::Path::new(path), mode)
}

/// What a `notify::Event` reads as in plain values.
pub uninterp spec fn change_read(event: notify::Event) -> ReportedChange;

/// What a `notify::Error` reads as in plain values, but for the texts that
/// are made for display, which are not the error's alone to decide.
pub uninterp spec fn failure_read(failure: notify::Error) -> BackendError;

/// Reads a `notify::Event` into plain values: its kind by its outermost
/// variant, one for one, and its paths in order. A path that is not valid
/// Unicode is carried with the invalid parts replaced. The event is opaque
/// here; all that is claimed is that the result depends on the event alone.
#[verifier::external_body]
pub(crate) fn event_from_backend(event: notify::Event) -> (reported: ReportedChange)
    ensures
        reported == change_read(event),
{
    let kind = match event.kind {
        notify::EventKind::Any => ReportedKind::Any,
        notify::EventKind::Access(_) => ReportedKind::Access,
        notify::EventKind::Create(_) => ReportedKind::Create,
        notify::EventKind::Modify(_) => ReportedKind::Modify,
        notify::EventKind::Remove(_) => ReportedKind::Remove,
        notify::EventKind::Other => ReportedKind::Other,
    };
    let paths = event.paths.iter().map(|p| p.to_string_lossy().into_owned()).collect();
    ReportedChange { kind, paths }
}

/// Reads a `notify::Error` into plain values. Its kind by its variant, the
/// message of a generic failure and its paths in order are the error's own
/// fields: they depend on the error alone, and so much is claimed. An
/// operating system failure is carried with the message the system has for
/// it, which follows the system's language, and a refused configuration
/// with its debug text; nothing is claimed of these two texts.
#[verifier::external_body]
pub(crate) fn error_from_backend(failure: notify::Error) -> (error: BackendError)
    ensures
        same_failure(error, failure_read(failure)),
{
    let paths = failure.paths.iter().map(|p| p.to_string_lossy().into_owned()).collect();
    let kind = match failure.kind {
        notify::ErrorKind::Generic(message) => BackendErrorKind::Generic(message),
        notify::ErrorKind::Io(cause) => BackendErrorKind::Io(cause.to_string()),
        notify::ErrorKind::PathNotFound => BackendErrorKind::PathNotFound,
        notify::ErrorKind::WatchNotFound => BackendErrorKind::WatchNotFound,
        notify::ErrorKind::InvalidConfig(config) => BackendErrorKind::InvalidConfig(format!("{:?}", config)),
        notify::ErrorKind::MaxFilesWatch => BackendErrorKind::MaxFilesWatch,
    };
    BackendError { kind, paths }
}

/// `std::path::Path::is_file`: whether the path names an existing regular
/// file at the moment of the call. The answer depends on what is on disk,
/// so nothing is claimed of it.
#[verifier::external_body]
pub(crate) fn is_regular_file(path: &str) -> (regular: bool)
{
    std::path::Path::new(path).is_file()
}

/// `std::time::Instant::now`: the clock's reading at the moment of the call.
#[verifier::external_body]
pub(crate) fn clock_now() -> (reading: std::time::Instant)
{
    std::time::Instant::now()
}

/// `std::time::Instant::elapsed`: the time that has passed since `since`.
#[verifier::external_body]
pub(crate) fn clock_elapsed(since: &std::time::Instant) -> (passed: std::time::Duration)
{
    since.elapsed()
}

} // verus!
