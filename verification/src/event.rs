//! Change notifications as plain values: what kind of change, which paths,
//! or which failure of the notification layer.

use vstd::prelude::*;

verus! {

/// The general kind of a change.
#[derive(Debug, Clone, Copy, PartialEq, Eq, Structural)]
pub enum ChangeKind {
    /// A file or directory came into being.
    Create,
    /// Content, name or metadata changed.
    Modify,
    /// A file or directory went away.
    Remove,
    /// Anything else, such as an access or an event about the watch itself.
    Other,
}

/// The kind of a change as the notification layer names it, before any
/// folding.
#[derive(Debug, Clone, Copy, PartialEq, Eq, Structural)]
pub enum ReportedKind {
    /// The layer does not know more than that something happened.
    Any,
    /// A file was opened, read, executed or closed.
    Access,
    /// A file or directory came into being.
    Create,
    /// Content, name or metadata changed.
    Modify,
    /// A file or directory went away.
    Remove,
    /// An event about the watch itself, or of no other kind.
    Other,
}

/// A change as the notification layer gave it: its kind as the layer names
/// it, and its paths in order.
#[derive(Debug, PartialEq, Eq)]
pub struct ReportedChange {
    /// What happened, in the layer's terms.
    pub kind: ReportedKind,
    /// The paths the change is about, in the order the layer gave them.
    pub paths: Vec<String>,
}

/// The general kind that a kind of the layer falls under: creation,
/// modification and removal keep their kind, everything else is `Other`.
pub open spec fn general_kind(kind: ReportedKind) -> ChangeKind {
    match kind {
        ReportedKind::Create => ChangeKind::Create,
        ReportedKind::Modify => ChangeKind::Modify,
        ReportedKind::Remove => ChangeKind::Remove,
        ReportedKind::Any => ChangeKind::Other,
        ReportedKind::Access => ChangeKind::Other,
        ReportedKind::Other => ChangeKind::Other,
    }
}

/// The change that a change of the layer stands for: the same paths, under
/// the general kind.
pub open spec fn change_of(reported: ReportedChange) -> ChangeEvent {
    ChangeEvent { kind: general_kind(reported.kind), paths: reported.paths }
}

impl ReportedKind {
    /// The general kind this kind falls under.
    pub fn general(self) -> (kind: ChangeKind)
        ensures
            kind == general_kind(self),
    {
        match self {
            ReportedKind::Create => ChangeKind::Create,
            ReportedKind::Modify => ChangeKind::Modify,
            ReportedKind::Remove => ChangeKind::Remove,
            ReportedKind::Any => ChangeKind::Other,
            ReportedKind::Access => ChangeKind::Other,
            ReportedKind::Other => ChangeKind::Other,
        }
    }
}

/// One change reported by the notification layer.
#[derive(Debug, Clone, PartialEq, Eq)]
pub struct ChangeEvent {
    /// What happened.
    pub kind: ChangeKind,
    /// The paths the change is about, in the order the layer gave them.
    pub paths: Vec<String>,
}

/// What went wrong in the notification layer.
#[derive(Debug, Clone, PartialEq, Eq)]
pub enum BackendErrorKind {
    /// A failure described only by a message.
    Generic(String),
    /// A failure of an operating system call, with the message the system
    /// has for it, in the system's language.
    Io(String),
    /// A path does not exist.
    PathNotFound,
    /// A watch to remove does not exist.
    WatchNotFound,
    /// A configuration value was not accepted; the text shows the
    /// configuration.
    InvalidConfig(String),
    /// The limit on the number of watches is reached.
    MaxFilesWatch,
}

/// A failure of the notification layer, at registration or during delivery.
#[derive(Debug, Clone, PartialEq, Eq)]
pub struct BackendError {
    /// What went wrong.
    pub kind: BackendErrorKind,
    /// The paths the failure is about, if any.
    pub paths: Vec<String>,
}

/// What travels over the channel: a change, or a failure of the layer.
pub type Notification = Result<ChangeEvent, BackendError>;

/// The texts of a list of paths, in order.
pub open spec fn path_texts(paths: Seq<String>) -> Seq<Seq<char>> {
    Seq::new(paths.len(), |i: int| paths[i]@)
}

impl ChangeEvent {
    /// The texts of the paths this change is about, in order.
    pub open spec fn texts(&self) -> Seq<Seq<char>> {
        path_texts(self.paths@)
    }

    /// The change that `reported` stands for: the same paths, under the
    /// general kind.
    pub fn from_reported(reported: ReportedChange) -> (change: ChangeEvent)
        ensures
            change == change_of(reported),
    {
        ChangeEvent { kind: reported.kind.general(), paths: reported.paths }
    }
}

/// Whether two kinds of failure are the same but for the texts that are
/// made for display: the same variant, and where the variant holds a
/// message of the layer, the same message. The message of the system and
/// the text that shows a configuration are left open.
pub open spec fn same_kind(one: BackendErrorKind, other: BackendErrorKind) -> bool {
    match (one, other) {
        (BackendErrorKind::Generic(a), BackendErrorKind::Generic(b)) => a@ == b@,
        (BackendErrorKind::Io(_), BackendErrorKind::Io(_)) => true,
        (BackendErrorKind::PathNotFound, BackendErrorKind::PathNotFound) => true,
        (BackendErrorKind::WatchNotFound, BackendErrorKind::WatchNotFound) => true,
        (BackendErrorKind::InvalidConfig(_), BackendErrorKind::InvalidConfig(_)) => true,
        (BackendErrorKind::MaxFilesWatch, BackendErrorKind::MaxFilesWatch) => true,
        _ => false,
    }
}

/// Whether two failures are the same but for the texts that are made for
/// display: the same kind in the sense of [`same_kind`], about the same
/// paths.
pub open spec fn same_failure(one: BackendError, other: BackendError) -> bool {
    same_kind(one.kind, other.kind) && path_texts(one.paths@) == path_texts(other.paths@)
}

} // verus!
