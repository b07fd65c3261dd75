//! Registering watches with the notification layer, one request at a time,
//! and keeping account of the requests issued and of those the layer
//! accepted.

use vstd::prelude::*;
use crate::backend::{error_from_backend, failure_read, start_backend, watch_path};
use crate::event::{path_texts, same_failure, BackendError, Notification};
use crate::filter::FilterSet;

verus! {

/// One request to the notification layer: watch `path`, with its subtree
/// when `recursive` is set.
pub struct WatchRequest {
    pub path: Seq<char>,
    pub recursive: bool,
}

/// One non-recursive request per path, in the order of `paths`.
pub open spec fn individual_requests(paths: Seq<Seq<char>>) -> Seq<WatchRequest> {
    Seq::new(paths.len(), |i: int| WatchRequest { path: paths[i], recursive: false })
}

/// The single recursive request on `root`.
pub open spec fn recursive_request(root: Seq<char>) -> Seq<WatchRequest> {
    seq![WatchRequest { path: root, recursive: true }]
}

/// The members of a filter, if there is one.
pub open spec fn members_of(filter: Option<FilterSet>) -> Option<Set<Seq<char>>> {
    match filter {
        Some(set) => Some(set@),
        None => None,
    }
}

/// Whether `error` is a failure of the notification layer, read into plain
/// values: the only kind of error that registering gives. The texts made
/// for display are left open.
pub open spec fn layer_failure(error: BackendError) -> bool {
    exists|failure: notify::Error| same_failure(error, #[trigger] failure_read(failure))
}

/// Whether `read` is what the answer `outcome` of the notification layer
/// reads as: the layer's value where it succeeded; where it failed, its
/// failure in plain values, the texts made for display left open.
pub open spec fn reads_as<T>(
    outcome: Result<T, notify::Error>,
    read: Result<T, BackendError>,
) -> bool {
    match (outcome, read) {
        (Ok(given), Ok(value)) => value == given,
        (Err(failure), Err(error)) => same_failure(error, failure_read(failure)),
        _ => false,
    }
}

/// Reads an answer of the notification layer: success stays success, with
/// its value; a failure stays a failure, read into plain values.
pub fn read_outcome<T>(outcome: Result<T, notify::Error>) -> (read: Result<T, BackendError>)
    ensures
        reads_as(outcome, read),
        read matches Err(error) ==> layer_failure(error),
{
    match outcome {
        Ok(value) => Ok(value),
        Err(failure) => Err(error_from_backend(failure)),
    }
}

/// A live connection to the notification layer together with the account of
/// the requests issued over it and of those the layer accepted. Releasing
/// it ends every watch.
pub struct WatchRegistrar {
    backend: notify::RecommendedWatcher,
    issued: Ghost<Seq<WatchRequest>>,
    accepted: Ghost<Seq<WatchRequest>>,
    sieve: Ghost<Option<Set<Seq<char>>>>,
}

impl WatchRegistrar {
    /// The requests issued to the layer, accepted or refused, oldest first.
    pub closed spec fn issued(&self) -> Seq<WatchRequest> {
        self.issued@
    }

    /// The requests the layer has accepted, oldest first.
    pub closed spec fn accepted(&self) -> Seq<WatchRequest> {
        self.accepted@
    }

    /// The filter set by which the connection's arrivals are forwarded, or
    /// `None` where every arrival is.
    pub closed spec fn filter(&self) -> Option<Set<Seq<char>>> {
        self.sieve@
    }

    /// The connection to the layer that this registrar owns.
    pub closed spec fn connection(&self) -> notify::RecommendedWatcher {
        self.backend
    }

    /// Connects to the notification layer. Every arrival is handled by
    /// [`crate::channel::deliver`] with `filter` and `sender`. A fresh
    /// registrar has issued nothing. The only failure is the layer's own.
    pub fn start(sender: std::sync::mpsc::Sender<Notification>, filter: Option<FilterSet>) -> (started:
        Result<WatchRegistrar, BackendError>)
        ensures
            started matches Ok(registrar) ==> registrar.issued() == Seq::<WatchRequest>::empty()
                && registrar.accepted() == Seq::<WatchRequest>::empty() && registrar.filter()
                == members_of(filter),
            started matches Err(error) ==> layer_failure(error),
    {
        let ghost sieve = members_of(filter);
        match read_outcome(start_backend(sender, filter)) {
            Ok(backend) => Ok(
                WatchRegistrar {
                    backend,
                    issued: Ghost(Seq::empty()),
                    accepted: Ghost(Seq::empty()),
                    sieve: Ghost(sieve),
                },
            ),
            Err(error) => Err(error),
        }
    }

    /// Issues one request, whatever the layer answers. The account of
    /// accepted requests grows by it exactly when the layer accepts it; a
    /// refusal comes back as the layer's failure.
    pub fn register(&mut self, path: &str, recursive: bool) -> (outcome: Result<(), BackendError>)
        ensures
            final(self).issued() == old(self).issued().push(WatchRequest { path: path@, recursive }),
            outcome is Ok ==> final(self).accepted() == old(self).accepted().push(
                WatchRequest { path: path@, recursive },
            ),
            outcome matches Err(error) ==> final(self).accepted() == old(self).accepted()
                && layer_failure(error),
            final(self).filter() == old(self).filter(),
    {
        let answer = read_outcome(watch_path(&mut self.backend, path, recursive));
        proof {
            self.issued@ = self.issued@.push(WatchRequest { path: path@, recursive });
        }
        match answer {
            Ok(()) => {
                proof {
                    self.accepted@ = self.accepted@.push(WatchRequest { path: path@, recursive });
                }
                Ok(())
            },
            Err(error) => Err(error),
        }
    }

    /// Issues one non-recursive request per path, in the order of `paths`,
    /// and stops at the first that the layer refuses: no request is issued
    /// after it, and its failure is what comes back. The requests accepted
    /// before a refusal stay in place.
    pub fn register_individual(&mut self, paths: &Vec<String>) -> (outcome: Result<(), BackendError>)
        ensures
            outcome is Ok ==> final(self).accepted() == old(self).accepted() + individual_requests(
                path_texts(paths@),
            ) && final(self).issued() == old(self).issued() + individual_requests(
                path_texts(paths@),
            ),
            outcome matches Err(error) ==> layer_failure(error) && exists|refused: int|
                0 <= refused < paths.len() && final(self).accepted() == old(self).accepted()
                    + #[trigger] individual_requests(path_texts(paths@).take(refused))
                    && final(self).issued() == old(self).issued() + individual_requests(
                    path_texts(paths@).take(refused + 1),
                ),
            final(self).filter() == old(self).filter(),
    {
        let mut i: usize = 0;
        while i < paths.len()
            invariant
                0 <= i <= paths.len(),
                self.accepted() == old(self).accepted() + individual_requests(
                    path_texts(paths@).take(i as int),
                ),
                self.issued() == old(self).issued() + individual_requests(
                    path_texts(paths@).take(i as int),
                ),
                self.filter() == old(self).filter(),
            decreases paths.len() - i,
        {
            let answer = self.register(paths[i].as_str(), false);
            assert(individual_requests(path_texts(paths@).take(i + 1)) =~= individual_requests(
                path_texts(paths@).take(i as int),
            ).push(WatchRequest { path: paths[i as int]@, recursive: false }));
            match answer {
                Ok(()) => {},
                Err(error) => {
                    return Err(error);
                },
            }
            i = i + 1;
        }
        assert(path_texts(paths@).take(i as int) =~= path_texts(paths@));
        Ok(())
    }

    /// Issues the single recursive request on `root`.
    pub fn register_recursive(&mut self, root: &str) -> (outcome: Result<(), BackendError>)
        ensures
            final(self).issued() == old(self).issued() + recursive_request(root@),
            outcome is Ok ==> final(self).accepted() == old(self).accepted() + recursive_request(
                root@,
            ),
            outcome matches Err(error) ==> final(self).accepted() == old(self).accepted()
                && layer_failure(error),
            final(self).filter() == old(self).filter(),
    {
        let outcome = self.register(root, true);
        assert(old(self).accepted().push(WatchRequest { path: root@, recursive: true }) =~= old(
            self,
        ).accepted() + recursive_request(root@));
        assert(old(self).issued().push(WatchRequest { path: root@, recursive: true }) =~= old(
            self,
        ).issued() + recursive_request(root@));
        outcome
    }

    /// Gives up the account and hands out the connection itself.
    pub fn into_backend(self) -> (backend: notify::RecommendedWatcher)
        ensures
            backend == self.connection(),
    {
        self.backend
    }
}

} // verus!
