//! The producer side of the event channel: what the notification layer's
//! callback does with each arrival.

use vstd::prelude::*;
use crate::backend::{
    change_read, error_from_backend, event_from_backend, failure_read, send_notification,
};
use crate::event::{change_of, ChangeEvent, Notification};
use crate::filter::{passes_filter, FilterSet};

verus! {

/// Whether a notification is forwarded to the channel: always without a
/// filter; with one, by the filter's rule.
pub open spec fn forwarded(filter: Option<FilterSet>, notification: Notification) -> bool {
    match filter {
        None => true,
        Some(set) => passes_filter(set@, notification),
    }
}

/// What an arrival from the notification layer reads as: a change under
/// its general kind, or a failure, in plain values.
pub open spec fn arrival_read(arrived: Result<notify::Event, notify::Error>) -> Notification {
    match arrived {
        Ok(event) => Ok(change_of(change_read(event))),
        Err(failure) => Err(failure_read(failure)),
    }
}

/// Decides whether `notification` goes into the channel.
pub fn should_forward(filter: &Option<FilterSet>, notification: &Notification) -> (forward: bool)
    ensures
        forward == forwarded(*filter, *notification),
{
    match filter {
        None => true,
        Some(set) => set.passes(notification),
    }
}

/// Queues `notification` on the channel if it is to be forwarded, and says
/// whether it was. Never blocks. A notification that is not forwarded
/// leaves no trace; one that is forwarded to a channel whose receiver is
/// gone is discarded without complaint.
pub fn forward(
    filter: &Option<FilterSet>,
    sender: &std::sync::mpsc::Sender<Notification>,
    notification: Notification,
) -> (queued: bool)
    ensures
        queued == forwarded(*filter, notification),
{
    if should_forward(filter, &notification) {
        send_notification(sender, notification);
        true
    } else {
        false
    }
}

/// Handles one arrival from the notification layer: reads it into plain
/// values and forwards it as [`forward`] says. So without a filter every
/// arrival is queued, and with one every failure is, and every change that
/// mentions a member of the filter set.
pub fn deliver(
    filter: &Option<FilterSet>,
    sender: &std::sync::mpsc::Sender<Notification>,
    arrived: Result<notify::Event, notify::Error>,
) -> (queued: bool)
    ensures
        queued == forwarded(*filter, arrival_read(arrived)),
{
    let notification: Notification = match arrived {
        Ok(event) => Ok(ChangeEvent::from_reported(event_from_backend(event))),
        Err(failure) => Err(error_from_backend(failure)),
    };
    forward(filter, sender, notification)
}

/// A failure of the notification layer is queued whatever the filter.
pub proof fn lemma_failures_always_pass(filter: Option<FilterSet>, failure: notify::Error)
    ensures
        forwarded(filter, arrival_read(Err(failure))),
{
}

} // verus!
