//! The consumer side of the event channel: what a consumer makes of each
//! timeout-bounded pull, and the count it keeps of the changes it saw.

use vstd::prelude::*;
use crate::event::Notification;

verus! {

/// What one timeout-bounded pull on the channel gave.
#[derive(Debug, PartialEq, Eq)]
pub enum Pull {
    /// A notification arrived in time.
    Arrived(Notification),
    /// Nothing arrived in time; the channel is still open.
    TimedOut,
    /// The producer side is gone and the channel is drained: end of stream.
    Closed,
}

/// What the consumer does after a pull.
#[derive(Debug, Clone, Copy, PartialEq, Eq, Structural)]
pub enum Reaction {
    /// Show the change; it is number `number` of those seen.
    Show { number: usize },
    /// Count the change without showing it.
    Skip,
    /// Report the failure of the notification layer and go on.
    Report,
    /// Pull again.
    Retry,
    /// Stop pulling: nothing more will come.
    Stop,
}

/// What is left to say when the consumer has finished.
#[derive(Debug, Clone, Copy, PartialEq, Eq, Structural)]
pub enum Closing {
    /// No change was seen.
    Nothing,
    /// Every change seen was shown.
    AllShown,
    /// `more` changes were seen beyond those shown.
    More { more: usize },
}

/// The reaction to `pull` of a consumer that has seen `seen` changes and
/// shows the first `shown` of them.
pub open spec fn reaction_to(seen: nat, shown: nat, pull: Pull) -> Reaction {
    match pull {
        Pull::Arrived(Ok(_)) => if seen + 1 <= shown {
            Reaction::Show { number: (seen + 1) as usize }
        } else {
            Reaction::Skip
        },
        Pull::Arrived(Err(_)) => Reaction::Report,
        Pull::TimedOut => Reaction::Retry,
        Pull::Closed => Reaction::Stop,
    }
}

/// How many changes a consumer has seen after `pull` that had seen `seen`
/// before: one more for a change, as many for anything else.
pub open spec fn seen_after(seen: nat, pull: Pull) -> nat {
    match pull {
        Pull::Arrived(Ok(_)) => seen + 1,
        _ => seen,
    }
}

/// The closing remark of a consumer that has seen `seen` changes and shown
/// the first `shown` of them.
pub open spec fn closing_of(seen: nat, shown: nat) -> Closing {
    if seen > shown {
        Closing::More { more: (seen - shown) as usize }
    } else if seen == 0 {
        Closing::Nothing
    } else {
        Closing::AllShown
    }
}

/// The count a consumer keeps: how many changes it has seen, and how many
/// of the first it shows.
pub struct EventTally {
    seen: usize,
    shown: usize,
}

impl EventTally {
    /// How many changes have been seen.
    pub closed spec fn seen(&self) -> nat {
        self.seen as nat
    }

    /// How many of the first changes are shown.
    pub closed spec fn shown(&self) -> nat {
        self.shown as nat
    }

    /// A tally that has seen nothing and shows the first `shown` changes.
    pub fn new(shown: usize) -> (tally: EventTally)
        ensures
            tally.seen() == 0,
            tally.shown() == shown,
    {
        EventTally { seen: 0, shown }
    }

    /// How many changes have been seen.
    pub fn event_count(&self) -> (count: usize)
        ensures
            count == self.seen(),
    {
        self.seen
    }

    /// Takes note of one pull and says what to do next. Only a change
    /// counts; a failure is reported and the consumer goes on; a timeout
    /// means pulling again; the end of the stream means stopping, and is no
    /// failure.
    pub fn record(&mut self, pull: &Pull) -> (reaction: Reaction)
        requires
            old(self).seen() < usize::MAX,
        ensures
            reaction == reaction_to(old(self).seen(), old(self).shown(), *pull),
            final(self).seen() == seen_after(old(self).seen(), *pull),
            final(self).shown() == old(self).shown(),
    {
        match pull {
            Pull::Arrived(Ok(_)) => {
                self.seen = self.seen + 1;
                if self.seen <= self.shown {
                    Reaction::Show { number: self.seen }
                } else {
                    Reaction::Skip
                }
            },
            Pull::Arrived(Err(_)) => Reaction::Report,
            Pull::TimedOut => Reaction::Retry,
            Pull::Closed => Reaction::Stop,
        }
    }

    /// What is left to say at the end: how many changes went unshown, or
    /// that there were none at all.
    pub fn closing(&self) -> (closing: Closing)
        ensures
            closing == closing_of(self.seen(), self.shown()),
    {
        if self.seen > self.shown {
            Closing::More { more: self.seen - self.shown }
        } else if self.seen == 0 {
            Closing::Nothing
        } else {
            Closing::AllShown
        }
    }
}

} // verus!
