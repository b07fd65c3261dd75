use recursive_file_watcher::consume::{Closing, EventTally, Pull, Reaction};
use recursive_file_watcher::event::{BackendError, BackendErrorKind, ChangeEvent, ChangeKind};

fn change() -> Pull {
    Pull::Arrived(Ok(ChangeEvent { kind: ChangeKind::Modify, paths: vec!["/t/a".to_string()] }))
}

fn failure() -> Pull {
    Pull::Arrived(Err(BackendError { kind: BackendErrorKind::WatchNotFound, paths: Vec::new() }))
}

#[test]
fn a_fresh_tally_has_seen_nothing() {
    let tally = EventTally::new(5);
    assert_eq!(tally.event_count(), 0);
    assert_eq!(tally.closing(), Closing::Nothing);
}

#[test]
fn the_first_changes_are_shown_and_numbered_from_one() {
    let mut tally = EventTally::new(2);
    assert_eq!(tally.record(&change()), Reaction::Show { number: 1 });
    assert_eq!(tally.record(&change()), Reaction::Show { number: 2 });
    assert_eq!(tally.record(&change()), Reaction::Skip);
    assert_eq!(tally.record(&change()), Reaction::Skip);
    assert_eq!(tally.event_count(), 4);
    assert_eq!(tally.closing(), Closing::More { more: 2 });
}

#[test]
fn only_changes_count() {
    let mut tally = EventTally::new(5);
    assert_eq!(tally.record(&failure()), Reaction::Report);
    assert_eq!(tally.record(&Pull::TimedOut), Reaction::Retry);
    assert_eq!(tally.event_count(), 0);
    assert_eq!(tally.record(&change()), Reaction::Show { number: 1 });
    assert_eq!(tally.record(&failure()), Reaction::Report);
    assert_eq!(tally.event_count(), 1);
    assert_eq!(tally.closing(), Closing::AllShown);
}

#[test]
fn the_end_of_the_stream_stops_the_consumer_and_is_no_failure() {
    let mut tally = EventTally::new(5);
    assert_eq!(tally.record(&change()), Reaction::Show { number: 1 });
    assert_eq!(tally.record(&Pull::Closed), Reaction::Stop);
    assert_eq!(tally.event_count(), 1);
    assert_eq!(tally.closing(), Closing::AllShown);
}

#[test]
fn silence_within_the_timeout_asks_for_another_pull() {
    let mut tally = EventTally::new(5);
    for _ in 0..10 {
        assert_eq!(tally.record(&Pull::TimedOut), Reaction::Retry);
    }
    assert_eq!(tally.closing(), Closing::Nothing);
}

#[test]
fn exactly_as_many_as_are_shown_leaves_nothing_over() {
    let mut tally = EventTally::new(5);
    for number in 1..=5 {
        assert_eq!(tally.record(&change()), Reaction::Show { number });
    }
    assert_eq!(tally.closing(), Closing::AllShown);
    assert_eq!(tally.record(&change()), Reaction::Skip);
    assert_eq!(tally.closing(), Closing::More { more: 1 });
}

#[test]
fn a_tally_that_shows_nothing_still_counts() {
    let mut tally = EventTally::new(0);
    assert_eq!(tally.record(&change()), Reaction::Skip);
    assert_eq!(tally.closing(), Closing::More { more: 1 });
}
