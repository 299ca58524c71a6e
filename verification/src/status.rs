//! Reduces the status events of a pull request to its most recent status,
//! optionally counting only the events of one reporting account.

use vstd::prelude::*;
use crate::model::{text_of, StatusEvent, StatusEventView};

verus! {

/// Tells whether an event counts: any event where no reporter is asked for,
/// else only the events of that reporter.
pub open spec fn qualifies(event: StatusEventView, reporter: Option<Seq<char>>) -> bool {
    match reporter {
        Some(login) => event.reporter == login,
        None => true,
    }
}

/// Tells whether position `i` holds the most recent of the events that count:
/// no counting event is later, and every counting event before it is
/// strictly earlier, so that of several events at the latest time the first
/// in the list is the one.
pub open spec fn is_latest(events: Seq<StatusEvent>, reporter: Option<Seq<char>>, i: int) -> bool {
    &&& 0 <= i < events.len()
    &&& qualifies(events[i]@, reporter)
    &&& forall|j: int|
        0 <= j < events.len() && qualifies(#[trigger] events[j]@, reporter) ==> events[j]@.created_at
            <= events[i]@.created_at
    &&& forall|j: int|
        0 <= j < i && qualifies(#[trigger] events[j]@, reporter) ==> events[j]@.created_at
            < events[i]@.created_at
}

/// Tells whether no event of the list counts.
pub open spec fn none_qualifies(events: Seq<StatusEvent>, reporter: Option<Seq<char>>) -> bool {
    forall|j: int| 0 <= j < events.len() ==> !qualifies(#[trigger] events[j]@, reporter)
}

/// At most one position holds the most recent counting event.
pub proof fn lemma_latest_is_unique(
    events: Seq<StatusEvent>,
    reporter: Option<Seq<char>>,
    i: int,
    j: int,
)
    requires
        is_latest(events, reporter, i),
        is_latest(events, reporter, j),
    ensures
        i == j,
{
    if i < j {
        assert(events[i]@.created_at < events[j]@.created_at);
        assert(events[j]@.created_at <= events[i]@.created_at);
    } else if j < i {
        assert(events[j]@.created_at < events[i]@.created_at);
        assert(events[i]@.created_at <= events[j]@.created_at);
    }
}

/// Tells whether `event` counts under the optional reporter filter.
pub fn event_qualifies(event: &StatusEvent, reporter: &Option<String>) -> (b: bool)
    ensures
        b == qualifies(event@, text_of(*reporter)),
{
    match reporter {
        Some(login) => *login == event.reporter,
        None => true,
    }
}

/// One step of the reduction: the position that is the most recent among
/// the events seen so far, given the one among those before `i`.
fn status_fold(most_recent: Option<usize>, events: &Vec<StatusEvent>, i: usize, reporter: &Option<String>) -> (r: Option<usize>)
    requires
        i < events.len(),
        match most_recent {
            Some(b) => is_latest(events@.take(i as int), text_of(*reporter), b as int),
            None => none_qualifies(events@.take(i as int), text_of(*reporter)),
        },
    ensures
        match r {
            Some(b) => is_latest(events@.take(i + 1), text_of(*reporter), b as int),
            None => none_qualifies(events@.take(i + 1), text_of(*reporter)),
        },
{
    let ghost before = events@.take(i as int);
    let ghost upto = events@.take(i + 1);
    assert(forall|j: int| 0 <= j < i ==> before[j] == upto[j]);
    assert(upto[i as int] == events@[i as int]);
    if !event_qualifies(&events[i], reporter) {
        return most_recent;
    }
    match most_recent {
        None => Some(i),
        Some(b) => {
            assert(before[b as int] == upto[b as int]);
            if events[i].created_at > events[b].created_at {
                Some(i)
            } else {
                Some(b)
            }
        },
    }
}

/// The position of the most recent event that counts, or `None` where no
/// event counts. Of several events at the latest time the first wins.
pub fn latest_index(events: &Vec<StatusEvent>, reporter: &Option<String>) -> (r: Option<usize>)
    ensures
        match r {
            Some(i) => is_latest(events@, text_of(*reporter), i as int),
            None => none_qualifies(events@, text_of(*reporter)),
        },
{
    let mut best: Option<usize> = None;
    let mut i: usize = 0;
    while i < events.len()
        invariant
            i <= events.len(),
            match best {
                Some(b) => is_latest(events@.take(i as int), text_of(*reporter), b as int),
                None => none_qualifies(events@.take(i as int), text_of(*reporter)),
            },
        decreases events.len() - i,
    {
        best = status_fold(best, events, i, reporter);
        i = i + 1;
    }
    assert(events@.take(events.len() as int) == events@);
    best
}

/// The state of the most recent event that counts, or `None` where no event
/// counts.
pub fn latest_status(events: &Vec<StatusEvent>, reporter: &Option<String>) -> (r: Option<String>)
    ensures
        match r {
            Some(state) => exists|i: int|
                is_latest(events@, text_of(*reporter), i) && state@ == events@[i]@.state,
            None => none_qualifies(events@, text_of(*reporter)),
        },
{
    match latest_index(events, reporter) {
        Some(i) => Some(events[i].state.clone()),
        None => None,
    }
}

} // verus!
