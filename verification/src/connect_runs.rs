//! What holds of every connect completion.
//!
//! A completion is a sequence of events that the state machine takes from
//! its start. The lemmas here read the outcome of a completion off its
//! events, and the events off its outcome.

use crate::connect::{Connect, ConnectEvent};
use vstd::prelude::*;

verus! {

/// Whether `events` are events of one completion, in order from its start.
pub open spec fn is_completion<S, E>(events: Seq<ConnectEvent<S, E>>) -> bool {
    Connect::<S, E>::Registering.takes(events)
}

/// The state of a completion after `events`.
pub open spec fn completion_state<S, E>(events: Seq<ConnectEvent<S, E>>) -> Connect<S, E> {
    Connect::<S, E>::Registering.after(events)
}

/// The events of a completion, by the state that the completion is in.
spec fn events_fit<S, E>(events: Seq<ConnectEvent<S, E>>) -> bool {
    let n = events.len();
    match completion_state(events) {
        Connect::Registering => n == 0,
        Connect::Connecting { stream } => {
            &&& n == 1
            &&& events[0] == ConnectEvent::<S, E>::Registered(Ok(stream))
        },
        Connect::Checking { stream } => {
            &&& n == 2
            &&& events[0] == ConnectEvent::<S, E>::Registered(Ok(stream))
            &&& events[1] == ConnectEvent::<S, E>::Writable(Ok(()))
        },
        Connect::Done(Ok(stream)) => {
            &&& n == 3
            &&& events[0] == ConnectEvent::<S, E>::Registered(Ok(stream))
            &&& events[1] == ConnectEvent::<S, E>::Writable(Ok(()))
            &&& events[2] == ConnectEvent::<S, E>::Checked(Ok(None))
        },
        Connect::Done(Err(err)) => {
            ||| n == 1 && events[0] == ConnectEvent::<S, E>::Registered(Err(err))
            ||| n == 2 && events[1] == ConnectEvent::<S, E>::Writable(Err(err))
            ||| n == 3 && events[2] == ConnectEvent::<S, E>::Checked(Ok(Some(err)))
            ||| n == 3 && events[2] == ConnectEvent::<S, E>::Checked(Err(err))
        },
    }
}

proof fn lemma_events_fit<S, E>(events: Seq<ConnectEvent<S, E>>)
    requires
        is_completion(events),
    ensures
        events_fit(events),
    decreases events.len(),
{
    if events.len() > 0 {
        lemma_events_fit(events.drop_last());
        match events.last() {
            ConnectEvent::Writable(Ok(nothing)) => {
                assert(nothing == ());
            },
            _ => {},
        }
    }
}

/// A completion can be cut anywhere: what came before the cut is a
/// completion too, and the event at the cut answers the state that it led
/// to.
pub proof fn lemma_completion_can_be_cut<S, E>(events: Seq<ConnectEvent<S, E>>, i: int)
    requires
        is_completion(events),
        0 <= i <= events.len(),
    ensures
        is_completion(events.take(i)),
        i < events.len() ==> completion_state(events.take(i)).expects(events[i]),
        i < events.len() ==> completion_state(events.take(i + 1)) == completion_state(
            events.take(i),
        ).next(events[i]),
    decreases events.len(),
{
    if i == events.len() {
        assert(events.take(i) =~= events);
    } else {
        let shorter = events.drop_last();
        assert(shorter.take(i) =~= events.take(i));
        if i + 1 == events.len() {
            assert(events.take(i) =~= shorter);
            assert(events.take(i + 1) =~= events);
        } else {
            assert(shorter.take(i + 1) =~= events.take(i + 1));
            lemma_completion_can_be_cut(shorter, i);
        }
    }
}

/// A stream is handed out by one completion only: the socket was
/// registered as that stream, the wait for writability ended well, and the
/// socket kept no error from its connect attempt.
pub proof fn lemma_stream_means_no_kept_error<S, E>(events: Seq<ConnectEvent<S, E>>, stream: S)
    requires
        is_completion(events),
    ensures
        completion_state(events) == Connect::<S, E>::Done(Ok(stream)) <==> events
            == seq![
            ConnectEvent::<S, E>::Registered(Ok(stream)),
            ConnectEvent::<S, E>::Writable(Ok(())),
            ConnectEvent::<S, E>::Checked(Ok(None)),
        ],
{
    let whole = seq![
        ConnectEvent::<S, E>::Registered(Ok(stream)),
        ConnectEvent::<S, E>::Writable(Ok(())),
        ConnectEvent::<S, E>::Checked(Ok(None)),
    ];
    lemma_events_fit(events);
    if completion_state(events) == Connect::<S, E>::Done(Ok(stream)) {
        assert(events =~= whole);
    }
    if events == whole {
        lemma_completion_can_be_cut(events, 0);
        lemma_completion_can_be_cut(events, 1);
        lemma_completion_can_be_cut(events, 2);
        assert(events.take(0) =~= Seq::empty());
        assert(events.take(3) =~= events);
    }
}

/// A socket that keeps an error from its connect attempt never becomes a
/// stream: the answer that names the error is the last event, and the
/// completion ends with that error.
pub proof fn lemma_kept_error_fails<S, E>(events: Seq<ConnectEvent<S, E>>, i: int, err: E)
    requires
        is_completion(events),
        0 <= i < events.len(),
        events[i] == ConnectEvent::<S, E>::Checked(Ok(Some(err))),
    ensures
        i + 1 == events.len(),
        completion_state(events) == Connect::<S, E>::Done(Err(err)),
{
    lemma_completion_can_be_cut(events, i);
    lemma_events_fit(events.take(i));
    lemma_events_fit(events);
    assert(events.take(events.len() as int) =~= events);
    if i + 1 < events.len() {
        lemma_completion_can_be_cut(events, i + 1);
    }
}

/// A completion that ends with an error ends with the error of its last
/// event, as it was reported: by the registration, by the wait for
/// writability, by the socket as the error it keeps, or by the query for
/// that error.
pub proof fn lemma_failure_is_verbatim<S, E>(events: Seq<ConnectEvent<S, E>>, err: E)
    requires
        is_completion(events),
        completion_state(events) == Connect::<S, E>::Done(Err(err)),
    ensures
        events.len() >= 1,
        ({
            ||| events.last() == ConnectEvent::<S, E>::Registered(Err(err))
            ||| events.last() == ConnectEvent::<S, E>::Writable(Err(err))
            ||| events.last() == ConnectEvent::<S, E>::Checked(Ok(Some(err)))
            ||| events.last() == ConnectEvent::<S, E>::Checked(Err(err))
        }),
{
    lemma_events_fit(events);
}

/// A completion has one outcome, and waits for the reactor once: it takes
/// three events at most, is over after the third, is not over before its
/// last event, and only its second event is the end of a wait.
pub proof fn lemma_one_outcome<S, E>(events: Seq<ConnectEvent<S, E>>, i: int)
    requires
        is_completion(events),
        0 <= i < events.len(),
    ensures
        events.len() <= 3,
        events.len() == 3 ==> completion_state(events) is Done,
        !(completion_state(events.take(i)) is Done),
        events[i] is Registered <==> i == 0,
        events[i] is Writable <==> i == 1,
        events[i] is Checked <==> i == 2,
{
    lemma_events_fit(events);
    lemma_completion_can_be_cut(events, i);
    lemma_events_fit(events.take(i));
}

} // verus!
