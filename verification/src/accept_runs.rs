//! What holds of every poll step of the accept loop.
//!
//! A poll step is a sequence of events that the loop takes from its start.
//! The lemmas here read the outcome of a step off its events, and the events
//! off its outcome.

use crate::accept::{AcceptAttempt, AcceptEvent, AcceptLoop, AcceptPoll, Incoming, Readiness};
use vstd::prelude::*;

verus! {

/// Whether `events` are events of one poll step, in order from its start.
pub open spec fn is_step<S, A, E>(events: Seq<AcceptEvent<S, A, E>>) -> bool {
    AcceptLoop::<S, A, E>::Polling.takes(events)
}

/// The state of a poll step after `events`.
pub open spec fn step_state<S, A, E>(events: Seq<AcceptEvent<S, A, E>>) -> AcceptLoop<S, A, E> {
    AcceptLoop::<S, A, E>::Polling.after(events)
}

/// The last events of a poll step, by the state that the step is in.
spec fn tail_fits<S, A, E>(events: Seq<AcceptEvent<S, A, E>>) -> bool {
    let n = events.len() as int;
    match step_state(events) {
        AcceptLoop::Polling => {
            n == 0 || events[n - 1] == AcceptEvent::<S, A, E>::Attempted(AcceptAttempt::NoConnection)
        },
        AcceptLoop::Accepting => {
            n >= 1 && events[n - 1] == AcceptEvent::<S, A, E>::Polled(Readiness::Ready)
        },
        AcceptLoop::Resolving { stream, remote_addr } => {
            &&& n >= 2
            &&& events[n - 2] == AcceptEvent::<S, A, E>::Polled(Readiness::Ready)
            &&& events[n - 1] == AcceptEvent::<S, A, E>::Attempted(
                AcceptAttempt::Connection { stream, remote_addr },
            )
        },
        AcceptLoop::Done(AcceptPoll::Pending) => {
            n >= 1 && events[n - 1] == AcceptEvent::<S, A, E>::Polled(Readiness::NotReady)
        },
        AcceptLoop::Done(AcceptPoll::Ready(Err(err))) => {
            &&& n >= 1
            &&& {
                ||| events[n - 1] == AcceptEvent::<S, A, E>::Polled(Readiness::Failed(err))
                ||| events[n - 1] == AcceptEvent::<S, A, E>::Attempted(AcceptAttempt::Failed(err))
                ||| events[n - 1] == AcceptEvent::<S, A, E>::Resolved(Err(err))
            }
        },
        AcceptLoop::Done(AcceptPoll::Ready(Ok(incoming))) => {
            &&& n >= 3
            &&& events[n - 3] == AcceptEvent::<S, A, E>::Polled(Readiness::Ready)
            &&& events[n - 2] == AcceptEvent::<S, A, E>::Attempted(
                AcceptAttempt::Connection {
                    stream: incoming.stream,
                    remote_addr: incoming.remote_addr,
                },
            )
            &&& events[n - 1] == AcceptEvent::<S, A, E>::Resolved(Ok(incoming.local_addr))
        },
    }
}

proof fn lemma_tail_fits<S, A, E>(events: Seq<AcceptEvent<S, A, E>>)
    requires
        is_step(events),
    ensures
        tail_fits(events),
    decreases events.len(),
{
    if events.len() > 0 {
        lemma_tail_fits(events.drop_last());
    }
}

/// A step can be cut anywhere: what came before the cut is a step too, and
/// the event at the cut answers the state that it led to.
pub proof fn lemma_step_can_be_cut<S, A, E>(events: Seq<AcceptEvent<S, A, E>>, i: int)
    requires
        is_step(events),
        0 <= i <= events.len(),
    ensures
        is_step(events.take(i)),
        i < events.len() ==> step_state(events.take(i)).expects(events[i]),
        i < events.len() ==> step_state(events.take(i + 1)) == step_state(events.take(i)).next(
            events[i],
        ),
    decreases events.len(),
{
    if i == events.len() {
        assert(events.take(i) =~= events);
    } else {
        let shorter = events.drop_last();
        assert(shorter.take(i) =~= events.take(i));
        if i + 1 == events.len() {
            assert(events.take(i) =~= shorter);
            assert(events.take(i + 1) =~= events);
        } else {
            assert(shorter.take(i + 1) =~= events.take(i + 1));
            lemma_step_can_be_cut(shorter, i);
        }
    }
}

/// Events taken one after the other lead where the first part leads and
/// then the second, and they can be brought exactly when the first part
/// can be brought and then the second.
pub proof fn lemma_steps_compose<S, A, E>(
    start: AcceptLoop<S, A, E>,
    first: Seq<AcceptEvent<S, A, E>>,
    second: Seq<AcceptEvent<S, A, E>>,
)
    ensures
        start.after(first + second) == start.after(first).after(second),
        start.takes(first + second) == (start.takes(first) && start.after(first).takes(second)),
    decreases second.len(),
{
    if second.len() == 0 {
        assert(first + second =~= first);
    } else {
        assert((first + second).drop_last() =~= first + second.drop_last());
        lemma_steps_compose(start, first, second.drop_last());
    }
}

/// A connection is yielded only at the end of a step of at least three
/// events: the reactor reported readiness, the accept that followed
/// brought the stream and the peer's address that the record holds, and
/// the query of the local address that followed brought the local address
/// that the record holds.
pub proof fn lemma_yield_follows_readiness<S, A, E>(
    events: Seq<AcceptEvent<S, A, E>>,
    incoming: Incoming<S, A>,
)
    requires
        is_step(events),
        step_state(events) == AcceptLoop::<S, A, E>::Done(AcceptPoll::Ready(Ok(incoming))),
    ensures
        events.len() >= 3,
        events[events.len() - 3] == AcceptEvent::<S, A, E>::Polled(Readiness::Ready),
        events[events.len() - 2] == AcceptEvent::<S, A, E>::Attempted(
            AcceptAttempt::Connection {
                stream: incoming.stream,
                remote_addr: incoming.remote_addr,
            },
        ),
        events[events.len() - 1] == AcceptEvent::<S, A, E>::Resolved(Ok(incoming.local_addr)),
{
    lemma_tail_fits(events);
}

/// An accept is attempted only after the reactor reported readiness: the
/// event before it is that report.
pub proof fn lemma_accept_follows_readiness<S, A, E>(events: Seq<AcceptEvent<S, A, E>>, i: int)
    requires
        is_step(events),
        0 <= i < events.len(),
        events[i] is Attempted,
    ensures
        i >= 1,
        events[i - 1] == AcceptEvent::<S, A, E>::Polled(Readiness::Ready),
{
    lemma_step_can_be_cut(events, i);
    lemma_tail_fits(events.take(i));
}

/// A local address is queried only after an accept brought a connection:
/// the event before the answer is that accept, and the step holds its
/// stream and its peer's address while the driver asks.
pub proof fn lemma_query_follows_connection<S, A, E>(events: Seq<AcceptEvent<S, A, E>>, i: int)
    requires
        is_step(events),
        0 <= i < events.len(),
        events[i] is Resolved,
    ensures
        i >= 2,
        events[i - 2] == AcceptEvent::<S, A, E>::Polled(Readiness::Ready),
        events[i - 1] matches AcceptEvent::Attempted(
            AcceptAttempt::Connection { stream, remote_addr },
        ) && step_state(events.take(i)) == (AcceptLoop::<S, A, E>::Resolving {
            stream,
            remote_addr,
        }),
{
    lemma_step_can_be_cut(events, i);
    lemma_tail_fits(events.take(i));
}

/// A spurious wakeup is absorbed: after an accept that found no connection
/// the step is not over and no error is raised, the reactor is polled
/// again, and the step ends as it would have ended had it started there.
pub proof fn lemma_spurious_wakeup_is_absorbed<S, A, E>(
    events: Seq<AcceptEvent<S, A, E>>,
    i: int,
)
    requires
        is_step(events),
        0 <= i < events.len(),
        events[i] == AcceptEvent::<S, A, E>::Attempted(AcceptAttempt::NoConnection),
    ensures
        step_state(events.take(i + 1)) == AcceptLoop::<S, A, E>::Polling,
        i + 1 < events.len() ==> events[i + 1] is Polled,
        is_step(events.skip(i + 1)),
        step_state(events) == step_state(events.skip(i + 1)),
{
    lemma_step_can_be_cut(events, i);
    lemma_tail_fits(events.take(i));
    if i + 1 < events.len() {
        lemma_step_can_be_cut(events, i + 1);
    }
    assert(events =~= events.take(i + 1) + events.skip(i + 1));
    lemma_steps_compose(AcceptLoop::<S, A, E>::Polling, events.take(i + 1), events.skip(i + 1));
}

/// A step that ends with an error ends with the error of its last event,
/// as it was reported: by the reactor, by the accept, or by the query of
/// the local address.
pub proof fn lemma_failure_is_verbatim<S, A, E>(events: Seq<AcceptEvent<S, A, E>>, err: E)
    requires
        is_step(events),
        step_state(events) == AcceptLoop::<S, A, E>::Done(AcceptPoll::Ready(Err(err))),
    ensures
        events.len() >= 1,
        ({
            ||| events.last() == AcceptEvent::<S, A, E>::Polled(Readiness::Failed(err))
            ||| events.last() == AcceptEvent::<S, A, E>::Attempted(AcceptAttempt::Failed(err))
            ||| events.last() == AcceptEvent::<S, A, E>::Resolved(Err(err))
        }),
{
    lemma_tail_fits(events);
}

/// A step ends as pending exactly when its last event is the reactor's
/// report that the socket is not ready.
pub proof fn lemma_pending_means_not_ready<S, A, E>(events: Seq<AcceptEvent<S, A, E>>)
    requires
        is_step(events),
    ensures
        step_state(events) == AcceptLoop::<S, A, E>::Done(AcceptPoll::Pending) <==> events.len()
            >= 1 && events.last() == AcceptEvent::<S, A, E>::Polled(Readiness::NotReady),
{
    lemma_tail_fits(events);
    if events.len() >= 1 {
        lemma_tail_fits(events.drop_last());
    }
}

/// A step has one outcome: before its last event it is not over.
pub proof fn lemma_done_is_final<S, A, E>(events: Seq<AcceptEvent<S, A, E>>, i: int)
    requires
        is_step(events),
        0 <= i < events.len(),
    ensures
        !(step_state(events.take(i)) is Done),
{
    lemma_step_can_be_cut(events, i);
}

/// A step accepts one connection at most, and does not lose it: after the
/// accept only the answer to the query of the local address follows, and
/// with it the step ends, with the connection and its two addresses or
/// with the error of the query.
pub proof fn lemma_connection_ends_the_step<S, A, E>(
    events: Seq<AcceptEvent<S, A, E>>,
    i: int,
    stream: S,
    remote_addr: A,
)
    requires
        is_step(events),
        0 <= i < events.len(),
        events[i] == AcceptEvent::<S, A, E>::Attempted(
            AcceptAttempt::Connection { stream, remote_addr },
        ),
    ensures
        i + 2 >= events.len(),
        i + 1 == events.len() ==> step_state(events) == (AcceptLoop::<S, A, E>::Resolving {
            stream,
            remote_addr,
        }),
        i + 2 == events.len() ==> events.last() is Resolved && step_state(events)
            == AcceptLoop::<S, A, E>::Done(
            AcceptPoll::Ready(
                match events.last()->Resolved_0 {
                    Ok(local_addr) => Ok(Incoming { stream, local_addr, remote_addr }),
                    Err(err) => Err(err),
                },
            ),
        ),
{
    lemma_step_can_be_cut(events, i);
    assert(events.take(events.len() as int) =~= events);
    if i + 1 < events.len() {
        lemma_step_can_be_cut(events, i + 1);
        if i + 2 < events.len() {
            lemma_step_can_be_cut(events, i + 2);
        }
    }
}

} // verus!
