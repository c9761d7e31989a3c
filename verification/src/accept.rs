//! The accept loop: one poll step on a listening socket.
//!
//! A poll step starts in [`AcceptLoop::Polling`] and ends in
//! [`AcceptLoop::Done`]. In between, each state names the one thing the
//! driver has to do next, and [`AcceptLoop::step`] takes what that brought.
//! The types of sockets, addresses and errors are the driver's own: the loop
//! moves them and never looks inside.

use vstd::pervasive::unreached;
use vstd::prelude::*;

verus! {

/// What a reactor reports when it is polled for read-readiness of a
/// listening socket.
#[derive(Debug, PartialEq, Eq)]
pub enum Readiness<E> {
    /// Nothing to report yet; the reactor wakes the task later.
    NotReady,
    /// The socket was reported readable.
    Ready,
    /// The reactor itself failed on this socket.
    Failed(E),
}

/// What a non-blocking accept on a listening socket brought.
#[derive(Debug, PartialEq, Eq)]
pub enum AcceptAttempt<S, A, E> {
    /// No connection was pending after all: the wakeup was spurious.
    NoConnection,
    /// A connection was accepted.
    Connection { stream: S, remote_addr: A },
    /// The accept call failed.
    Failed(E),
}

/// An accepted connection with both of its addresses.
#[derive(Debug, PartialEq, Eq)]
pub struct Incoming<S, A> {
    /// The connected socket.
    pub stream: S,
    /// The address of `stream` on this side, queried after the accept.
    pub local_addr: A,
    /// The address of the peer, as the accept call gave it.
    pub remote_addr: A,
}

/// The result of one poll step.
#[derive(Debug, PartialEq, Eq)]
pub enum AcceptPoll<S, A, E> {
    /// The reactor reported no readiness; the scheduler polls again later.
    Pending,
    /// The step came to an end: a connection, or the error that stopped it.
    Ready(Result<Incoming<S, A>, E>),
}

/// What the driver hands back after it did what a state asked for.
#[derive(Debug, PartialEq, Eq)]
pub enum AcceptEvent<S, A, E> {
    /// The reactor was polled for read-readiness.
    Polled(Readiness<E>),
    /// A non-blocking accept was attempted.
    Attempted(AcceptAttempt<S, A, E>),
    /// The local address of the accepted socket was queried.
    Resolved(Result<A, E>),
}

/// The state of one poll step. Each state but the last names what the
/// driver does next.
#[derive(Debug, PartialEq, Eq)]
pub enum AcceptLoop<S, A, E> {
    /// Poll the reactor for read-readiness of the listening socket.
    Polling,
    /// Readiness was reported: attempt a non-blocking accept.
    Accepting,
    /// A connection was accepted: query the local address of `stream`.
    Resolving { stream: S, remote_addr: A },
    /// The step is over: return the result to the scheduler.
    Done(AcceptPoll<S, A, E>),
}

impl<S, A, E> AcceptLoop<S, A, E> {
    /// Whether `event` answers what this state asked for.
    pub open spec fn expects(self, event: AcceptEvent<S, A, E>) -> bool {
        match self {
            AcceptLoop::Polling => event is Polled,
            AcceptLoop::Accepting => event is Attempted,
            AcceptLoop::Resolving { .. } => event is Resolved,
            AcceptLoop::Done(_) => false,
        }
    }

    /// The state that follows this one on `event`.
    ///
    /// Readiness leads to an accept, a spurious wakeup leads back to the
    /// reactor, a connection leads to the query of its local address. Lack
    /// of readiness ends the step as pending, and every failure ends it
    /// with the error as it was reported. On an event that the state does
    /// not expect nothing moves.
    pub open spec fn next(self, event: AcceptEvent<S, A, E>) -> Self {
        match (self, event) {
            (AcceptLoop::Polling, AcceptEvent::Polled(report)) => match report {
                Readiness::NotReady => AcceptLoop::Done(AcceptPoll::Pending),
                Readiness::Ready => AcceptLoop::Accepting,
                Readiness::Failed(err) => AcceptLoop::Done(AcceptPoll::Ready(Err(err))),
            },
            (AcceptLoop::Accepting, AcceptEvent::Attempted(attempt)) => match attempt {
                AcceptAttempt::NoConnection => AcceptLoop::Polling,
                AcceptAttempt::Connection { stream, remote_addr } => AcceptLoop::Resolving {
                    stream,
                    remote_addr,
                },
                AcceptAttempt::Failed(err) => AcceptLoop::Done(AcceptPoll::Ready(Err(err))),
            },
            (AcceptLoop::Resolving { stream, remote_addr }, AcceptEvent::Resolved(local)) => {
                match local {
                    Ok(local_addr) => AcceptLoop::Done(
                        AcceptPoll::Ready(Ok(Incoming { stream, local_addr, remote_addr })),
                    ),
                    Err(err) => AcceptLoop::Done(AcceptPoll::Ready(Err(err))),
                }
            },
            _ => self,
        }
    }

    /// The state that `events`, taken in order, lead to from this one.
    pub open spec fn after(self, events: Seq<AcceptEvent<S, A, E>>) -> Self
        decreases events.len(),
    {
        if events.len() == 0 {
            self
        } else {
            self.after(events.drop_last()).next(events.last())
        }
    }

    /// Whether a driver can bring `events` in this order from this state
    /// on: each event answers what the state before it asked for.
    pub open spec fn takes(self, events: Seq<AcceptEvent<S, A, E>>) -> bool
        decreases events.len(),
    {
        events.len() == 0 || (self.takes(events.drop_last()) && self.after(
            events.drop_last(),
        ).expects(events.last()))
    }

    /// The state in which every poll step starts.
    pub fn new() -> (start: Self)
        ensures
            start == AcceptLoop::<S, A, E>::Polling,
    {
        AcceptLoop::Polling
    }

    /// Whether `event` answers what this state asked for.
    pub fn admits(&self, event: &AcceptEvent<S, A, E>) -> (b: bool)
        ensures
            b == self.expects(*event),
    {
        match (self, event) {
            (AcceptLoop::Polling, AcceptEvent::Polled(_)) => true,
            (AcceptLoop::Accepting, AcceptEvent::Attempted(_)) => true,
            (AcceptLoop::Resolving { .. }, AcceptEvent::Resolved(_)) => true,
            _ => false,
        }
    }

    /// Takes what the driver brought and moves to the next state.
    pub fn step(self, event: AcceptEvent<S, A, E>) -> (next: Self)
        requires
            self.expects(event),
        ensures
            next == self.next(event),
    {
        match self {
            AcceptLoop::Polling => match event {
                AcceptEvent::Polled(Readiness::NotReady) => AcceptLoop::Done(AcceptPoll::Pending),
                AcceptEvent::Polled(Readiness::Ready) => AcceptLoop::Accepting,
                AcceptEvent::Polled(Readiness::Failed(err)) => AcceptLoop::Done(
                    AcceptPoll::Ready(Err(err)),
                ),
                _ => unreached(),
            },
            AcceptLoop::Accepting => match event {
                AcceptEvent::Attempted(AcceptAttempt::NoConnection) => AcceptLoop::Polling,
                AcceptEvent::Attempted(AcceptAttempt::Connection { stream, remote_addr }) => {
                    AcceptLoop::Resolving { stream, remote_addr }
                },
                AcceptEvent::Attempted(AcceptAttempt::Failed(err)) => AcceptLoop::Done(
                    AcceptPoll::Ready(Err(err)),
                ),
                _ => unreached(),
            },
            AcceptLoop::Resolving { stream, remote_addr } => match event {
                AcceptEvent::Resolved(Ok(local_addr)) => AcceptLoop::Done(
                    AcceptPoll::Ready(Ok(Incoming { stream, local_addr, remote_addr })),
                ),
                AcceptEvent::Resolved(Err(err)) => AcceptLoop::Done(AcceptPoll::Ready(Err(err))),
                _ => unreached(),
            },
            AcceptLoop::Done(_) => unreached(),
        }
    }
}

} // verus!
