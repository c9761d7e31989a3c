//! Connect completion: from a socket whose connect was started to a stream
//! or the error of the attempt.
//!
//! A completion starts in [`Connect::Registering`] and ends in
//! [`Connect::Done`]. In between, each state names the one thing the driver
//! has to do next, and [`Connect::step`] takes what that brought. The types
//! of sockets and errors are the driver's own.

use vstd::pervasive::unreached;
use vstd::prelude::*;

verus! {

/// What the driver hands back after it did what a state asked for.
#[derive(Debug, PartialEq, Eq)]
pub enum ConnectEvent<S, E> {
    /// The socket was registered with the reactor.
    Registered(Result<S, E>),
    /// The wait for the socket to become writable came to an end.
    Writable(Result<(), E>),
    /// The error that the socket keeps from its connect attempt was
    /// queried: `Ok(None)` where there is none, `Ok(Some(..))` where there
    /// is one, `Err(..)` where the query itself failed.
    Checked(Result<Option<E>, E>),
}

/// The state of one connect completion. Each state but the last names what
/// the driver does next.
#[derive(Debug, PartialEq, Eq)]
pub enum Connect<S, E> {
    /// Register the socket with the reactor.
    Registering,
    /// Wait until the reactor reports `stream` writable: the connect
    /// attempt has then come to an end, well or badly.
    Connecting { stream: S },
    /// Query the error that `stream` keeps from its connect attempt.
    Checking { stream: S },
    /// The completion is over: the stream, or the error of the attempt.
    Done(Result<S, E>),
}

impl<S, E> Connect<S, E> {
    /// Whether `event` answers what this state asked for.
    pub open spec fn expects(self, event: ConnectEvent<S, E>) -> bool {
        match self {
            Connect::Registering => event is Registered,
            Connect::Connecting { .. } => event is Writable,
            Connect::Checking { .. } => event is Checked,
            Connect::Done(_) => false,
        }
    }

    /// The state that follows this one on `event`.
    ///
    /// The stream is handed out once it was registered, became writable
    /// and keeps no error. Every failure, and an error that the socket
    /// keeps, ends the completion with that error as it was reported. On an
    /// event that the state does not expect nothing moves.
    pub open spec fn next(self, event: ConnectEvent<S, E>) -> Self {
        match (self, event) {
            (Connect::Registering, ConnectEvent::Registered(registered)) => match registered {
                Ok(stream) => Connect::Connecting { stream },
                Err(err) => Connect::Done(Err(err)),
            },
            (Connect::Connecting { stream }, ConnectEvent::Writable(waited)) => match waited {
                Ok(_) => Connect::Checking { stream },
                Err(err) => Connect::Done(Err(err)),
            },
            (Connect::Checking { stream }, ConnectEvent::Checked(kept)) => match kept {
                Ok(None) => Connect::Done(Ok(stream)),
                Ok(Some(err)) => Connect::Done(Err(err)),
                Err(err) => Connect::Done(Err(err)),
            },
            _ => self,
        }
    }

    /// The state that `events`, taken in order, lead to from this one.
    pub open spec fn after(self, events: Seq<ConnectEvent<S, E>>) -> Self
        decreases events.len(),
    {
        if events.len() == 0 {
            self
        } else {
            self.after(events.drop_last()).next(events.last())
        }
    }

    /// Whether a driver can bring `events` in this order from this state
    /// on: each event answers what the state before it asked for.
    pub open spec fn takes(self, events: Seq<ConnectEvent<S, E>>) -> bool
        decreases events.len(),
    {
        events.len() == 0 || (self.takes(events.drop_last()) && self.after(
            events.drop_last(),
        ).expects(events.last()))
    }

    /// The state in which every completion starts.
    pub fn new() -> (start: Self)
        ensures
            start == Connect::<S, E>::Registering,
    {
        Connect::Registering
    }

    /// Whether `event` answers what this state asked for.
    pub fn admits(&self, event: &ConnectEvent<S, E>) -> (b: bool)
        ensures
            b == self.expects(*event),
    {
        match (self, event) {
            (Connect::Registering, ConnectEvent::Registered(_)) => true,
            (Connect::Connecting { .. }, ConnectEvent::Writable(_)) => true,
            (Connect::Checking { .. }, ConnectEvent::Checked(_)) => true,
            _ => false,
        }
    }

    /// Takes what the driver brought and moves to the next state.
    pub fn step(self, event: ConnectEvent<S, E>) -> (next: Self)
        requires
            self.expects(event),
        ensures
            next == self.next(event),
    {
        match self {
            Connect::Registering => match event {
                ConnectEvent::Registered(Ok(stream)) => Connect::Connecting { stream },
                ConnectEvent::Registered(Err(err)) => Connect::Done(Err(err)),
                _ => unreached(),
            },
            Connect::Connecting { stream } => match event {
                ConnectEvent::Writable(Ok(_)) => Connect::Checking { stream },
                ConnectEvent::Writable(Err(err)) => Connect::Done(Err(err)),
                _ => unreached(),
            },
            Connect::Checking { stream } => match event {
                ConnectEvent::Checked(Ok(None)) => Connect::Done(Ok(stream)),
                ConnectEvent::Checked(Ok(Some(err))) => Connect::Done(Err(err)),
                ConnectEvent::Checked(Err(err)) => Connect::Done(Err(err)),
                _ => unreached(),
            },
            Connect::Done(_) => unreached(),
        }
    }
}

} // verus!
