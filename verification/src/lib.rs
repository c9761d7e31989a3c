//! Connection lifecycle of Unix-domain stream sockets, driven by readiness.
//!
//! The crate holds the decisions of a socket provider and none of its
//! system calls. A driver performs the action that a state asks for (poll
//! the reactor, attempt an accept, query an address) and hands what came
//! back to the state machine, which answers with the next state.

pub mod accept;
pub mod accept_runs;
pub mod connect;
pub mod connect_runs;
pub mod provider;
