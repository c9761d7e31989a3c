use std::io::ErrorKind;

use unix_stream::accept::{AcceptAttempt, AcceptEvent, AcceptLoop, AcceptPoll, Incoming, Readiness};

type Loop = AcceptLoop<u32, String, ErrorKind>;
type Event = AcceptEvent<u32, String, ErrorKind>;

fn resolving() -> Loop {
    AcceptLoop::Resolving { stream: 7, remote_addr: String::from("peer") }
}

fn done() -> Loop {
    AcceptLoop::Done(AcceptPoll::Pending)
}

fn polled() -> Event {
    AcceptEvent::Polled(Readiness::Ready)
}

fn attempted() -> Event {
    AcceptEvent::Attempted(AcceptAttempt::NoConnection)
}

fn resolved() -> Event {
    AcceptEvent::Resolved(Ok(String::from("/run/listener.sock")))
}

#[test]
fn a_poll_step_starts_by_polling() {
    assert_eq!(Loop::new(), AcceptLoop::Polling);
}

#[test]
fn lack_of_readiness_ends_the_step_as_pending() {
    let next = Loop::new().step(AcceptEvent::Polled(Readiness::NotReady));
    assert_eq!(next, AcceptLoop::Done(AcceptPoll::Pending));
}

#[test]
fn readiness_leads_to_an_accept() {
    let next = Loop::new().step(AcceptEvent::Polled(Readiness::Ready));
    assert_eq!(next, AcceptLoop::Accepting);
}

#[test]
fn a_reactor_error_ends_the_step_with_that_error() {
    let next = Loop::new().step(AcceptEvent::Polled(Readiness::Failed(ErrorKind::NotConnected)));
    assert_eq!(next, AcceptLoop::Done(AcceptPoll::Ready(Err(ErrorKind::NotConnected))));
}

#[test]
fn a_spurious_wakeup_leads_back_to_the_reactor() {
    let next = Loop::Accepting.step(AcceptEvent::Attempted(AcceptAttempt::NoConnection));
    assert_eq!(next, AcceptLoop::Polling);
}

#[test]
fn a_connection_leads_to_the_query_of_its_local_address() {
    let next = Loop::Accepting.step(AcceptEvent::Attempted(AcceptAttempt::Connection {
        stream: 7,
        remote_addr: String::from("peer"),
    }));
    assert_eq!(next, resolving());
}

#[test]
fn an_accept_error_ends_the_step_with_that_error() {
    let next =
        Loop::Accepting.step(AcceptEvent::Attempted(AcceptAttempt::Failed(ErrorKind::OutOfMemory)));
    assert_eq!(next, AcceptLoop::Done(AcceptPoll::Ready(Err(ErrorKind::OutOfMemory))));
}

#[test]
fn a_resolved_address_completes_the_record() {
    let next = resolving().step(AcceptEvent::Resolved(Ok(String::from("/run/listener.sock"))));
    assert_eq!(
        next,
        AcceptLoop::Done(AcceptPoll::Ready(Ok(Incoming {
            stream: 7,
            local_addr: String::from("/run/listener.sock"),
            remote_addr: String::from("peer"),
        })))
    );
}

#[test]
fn a_failed_address_query_discards_the_connection() {
    let next = resolving().step(AcceptEvent::Resolved(Err(ErrorKind::InvalidInput)));
    assert_eq!(next, AcceptLoop::Done(AcceptPoll::Ready(Err(ErrorKind::InvalidInput))));
}

#[test]
fn polling_admits_reports_of_the_reactor_only() {
    assert!(Loop::Polling.admits(&polled()));
    assert!(Loop::Polling.admits(&AcceptEvent::Polled(Readiness::NotReady)));
    assert!(Loop::Polling.admits(&AcceptEvent::Polled(Readiness::Failed(ErrorKind::Other))));
    assert!(!Loop::Polling.admits(&attempted()));
    assert!(!Loop::Polling.admits(&resolved()));
}

#[test]
fn accepting_admits_accept_attempts_only() {
    assert!(Loop::Accepting.admits(&attempted()));
    assert!(Loop::Accepting.admits(&AcceptEvent::Attempted(AcceptAttempt::Connection {
        stream: 1,
        remote_addr: String::new(),
    })));
    assert!(Loop::Accepting.admits(&AcceptEvent::Attempted(AcceptAttempt::Failed(ErrorKind::Other))));
    assert!(!Loop::Accepting.admits(&polled()));
    assert!(!Loop::Accepting.admits(&resolved()));
}

#[test]
fn resolving_admits_address_answers_only() {
    assert!(resolving().admits(&resolved()));
    assert!(resolving().admits(&AcceptEvent::Resolved(Err(ErrorKind::Other))));
    assert!(!resolving().admits(&polled()));
    assert!(!resolving().admits(&attempted()));
}

#[test]
fn a_finished_step_admits_nothing() {
    assert!(!done().admits(&polled()));
    assert!(!done().admits(&attempted()));
    assert!(!done().admits(&resolved()));
    let failed: Loop = AcceptLoop::Done(AcceptPoll::Ready(Err(ErrorKind::Other)));
    assert!(!failed.admits(&polled()));
}
