use std::io::ErrorKind;

use unix_stream::connect::{Connect, ConnectEvent};

type Completion = Connect<u32, ErrorKind>;
type Event = ConnectEvent<u32, ErrorKind>;

fn registered() -> Event {
    ConnectEvent::Registered(Ok(3))
}

fn writable() -> Event {
    ConnectEvent::Writable(Ok(()))
}

fn checked() -> Event {
    ConnectEvent::Checked(Ok(None))
}

#[test]
fn a_completion_starts_by_registering() {
    assert_eq!(Completion::new(), Connect::Registering);
}

#[test]
fn a_registered_socket_waits_for_writability() {
    assert_eq!(Completion::new().step(registered()), Connect::Connecting { stream: 3 });
}

#[test]
fn a_failed_registration_ends_the_completion() {
    let next = Completion::new().step(ConnectEvent::Registered(Err(ErrorKind::PermissionDenied)));
    assert_eq!(next, Connect::Done(Err(ErrorKind::PermissionDenied)));
}

#[test]
fn a_writable_socket_is_checked_for_its_error() {
    let next = Completion::Connecting { stream: 3 }.step(writable());
    assert_eq!(next, Connect::Checking { stream: 3 });
}

#[test]
fn a_failed_wait_ends_the_completion() {
    let next =
        Completion::Connecting { stream: 3 }.step(ConnectEvent::Writable(Err(ErrorKind::BrokenPipe)));
    assert_eq!(next, Connect::Done(Err(ErrorKind::BrokenPipe)));
}

#[test]
fn a_socket_without_error_becomes_the_stream() {
    let next = Completion::Checking { stream: 3 }.step(checked());
    assert_eq!(next, Connect::Done(Ok(3)));
}

#[test]
fn a_kept_error_ends_the_completion_with_it() {
    let next = Completion::Checking { stream: 3 }
        .step(ConnectEvent::Checked(Ok(Some(ErrorKind::ConnectionRefused))));
    assert_eq!(next, Connect::Done(Err(ErrorKind::ConnectionRefused)));
}

#[test]
fn a_failed_query_ends_the_completion_with_its_error() {
    let next =
        Completion::Checking { stream: 3 }.step(ConnectEvent::Checked(Err(ErrorKind::InvalidInput)));
    assert_eq!(next, Connect::Done(Err(ErrorKind::InvalidInput)));
}

#[test]
fn each_state_admits_its_own_answer_only() {
    assert!(Completion::Registering.admits(&registered()));
    assert!(!Completion::Registering.admits(&writable()));
    assert!(!Completion::Registering.admits(&checked()));

    let connecting = Completion::Connecting { stream: 3 };
    assert!(connecting.admits(&writable()));
    assert!(connecting.admits(&ConnectEvent::Writable(Err(ErrorKind::Other))));
    assert!(!connecting.admits(&registered()));
    assert!(!connecting.admits(&checked()));

    let checking = Completion::Checking { stream: 3 };
    assert!(checking.admits(&checked()));
    assert!(checking.admits(&ConnectEvent::Checked(Ok(Some(ErrorKind::Other)))));
    assert!(checking.admits(&ConnectEvent::Checked(Err(ErrorKind::Other))));
    assert!(!checking.admits(&registered()));
    assert!(!checking.admits(&writable()));
}

#[test]
fn a_finished_completion_admits_nothing() {
    let stream: Completion = Connect::Done(Ok(3));
    let failed: Completion = Connect::Done(Err(ErrorKind::ConnectionRefused));
    assert!(!stream.admits(&registered()));
    assert!(!stream.admits(&writable()));
    assert!(!stream.admits(&checked()));
    assert!(!failed.admits(&registered()));
    assert!(!failed.admits(&writable()));
    assert!(!failed.admits(&checked()));
}
