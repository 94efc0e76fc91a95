use std::collections::VecDeque;

use hyper_compat::listener::{AcceptAction, AcceptEvent, Failure, Listener};

/// What accepting a connection gives under an acceptor.
type Attempt = fn(&str) -> Result<&'static str, (Failure, &'static str)>;

/// Runs one call of `accept`.
fn accept(
    listener: &mut Listener<&'static str>,
    queue: &mut VecDeque<&'static str>,
    attempts: &mut VecDeque<Attempt>,
) -> (Result<&'static str, &'static str>, Vec<&'static str>) {
    let mut installed = *listener.acceptor();
    let mut ignored = vec![];
    let mut event: AcceptEvent<&str, &str, &str> = AcceptEvent::Resume;
    loop {
        event = match listener.accept(event) {
            AcceptAction::CheckQueue => match queue.pop_front() {
                Some(acceptor) => AcceptEvent::Queued(acceptor),
                None => AcceptEvent::QueueEmpty,
            },
            AcceptAction::Install => {
                installed = *listener.acceptor();
                AcceptEvent::Resume
            }
            AcceptAction::Accept => {
                let attempt = attempts.pop_front().unwrap();
                AcceptEvent::Finished(attempt(installed))
            }
            AcceptAction::Ignore(error) => {
                ignored.push(error);
                AcceptEvent::Resume
            }
            AcceptAction::Return(outcome) => return (outcome, ignored),
        };
    }
}

fn connects(_acceptor: &str) -> Result<&'static str, (Failure, &'static str)> {
    Ok("hello world")
}

fn fails_handshake(_acceptor: &str) -> Result<&'static str, (Failure, &'static str)> {
    Err((Failure::TlsAccept, "bad certificate"))
}

fn connects_under_a_valid_certificate(
    acceptor: &str,
) -> Result<&'static str, (Failure, &'static str)> {
    if acceptor == "valid" {
        Ok("hello world")
    } else {
        Err((Failure::TlsAccept, "certificate expired"))
    }
}

#[test]
fn server_doesnt_shutdown_after_bad_handshake() {
    let mut listener = Listener::new("cert");
    let mut attempts: VecDeque<Attempt> = VecDeque::from(vec![fails_handshake as Attempt, connects]);
    let (outcome, ignored) = accept(&mut listener, &mut VecDeque::new(), &mut attempts);
    assert_eq!(ignored, vec!["bad certificate"]);
    assert_eq!("hello world", outcome.unwrap());
}

#[test]
#[should_panic(expected = "server error: connection aborted")]
fn server_shutdown_after_listener_error() {
    fn aborts(_acceptor: &str) -> Result<&'static str, (Failure, &'static str)> {
        Err((Failure::Listener, "connection aborted"))
    }

    let mut listener = Listener::new("cert");
    let mut attempts: VecDeque<Attempt> = VecDeque::from(vec![aborts as Attempt]);
    match accept(&mut listener, &mut VecDeque::new(), &mut attempts).0 {
        Ok(_) => {}
        Err(err) => panic!("server error: {err}"),
    }
}

#[test]
fn server_changes_tls_config() {
    let mut listener = Listener::new("invalid");
    let mut queue = VecDeque::new();

    // The handshake fails, then something else ends the call.
    fn stops(_acceptor: &str) -> Result<&'static str, (Failure, &'static str)> {
        Err((Failure::Other, "stopped"))
    }
    let mut attempts: VecDeque<Attempt> =
        VecDeque::from(vec![connects_under_a_valid_certificate as Attempt, stops]);
    let (outcome, ignored) = accept(&mut listener, &mut queue, &mut attempts);
    assert!(outcome.is_err());
    assert_eq!(ignored, vec!["certificate expired"]);

    queue.push_back("valid");
    let mut attempts: VecDeque<Attempt> =
        VecDeque::from(vec![connects_under_a_valid_certificate as Attempt]);
    let (outcome, ignored) = accept(&mut listener, &mut queue, &mut attempts);
    assert!(ignored.is_empty());
    assert_eq!("hello world", outcome.unwrap());
}

#[test]
fn the_acceptor_queued_last_is_in_force() {
    let mut listener = Listener::new("valid");
    let mut queue = VecDeque::from(vec!["valid", "invalid", "valid"]);
    let mut attempts: VecDeque<Attempt> =
        VecDeque::from(vec![connects_under_a_valid_certificate as Attempt]);
    let (outcome, _) = accept(&mut listener, &mut queue, &mut attempts);
    assert_eq!(outcome, Ok("hello world"));
    assert!(queue.is_empty());
    assert_eq!(*listener.acceptor(), "valid");
}

#[test]
fn the_queue_is_checked_again_after_a_failed_handshake() {
    let mut listener = Listener::new("a");
    let failed: AcceptEvent<&str, &str, &str> =
        AcceptEvent::Finished(Err((Failure::TlsAccept, "bad")));
    assert!(matches!(listener.accept(failed), AcceptAction::Ignore("bad")));
    let resumed: AcceptEvent<&str, &str, &str> = AcceptEvent::Resume;
    assert!(matches!(listener.accept(resumed), AcceptAction::CheckQueue));
}

#[test]
fn every_other_failure_ends_the_call() {
    for failure in [Failure::Listener, Failure::Other] {
        let mut listener = Listener::new("a");
        let failed: AcceptEvent<&str, &str, &str> = AcceptEvent::Finished(Err((failure, "error")));
        assert!(matches!(listener.accept(failed), AcceptAction::Return(Err("error"))));
    }
}

#[test]
fn a_peer_that_never_finishes_its_handshake_is_passed_over() {
    fn times_out(_acceptor: &str) -> Result<&'static str, (Failure, &'static str)> {
        Err((Failure::HandshakeTimeout, "timeout"))
    }

    let mut listener = Listener::new("cert");
    let mut attempts: VecDeque<Attempt> =
        VecDeque::from(vec![fails_handshake as Attempt, times_out, connects]);
    let (outcome, ignored) = accept(&mut listener, &mut VecDeque::new(), &mut attempts);
    assert_eq!(ignored, vec!["bad certificate", "timeout"]);
    assert_eq!(outcome, Ok("hello world"));
    assert!(attempts.is_empty());
}

#[test]
fn an_acceptor_can_be_replaced_between_calls() {
    let mut listener = Listener::new("a");
    listener.replace_acceptor("b");
    assert_eq!(*listener.acceptor(), "b");
}
