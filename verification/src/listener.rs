//! The TLS listener: when a new acceptor comes into force, and which failures end
//! a call.
//!
//! The listener is driven from outside. A driver starts a call with
//! `AcceptEvent::Resume`, does what the listener answers, and hands back what
//! came of it, until the listener answers with `AcceptAction::Return`.

use vstd::prelude::*;

verus! {

/// A listener whose acceptor can be changed through a queue while it runs, and
/// which goes on accepting after a connection whose handshake failed or was not
/// finished in time.
#[derive(Debug)]
pub struct Listener<T> {
    acceptor: T,
}

/// What failed when a connection was to be accepted.
#[derive(Debug, Clone, Copy, PartialEq, Eq, Structural)]
pub enum Failure {
    /// The listener below, which gives the connections.
    Listener,
    /// The TLS handshake with one peer.
    TlsAccept,
    /// The TLS handshake with one peer took too long.
    HandshakeTimeout,
    /// Anything else.
    Other,
}

/// What came of an action, with connections `C` and errors `E`.
#[derive(Debug)]
pub enum AcceptEvent<T, C, E> {
    /// The call begins, or goes on after an acceptor was installed or a failure
    /// was noted.
    Resume,
    /// The queue had an acceptor.
    Queued(T),
    /// The queue had no acceptor.
    QueueEmpty,
    /// Accepting a connection came to an end.
    Finished(Result<C, (Failure, E)>),
}

/// What a call does next.
#[derive(Debug)]
pub enum AcceptAction<C, E> {
    /// Take an acceptor from the queue, if there is one.
    CheckQueue,
    /// Use the acceptor that is now in force for new connections.
    Install,
    /// Accept a connection.
    Accept,
    /// Note the error and go on.
    Ignore(E),
    /// End the call.
    Return(Result<C, E>),
}

/// Whether `failure` is that of one peer: its handshake failed or was not finished
/// in time. The listener itself can still accept.
pub open spec fn peer_failed(failure: Failure) -> bool {
    failure is TlsAccept || failure is HandshakeTimeout
}

/// The action that answers `event`.
pub open spec fn accept_action<T, C, E>(event: AcceptEvent<T, C, E>) -> AcceptAction<C, E> {
    match event {
        AcceptEvent::Resume => AcceptAction::CheckQueue,
        AcceptEvent::Queued(_) => AcceptAction::Install,
        AcceptEvent::QueueEmpty => AcceptAction::Accept,
        AcceptEvent::Finished(Ok(connection)) => AcceptAction::Return(Ok(connection)),
        AcceptEvent::Finished(Err((failure, error))) => if peer_failed(failure) {
            AcceptAction::Ignore(error)
        } else {
            AcceptAction::Return(Err(error))
        },
    }
}

/// The acceptor in force after `event`, where `acceptor` was in force before.
pub open spec fn next_acceptor<T, C, E>(acceptor: T, event: AcceptEvent<T, C, E>) -> T {
    match event {
        AcceptEvent::Queued(queued) => queued,
        _ => acceptor,
    }
}

impl<T> Listener<T> {
    /// The acceptor in force.
    pub closed spec fn in_force(self) -> T {
        self.acceptor
    }

    pub fn new(tls: T) -> (listener: Self)
        ensures
            listener.in_force() == tls,
    {
        Self { acceptor: tls }
    }

    /// The acceptor in force.
    pub fn acceptor(&self) -> (acceptor: &T)
        ensures
            *acceptor == self.in_force(),
    {
        &self.acceptor
    }

    /// Puts an acceptor in force in place of the one that is.
    pub fn replace_acceptor(&mut self, acceptor: T)
        ensures
            final(self).in_force() == acceptor,
    {
        self.acceptor = acceptor;
    }

    /// Decides what the call does after `event`: all queued acceptors come into
    /// force before a connection is accepted, the failure of one peer to finish
    /// its handshake is passed over, and a connection or any other failure ends
    /// the call.
    pub fn accept<C, E>(&mut self, event: AcceptEvent<T, C, E>) -> (action: AcceptAction<C, E>)
        ensures
            action == accept_action(event),
            final(self).in_force() == next_acceptor(old(self).in_force(), event),
    {
        match event {
            AcceptEvent::Resume => AcceptAction::CheckQueue,
            AcceptEvent::Queued(acceptor) => {
                self.replace_acceptor(acceptor);
                AcceptAction::Install
            },
            AcceptEvent::QueueEmpty => AcceptAction::Accept,
            AcceptEvent::Finished(Ok(connection)) => AcceptAction::Return(Ok(connection)),
            AcceptEvent::Finished(Err((failure, error))) => match failure {
                Failure::TlsAccept | Failure::HandshakeTimeout => AcceptAction::Ignore(error),
                _ => AcceptAction::Return(Err(error)),
            },
        }
    }
}

/// Whether `event` can come of `action`.
pub open spec fn comes_of<T, C, E>(action: AcceptAction<C, E>, event: AcceptEvent<T, C, E>) -> bool {
    match action {
        AcceptAction::CheckQueue => event is Queued || event is QueueEmpty,
        AcceptAction::Install => event is Resume,
        AcceptAction::Accept => event is Finished,
        AcceptAction::Ignore(_) => event is Resume,
        AcceptAction::Return(_) => false,
    }
}

/// Whether the event at `i` comes of the answer to the event before it.
pub open spec fn in_turn<T, C, E>(events: Seq<AcceptEvent<T, C, E>>, i: int) -> bool {
    comes_of(accept_action(events[i - 1]), events[i])
}

/// The events of a call, from its beginning up to some point.
pub open spec fn call_events<T, C, E>(events: Seq<AcceptEvent<T, C, E>>) -> bool {
    &&& events.len() > 0
    &&& events[0] is Resume
    &&& forall|i: int| 0 < i < events.len() ==> #[trigger] in_turn(events, i)
}

/// The acceptor in force after all of `events`.
pub open spec fn acceptor_after<T, C, E>(acceptor: T, events: Seq<AcceptEvent<T, C, E>>) -> T
    decreases events.len(),
{
    if events.len() == 0 {
        acceptor
    } else {
        next_acceptor(acceptor_after(acceptor, events.drop_last()), events.last())
    }
}

/// The newest acceptor is in force: the one that was queued last, or the one that
/// was in force at the beginning where none was queued.
pub proof fn newest_acceptor_in_force<T, C, E>(acceptor: T, events: Seq<AcceptEvent<T, C, E>>)
    ensures
        ({
            ||| {
                &&& forall|i: int| 0 <= i < events.len() ==> !(#[trigger] events[i] is Queued)
                &&& acceptor_after(acceptor, events) == acceptor
            }
            ||| exists|i: int|
                {
                    &&& 0 <= i < events.len()
                    &&& #[trigger] events[i] == AcceptEvent::<T, C, E>::Queued(
                        acceptor_after(acceptor, events),
                    )
                    &&& forall|k: int| i < k < events.len() ==> !(#[trigger] events[k] is Queued)
                }
        }),
    decreases events.len(),
{
    if events.len() > 0 {
        let front = events.drop_last();
        newest_acceptor_in_force(acceptor, front);
        if events.last() is Queued {
            assert(events[events.len() - 1] == AcceptEvent::<T, C, E>::Queued(
                acceptor_after(acceptor, events),
            ));
        } else if exists|i: int| 0 <= i < front.len() && #[trigger] front[i] is Queued {
            let i = choose|i: int|
                {
                    &&& 0 <= i < front.len()
                    &&& #[trigger] front[i] == AcceptEvent::<T, C, E>::Queued(
                        acceptor_after(acceptor, front),
                    )
                    &&& forall|k: int| i < k < front.len() ==> !(#[trigger] front[k] is Queued)
                };
            assert(events[i] == front[i]);
            assert forall|k: int| i < k < events.len() implies !(#[trigger] events[k] is Queued) by {
                if k < front.len() {
                    assert(front[k] == events[k]);
                }
            }
        } else {
            assert forall|i: int| 0 <= i < events.len() implies !(#[trigger] events[i] is Queued) by {
                if i < front.len() {
                    assert(front[i] == events[i]);
                }
            }
        }
    }
}

/// A connection is accepted only after the queue was found empty, so no acceptor
/// that is queued when an attempt begins waits until the attempt is over.
pub proof fn queue_empty_before_accepting<T, C, E>(events: Seq<AcceptEvent<T, C, E>>, i: int)
    requires
        call_events(events),
        0 <= i < events.len(),
        events[i] is Finished,
    ensures
        i > 0,
        events[i - 1] is QueueEmpty,
{
    assert(in_turn(events, i));
}

/// A call goes on after a handshake that failed or was not finished in time, and
/// after nothing else: of all its attempts, those before the last event ended so.
pub proof fn only_failed_handshakes_are_passed_over<T, C, E>(
    events: Seq<AcceptEvent<T, C, E>>,
    i: int,
)
    requires
        call_events(events),
        0 <= i < events.len() - 1,
        events[i] is Finished,
    ensures
        events[i] matches AcceptEvent::Finished(Err((failure, _))) && peer_failed(failure),
        events[i + 1] is Resume,
{
    assert(in_turn(events, i + 1));
}

/// A call ends with what its last attempt gave, and never with a handshake that
/// failed or was not finished in time.
pub proof fn call_ends_with_last_attempt<T, C, E>(
    events: Seq<AcceptEvent<T, C, E>>,
    outcome: Result<C, E>,
)
    requires
        call_events(events),
        accept_action(events.last()) == AcceptAction::Return(outcome),
    ensures
        events.last() matches AcceptEvent::Finished(finished) && match finished {
            Ok(connection) => outcome == Ok::<C, E>(connection),
            Err((failure, error)) => !peer_failed(failure) && outcome == Err::<C, E>(error),
        },
{
}

} // verus!
