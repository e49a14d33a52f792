//! Taking in connections.

use vstd::prelude::*;

verus! {

/// A connection that is being taken in. `A` is the address of its peer.
#[derive(Debug)]
pub enum Accepting<A> {
    /// A connection is to be established.
    Establishing,
    /// Its stream is to be registered in the reactor.
    Registering(A),
    /// The connection was taken in, or that failed.
    Finished,
}

/// What happened. `T` is a stream that is not registered, `S` one that is.
#[derive(Debug)]
pub enum AcceptEvent<T, S, A, E> {
    /// A connection was established: here is its stream and the address of its peer.
    Established(Result<(T, A), E>),
    /// The stream was registered.
    Registered(Result<S, E>),
}

/// What has to be done next.
#[derive(Debug)]
pub enum AcceptAction<T, S, A, E> {
    /// Register this stream.
    Register(T),
    /// Return the stream and the address of its peer, or what failed.
    Return(Result<(S, A), E>),
}

impl<A> Accepting<A> {
    /// Tells if `event` is what comes next.
    pub open spec fn expects<T, S, E>(self, event: AcceptEvent<T, S, A, E>) -> bool {
        match event {
            AcceptEvent::Established(_) => self is Establishing,
            AcceptEvent::Registered(_) => self is Registering,
        }
    }

    /// The connection after `event`, and what has to be done next.
    ///
    /// The first step that fails ends it with its error.
    pub open spec fn reaction<T, S, E>(self, event: AcceptEvent<T, S, A, E>) -> (
        Accepting<A>,
        AcceptAction<T, S, A, E>,
    ) {
        match event {
            AcceptEvent::Established(Ok((stream, peer))) => (
                Accepting::Registering(peer),
                AcceptAction::Register(stream),
            ),
            AcceptEvent::Established(Err(error)) => (
                Accepting::Finished,
                AcceptAction::Return(Err(error)),
            ),
            AcceptEvent::Registered(Ok(stream)) => (
                Accepting::Finished,
                AcceptAction::Return(Ok((stream, self->Registering_0))),
            ),
            AcceptEvent::Registered(Err(error)) => (
                Accepting::Finished,
                AcceptAction::Return(Err(error)),
            ),
        }
    }

    /// Starts to take in a connection. The first thing to do is to wait until one is established.
    pub fn new() -> (accepting: Accepting<A>)
        ensures
            accepting == Accepting::<A>::Establishing,
    {
        Accepting::Establishing
    }

    /// Tells what happened, and learns what has to be done next.
    pub fn step<T, S, E>(self, event: AcceptEvent<T, S, A, E>) -> (next: (
        Accepting<A>,
        AcceptAction<T, S, A, E>,
    ))
        requires
            self.expects(event),
        ensures
            next == self.reaction(event),
    {
        match (self, event) {
            (_, AcceptEvent::Established(Ok((stream, peer)))) => (
                Accepting::Registering(peer),
                AcceptAction::Register(stream),
            ),
            (Accepting::Registering(peer), AcceptEvent::Registered(Ok(stream))) => (
                Accepting::Finished,
                AcceptAction::Return(Ok((stream, peer))),
            ),
            (_, AcceptEvent::Established(Err(error)))
            | (_, AcceptEvent::Registered(Err(error))) => (
                Accepting::Finished,
                AcceptAction::Return(Err(error)),
            ),
            (_, AcceptEvent::Registered(Ok(_))) => vstd::pervasive::unreached(),
        }
    }
}

/// Makes the next item of a stream of incoming connections of what came of taking one in.
///
/// The stream is infinite: it never stops, not even after an error.
pub fn incoming_item<S, A, E>(accepted: Result<(S, A), E>) -> (item: Option<Result<S, E>>)
    ensures
        item == Some(
            match accepted {
                Ok((stream, _)) => Ok::<S, E>(stream),
                Err(error) => Err(error),
            },
        ),
{
    match accepted {
        Ok((stream, _)) => Some(Ok(stream)),
        Err(error) => Some(Err(error)),
    }
}

/// What is returned of a connection that was taken in is its registered stream with the address
/// that it came with, and only if nothing failed.
pub proof fn law_accepted_with_its_peer<T, S, A, E>(
    established: Result<(T, A), E>,
    registered: Result<S, E>,
)
    ensures
        ({
            let first = Accepting::<A>::Establishing.reaction(
                AcceptEvent::<T, S, A, E>::Established(established),
            );
            match established {
                Err(error) => first.1 == AcceptAction::<T, S, A, E>::Return(Err(error)),
                Ok((stream, peer)) => {
                    let second = first.0.reaction(
                        AcceptEvent::<T, S, A, E>::Registered(registered),
                    );
                    &&& first.1 == AcceptAction::<T, S, A, E>::Register(stream)
                    &&& second.1 == AcceptAction::<T, S, A, E>::Return(
                        match registered {
                            Ok(stream) => Ok((stream, peer)),
                            Err(error) => Err(error),
                        },
                    )
                },
            }
        }),
{
}

/// The action agrees with the state that is entered, and the state waits to hear what came of the
/// action, whatever that is, and nothing else.
pub proof fn law_action_agrees_with_state<T, S, A, E>(
    accepting: Accepting<A>,
    event: AcceptEvent<T, S, A, E>,
)
    requires
        accepting.expects(event),
    ensures
        ({
            let (next, action) = accepting.reaction(event);
            &&& action is Register <==> next is Registering
            &&& action is Return <==> next is Finished
        }),
{
}

/// A connection is expected to be established first, and then its stream to be registered.
pub proof fn law_expects_result_of_action<T, S, A, E>(
    accepting: Accepting<A>,
    event: AcceptEvent<T, S, A, E>,
)
    ensures
        accepting.expects(event) <==> match accepting {
            Accepting::Establishing => event is Established,
            Accepting::Registering(_) => event is Registered,
            Accepting::Finished => false,
        },
{
}

/// The stream that was established is the one that is registered, its peer is kept meanwhile, and
/// what is returned is the registered stream with that peer, or the error of the step that failed.
pub proof fn law_stream_and_peer_are_carried_through<T, S, A, E>(
    accepting: Accepting<A>,
    event: AcceptEvent<T, S, A, E>,
)
    requires
        accepting.expects(event),
    ensures
        ({
            let (next, action) = accepting.reaction(event);
            &&& event matches AcceptEvent::Established(Ok((stream, peer))) ==> {
                &&& action == AcceptAction::<T, S, A, E>::Register(stream)
                &&& next == Accepting::Registering(peer)
            }
            &&& event matches AcceptEvent::Registered(Ok(stream)) ==> {
                &&& accepting matches Accepting::Registering(peer)
                &&& action == AcceptAction::<T, S, A, E>::Return(Ok((stream, peer)))
            }
            &&& event matches AcceptEvent::Established(Err(error)) ==> action == AcceptAction::<
                T,
                S,
                A,
                E,
            >::Return(Err(error))
            &&& event matches AcceptEvent::Registered(Err(error)) ==> action == AcceptAction::<
                T,
                S,
                A,
                E,
            >::Return(Err(error))
        }),
{
}

} // verus!
