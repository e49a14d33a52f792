//! Opening a connection.
//!
//! A connection is begun without waiting for it, its stream is registered in the reactor, and when
//! that stream becomes writable the connection either stands or has failed, which has to be found
//! out.

use vstd::prelude::*;

verus! {

/// How the outcome of a connection is found out.
#[derive(Clone, Copy, Debug, PartialEq, Eq, Structural)]
pub enum Check {
    /// Ask the stream for an error that it met while connecting.
    TakeError,
    /// Ask the stream for the address of its peer. A Unix stream may become writable even if
    /// connecting fails, and then it has no peer.
    PeerAddr,
}

/// What carries a connection.
#[derive(Clone, Copy, Debug, PartialEq, Eq, Structural)]
pub enum Transport {
    /// TCP.
    Tcp,
    /// A Unix domain socket.
    Unix,
}

impl Transport {
    /// How the outcome of a connection over this transport is found out.
    pub open spec fn spec_check(self) -> Check {
        match self {
            Transport::Tcp => Check::TakeError,
            Transport::Unix => Check::PeerAddr,
        }
    }

    /// Returns how the outcome of a connection over this transport is found out.
    pub fn check(self) -> (check: Check)
        ensures
            check == self.spec_check(),
            check == Check::TakeError <==> self == Transport::Tcp,
            check == Check::PeerAddr <==> self == Transport::Unix,
    {
        match self {
            Transport::Tcp => Check::TakeError,
            Transport::Unix => Check::PeerAddr,
        }
    }
}

/// What came of a check.
#[derive(Debug)]
pub enum Checked<E> {
    /// The stream was asked for an error: it met this one, or none.
    Error(Result<Option<E>, E>),
    /// The stream was asked for the address of its peer, and has one or not.
    PeerAddr(Result<(), E>),
}

impl<E> Checked<E> {
    /// Tells if this is what came of `check`.
    pub open spec fn answers(self, check: Check) -> bool {
        match self {
            Checked::Error(_) => check == Check::TakeError,
            Checked::PeerAddr(_) => check == Check::PeerAddr,
        }
    }

    /// Why the connection failed, if it did: the check failed, or it brought up an error.
    pub open spec fn failure(self) -> Option<E> {
        match self {
            Checked::Error(Ok(met)) => met,
            Checked::Error(Err(error)) => Some(error),
            Checked::PeerAddr(Ok(_)) => None,
            Checked::PeerAddr(Err(error)) => Some(error),
        }
    }
}

/// A connection that is being opened. `S` is a stream that is registered in the reactor.
#[derive(Debug)]
pub enum Connecting<S> {
    /// The connection is to be begun.
    Beginning,
    /// The stream is to be registered.
    Registering,
    /// The stream is to become writable.
    Waiting(S),
    /// The stream is to be checked.
    Checking(S),
    /// The connection stands, or has failed.
    Finished,
}

/// What happened. `T` is a stream that is not registered.
#[derive(Debug)]
pub enum ConnectEvent<T, S, E> {
    /// The connection was begun.
    Begun(Result<T, E>),
    /// The stream was registered.
    Registered(Result<S, E>),
    /// The stream became writable.
    Writable(Result<(), E>),
    /// The stream was checked.
    Checked(Checked<E>),
}

/// What has to be done next.
#[derive(Debug)]
pub enum ConnectAction<T, S, E> {
    /// Register this stream.
    Register(T),
    /// Wait until the stream that is [waiting](Connecting::Waiting) becomes writable.
    Wait,
    /// Check the stream that is [being checked](Connecting::Checking).
    Check(Check),
    /// Return the stream of the connection, or why it failed.
    Return(Result<S, E>),
}

impl<S> Connecting<S> {
    /// Tells if `event` is what comes next.
    pub open spec fn expects<T, E>(self, check: Check, event: ConnectEvent<T, S, E>) -> bool {
        match event {
            ConnectEvent::Begun(_) => self is Beginning,
            ConnectEvent::Registered(_) => self is Registering,
            ConnectEvent::Writable(_) => self is Waiting,
            ConnectEvent::Checked(checked) => self is Checking && checked.answers(check),
        }
    }

    /// The stream of the connection, once it is registered.
    pub open spec fn spec_stream(self) -> Option<S> {
        match self {
            Connecting::Waiting(stream) => Some(stream),
            Connecting::Checking(stream) => Some(stream),
            _ => None,
        }
    }

    /// The connection after `event`, and what has to be done next.
    ///
    /// The first step that fails ends the connection with its error.
    pub open spec fn reaction<T, E>(self, check: Check, event: ConnectEvent<T, S, E>) -> (
        Connecting<S>,
        ConnectAction<T, S, E>,
    ) {
        match event {
            ConnectEvent::Begun(Ok(stream)) => (
                Connecting::Registering,
                ConnectAction::Register(stream),
            ),
            ConnectEvent::Begun(Err(error)) => (
                Connecting::Finished,
                ConnectAction::Return(Err(error)),
            ),
            ConnectEvent::Registered(Ok(stream)) => (
                Connecting::Waiting(stream),
                ConnectAction::Wait,
            ),
            ConnectEvent::Registered(Err(error)) => (
                Connecting::Finished,
                ConnectAction::Return(Err(error)),
            ),
            ConnectEvent::Writable(Ok(_)) => (
                Connecting::Checking(self.spec_stream()->0),
                ConnectAction::Check(check),
            ),
            ConnectEvent::Writable(Err(error)) => (
                Connecting::Finished,
                ConnectAction::Return(Err(error)),
            ),
            ConnectEvent::Checked(checked) => (
                Connecting::Finished,
                ConnectAction::Return(
                    match checked.failure() {
                        None => Ok(self.spec_stream()->0),
                        Some(error) => Err(error),
                    },
                ),
            ),
        }
    }

    /// Starts to open a connection. The first thing to do is to begin it.
    pub fn new() -> (connecting: Connecting<S>)
        ensures
            connecting == Connecting::<S>::Beginning,
    {
        Connecting::Beginning
    }

    /// Returns the stream of the connection, once it is registered.
    pub fn stream(&self) -> (stream: Option<&S>)
        ensures
            match stream {
                Some(stream) => self.spec_stream() == Some(*stream),
                None => self.spec_stream() is None,
            },
    {
        match self {
            Connecting::Waiting(stream) => Some(stream),
            Connecting::Checking(stream) => Some(stream),
            _ => None,
        }
    }

    /// Tells the connection what happened, and learns what has to be done next.
    pub fn step<T, E>(self, check: Check, event: ConnectEvent<T, S, E>) -> (next: (
        Connecting<S>,
        ConnectAction<T, S, E>,
    ))
        requires
            self.expects(check, event),
        ensures
            next == self.reaction(check, event),
    {
        match (self, event) {
            (_, ConnectEvent::Begun(Ok(stream))) => (
                Connecting::Registering,
                ConnectAction::Register(stream),
            ),
            (_, ConnectEvent::Registered(Ok(stream))) => (
                Connecting::Waiting(stream),
                ConnectAction::Wait,
            ),
            (Connecting::Waiting(stream), ConnectEvent::Writable(Ok(_))) => (
                Connecting::Checking(stream),
                ConnectAction::Check(check),
            ),
            (Connecting::Checking(stream), ConnectEvent::Checked(checked)) => {
                let result = match checked {
                    Checked::Error(Ok(None)) | Checked::PeerAddr(Ok(_)) => Ok(stream),
                    Checked::Error(Ok(Some(error)))
                    | Checked::Error(Err(error))
                    | Checked::PeerAddr(Err(error)) => Err(error),
                };
                (Connecting::Finished, ConnectAction::Return(result))
            },
            (_, ConnectEvent::Begun(Err(error)))
            | (_, ConnectEvent::Registered(Err(error)))
            | (_, ConnectEvent::Writable(Err(error))) => (
                Connecting::Finished,
                ConnectAction::Return(Err(error)),
            ),
            (_, ConnectEvent::Writable(Ok(_))) | (_, ConnectEvent::Checked(_)) => {
                vstd::pervasive::unreached()
            },
        }
    }
}

/// What opening a connection returns if its steps go as said: the first step that fails decides.
pub open spec fn outcome<T, S, E>(
    begun: Result<T, E>,
    registered: Result<S, E>,
    writable: Result<(), E>,
    checked: Checked<E>,
) -> Result<S, E> {
    match (begun, registered, writable, checked.failure()) {
        (Err(error), _, _, _) => Err(error),
        (_, Err(error), _, _) => Err(error),
        (_, _, Err(error), _) => Err(error),
        (_, _, _, Some(error)) => Err(error),
        (_, Ok(stream), _, None) => Ok(stream),
    }
}

/// Opening a connection returns the stream that was registered exactly if no step fails, and
/// otherwise the error of the first step that does; no step is taken after that one.
pub proof fn law_first_failure_decides<T, S, E>(
    check: Check,
    begun: Result<T, E>,
    registered: Result<S, E>,
    writable: Result<(), E>,
    checked: Checked<E>,
)
    requires
        checked.answers(check),
    ensures
        ({
            let answer = ConnectAction::<T, S, E>::Return(
                outcome(begun, registered, writable, checked),
            );
            let first = Connecting::<S>::Beginning.reaction(
                check,
                ConnectEvent::<T, S, E>::Begun(begun),
            );
            let second = first.0.reaction(check, ConnectEvent::<T, S, E>::Registered(registered));
            let third = second.0.reaction(check, ConnectEvent::<T, S, E>::Writable(writable));
            let fourth = third.0.reaction(check, ConnectEvent::<T, S, E>::Checked(checked));
            if begun is Err {
                first.0 is Finished && first.1 == answer
            } else if registered is Err {
                &&& first.1 == ConnectAction::<T, S, E>::Register(begun->Ok_0)
                &&& second.0 is Finished && second.1 == answer
            } else if writable is Err {
                second.1 is Wait && third.0 is Finished && third.1 == answer
            } else {
                &&& second.1 is Wait
                &&& third.1 == ConnectAction::<T, S, E>::Check(check)
                &&& fourth.0 is Finished && fourth.1 == answer
            }
        }),
{
}

/// A check fails the connection exactly if it brings up an error: one that the stream met, one of
/// asking for it, or one of asking for the peer. That error is the reason.
pub proof fn law_check_fails_by_its_error<E>(checked: Checked<E>, check: Check)
    ensures
        checked.failure() is None <==> (checked matches Checked::Error(Ok(None))) || (
        checked matches Checked::PeerAddr(Ok(_))),
        checked matches Checked::Error(Ok(Some(error))) ==> checked.failure() == Some(error),
        checked matches Checked::Error(Err(error)) ==> checked.failure() == Some(error),
        checked matches Checked::PeerAddr(Err(error)) ==> checked.failure() == Some(error),
        checked.answers(check) <==> (checked is Error <==> check == Check::TakeError),
{
}

/// The action agrees with the state that is entered: a stream that is to be registered is waited
/// for as registered, one that is to become writable or to be checked is the one at hand.
pub proof fn law_action_agrees_with_state<T, S, E>(
    connecting: Connecting<S>,
    check: Check,
    event: ConnectEvent<T, S, E>,
)
    requires
        connecting.expects(check, event),
    ensures
        ({
            let (next, action) = connecting.reaction(check, event);
            &&& action is Register <==> next is Registering
            &&& action is Wait <==> next is Waiting
            &&& action is Check <==> next is Checking
            &&& action is Return <==> next is Finished
            &&& !(next is Beginning)
        }),
{
}

/// A connection that asked for a step expects to hear what came of it, whatever that is, and
/// nothing else.
pub proof fn law_expects_result_of_action<T, S, E>(
    connecting: Connecting<S>,
    check: Check,
    next: ConnectEvent<T, S, E>,
)
    ensures
        connecting.expects(check, next) <==> match connecting {
            Connecting::Beginning => next is Begun,
            Connecting::Registering => next is Registered,
            Connecting::Waiting(_) => next is Writable,
            Connecting::Checking(_) => next matches ConnectEvent::Checked(checked) && (
            checked is Error <==> check == Check::TakeError),
            Connecting::Finished => false,
        },
{
}

/// Each step that succeeds leads to the next one, with the same stream: what was begun is what is
/// registered, what was registered is what is waited for, checked and returned.
pub proof fn law_stream_is_carried_through<T, S, E>(
    connecting: Connecting<S>,
    check: Check,
    event: ConnectEvent<T, S, E>,
)
    requires
        connecting.expects(check, event),
    ensures
        ({
            let (next, action) = connecting.reaction(check, event);
            &&& event matches ConnectEvent::Begun(Ok(stream)) ==> action == ConnectAction::<
                T,
                S,
                E,
            >::Register(stream)
            &&& event matches ConnectEvent::Registered(Ok(stream)) ==> next
                == Connecting::Waiting(stream) && action is Wait
            &&& event matches ConnectEvent::Writable(Ok(_)) ==> {
                &&& connecting matches Connecting::Waiting(stream)
                &&& next == Connecting::Checking(stream)
                &&& action == ConnectAction::<T, S, E>::Check(check)
            }
            &&& action matches ConnectAction::Return(Ok(returned)) ==> {
                &&& connecting == Connecting::Checking(returned)
                &&& event is Checked
            }
        }),
{
}

/// Each step that fails ends the connection with its own error, and a connection fails in no other
/// way: one whose stream is writable and whose check brings up no error stands.
pub proof fn law_failure_is_returned<T, S, E>(
    connecting: Connecting<S>,
    check: Check,
    event: ConnectEvent<T, S, E>,
)
    requires
        connecting.expects(check, event),
    ensures
        ({
            let action = connecting.reaction(check, event).1;
            &&& action is Return <==> match event {
                ConnectEvent::Begun(begun) => begun is Err,
                ConnectEvent::Registered(registered) => registered is Err,
                ConnectEvent::Writable(writable) => writable is Err,
                ConnectEvent::Checked(_) => true,
            }
            &&& action matches ConnectAction::Return(Err(error)) ==> match event {
                ConnectEvent::Begun(begun) => begun == Err::<T, E>(error),
                ConnectEvent::Registered(registered) => registered == Err::<S, E>(error),
                ConnectEvent::Writable(writable) => writable == Err::<(), E>(error),
                ConnectEvent::Checked(Checked::Error(Ok(met))) => met == Some(error),
                ConnectEvent::Checked(Checked::Error(Err(failed))) => failed == error,
                ConnectEvent::Checked(Checked::PeerAddr(peer)) => peer == Err::<(), E>(error),
            }
            &&& event matches ConnectEvent::Checked(checked) ==> {
                action matches ConnectAction::Return(result) && (result is Ok <==> (
                checked matches Checked::Error(Ok(None))) || (
                checked matches Checked::PeerAddr(Ok(_))))
            }
        }),
{
}

/// The stream at hand is the one that is registered, while it is waited for or checked.
pub proof fn law_stream_at_hand<S>(connecting: Connecting<S>, stream: S)
    ensures
        connecting.spec_stream() == Some(stream) <==> connecting == Connecting::Waiting(stream)
            || connecting == Connecting::Checking(stream),
{
}

} // verus!
