//! Handles of the operating system that are registered in the reactor.

use vstd::prelude::*;

verus! {

/// The operating system's name for an open handle.
#[derive(Clone, Copy, Debug, PartialEq, Eq, Structural)]
pub enum RawHandle {
    /// A file descriptor.
    Fd(i32),
    /// A Windows socket.
    Socket(u64),
}

/// A handle as the reactor knows it.
#[derive(Clone, Copy, Debug, PartialEq, Eq, Structural)]
pub struct Source {
    /// The handle that was registered.
    pub raw: RawHandle,
}

/// A handle that has left its adapter, and the source that has to be deregistered for it.
///
/// The handle is closed when it is dropped, so the source is to be deregistered first.
#[derive(Debug)]
pub struct Detached<T> {
    /// The handle.
    pub io: T,
    /// The source to deregister.
    pub source: Source,
}

impl<T> Detached<T> {
    /// Hands out the handle once its source was deregistered.
    ///
    /// `removed` tells how that went. If it failed the handle is closed and the error returned.
    pub fn into_inner<E>(self, removed: Result<(), E>) -> (io: Result<T, E>)
        ensures
            io == (match removed {
                Ok(_) => Ok::<T, E>(self.io),
                Err(error) => Err(error),
            }),
    {
        match removed {
            Ok(_) => Ok(self.io),
            Err(error) => Err(error),
        }
    }
}

/// What an adapter holds: the abstract state of an [`Async`].
pub struct AsyncState<T> {
    /// The source that was registered for the handle.
    pub source: Source,
    /// The handle, until it leaves the adapter.
    pub io: Option<T>,
}

impl<T> AsyncState<T> {
    /// The adapter after its handle has left it.
    pub open spec fn closed(self) -> AsyncState<T> {
        AsyncState { source: self.source, io: None }
    }

    /// What a handle that leaves the adapter takes with it; nothing if it has left already.
    pub open spec fn detached(self) -> Option<Detached<T>> {
        match self.io {
            Some(io) => Some(Detached { io, source: self.source }),
            None => None,
        }
    }
}

/// Async adapter for I/O handles.
///
/// It holds a handle in non-blocking mode whose source is registered in the reactor.
#[derive(Debug)]
pub struct Async<T> {
    /// The source registered in the reactor.
    source: Source,
    /// The inner I/O handle.
    io: Option<T>,
}

impl<T> View for Async<T> {
    type V = AsyncState<T>;

    closed spec fn view(&self) -> AsyncState<T> {
        AsyncState { source: self.source, io: self.io }
    }
}

impl<T> Async<T> {
    /// Tells if the handle is still in the adapter.
    pub open spec fn is_open(&self) -> bool {
        self@.io is Some
    }

    /// Creates an async I/O handle.
    ///
    /// `registered` tells how the registration of the handle in the reactor went. If it failed
    /// the handle is closed and the error returned.
    pub fn new<E>(io: T, registered: Result<Source, E>) -> (handle: Result<Async<T>, E>)
        ensures
            match (registered, handle) {
                (Ok(source), Ok(handle)) => handle@ == (AsyncState { source, io: Some(io) }),
                (Err(error), Err(returned)) => returned == error,
                _ => false,
            },
    {
        match registered {
            Ok(source) => Ok(Async { source, io: Some(io) }),
            Err(error) => Err(error),
        }
    }

    /// Returns the source that is registered for the handle.
    pub fn source(&self) -> (source: Source)
        ensures
            source == self@.source,
    {
        self.source
    }

    /// Gets a reference to the inner I/O handle.
    pub fn get_ref(&self) -> (io: &T)
        requires
            self.is_open(),
        ensures
            Some(*io) == self@.io,
    {
        self.io.as_ref().unwrap()
    }

    /// Gets a mutable reference to the inner I/O handle.
    pub fn get_mut(&mut self) -> (io: &mut T)
        requires
            old(self).is_open(),
        ensures
            Some(*io) == old(self)@.io,
            final(self)@ == (AsyncState { source: old(self)@.source, io: Some(*final(io)) }),
    {
        self.io.as_mut().unwrap()
    }

    /// Takes the handle out of the adapter, with the source that has to be deregistered for it.
    ///
    /// This is the first step of unwrapping the handle, after which [`Detached::into_inner`]
    /// hands it out, and all that is to be done when the adapter goes out of use. Only the first
    /// call returns anything, so the source is deregistered once.
    pub fn detach(&mut self) -> (detached: Option<Detached<T>>)
        ensures
            final(self)@ == old(self)@.closed(),
            detached == old(self)@.detached(),
            final(self)@.io is None,
            final(self)@.source == old(self)@.source,
            old(self)@.io matches Some(io) ==> detached == Some(
                Detached { io, source: old(self)@.source },
            ),
            old(self)@.io is None ==> detached is None,
    {
        match self.io.take() {
            Some(io) => Some(Detached { io, source: self.source }),
            None => None,
        }
    }
}

/// How many sources `n` calls of [`Async::detach`] in a row ask to deregister.
pub open spec fn deregistrations<T>(handle: AsyncState<T>, n: nat) -> nat
    decreases n,
{
    if n == 0 {
        0
    } else {
        deregistrations(handle.closed(), (n - 1) as nat) + if handle.detached() is Some {
            1nat
        } else {
            0nat
        }
    }
}

/// However often an adapter is emptied, its source is deregistered once and no more: unwrapping
/// the handle first leaves nothing to do when the adapter goes out of use.
pub proof fn law_deregistered_once<T>(handle: AsyncState<T>, n: nat)
    requires
        handle.io is Some,
        n > 0,
    ensures
        handle.detached() matches Some(detached) && detached.source == handle.source,
        deregistrations(handle, n) == 1,
{
    lemma_closed_stays_closed(handle.closed(), (n - 1) as nat);
}

proof fn lemma_closed_stays_closed<T>(handle: AsyncState<T>, n: nat)
    requires
        handle.io is None,
    ensures
        deregistrations(handle, n) == 0,
    decreases n,
{
    if n > 0 {
        lemma_closed_stays_closed(handle.closed(), (n - 1) as nat);
    }
}

/// An adapter hands out the handle that it was created with, and deregisters the source that was
/// registered for it.
pub proof fn law_handle_comes_back<T>(io: T, source: Source)
    ensures
        (AsyncState { source, io: Some(io) }).detached() == Some(Detached { io, source }),
{
}

/// A handle can be taken out exactly while it is in the adapter, it comes out with the adapter's
/// own source, and then it is no longer there.
pub proof fn law_handle_leaves_with_its_source<T>(handle: AsyncState<T>)
    ensures
        handle.detached() is Some <==> handle.io is Some,
        handle.detached() matches Some(detached) ==> {
            &&& handle.io == Some(detached.io)
            &&& detached.source == handle.source
        },
        handle.closed().io is None,
        handle.closed().source == handle.source,
        handle.closed().detached() is None,
{
}

/// An adapter is open exactly while the handle is in it.
pub proof fn law_open_while_the_handle_is_in<T>(handle: Async<T>)
    ensures
        handle.is_open() <==> handle@.io is Some,
{
}

} // verus!
