//! One poll of an operation that reads, writes, flushes or closes.
//!
//! A poll first decides whether to yield (see [`crate::fairness`]), then tries the operation, and
//! if that would block registers the task in the reactor to be woken when the handle is ready.

use vstd::prelude::*;

use crate::error::{is_final, returned, settle, Error, ErrorKind};
use crate::fairness::Yield;
use crate::retry::Direction;

verus! {

/// An operation that is asked for.
#[derive(Clone, Copy, Debug, PartialEq, Eq, Structural)]
pub enum Operation {
    /// Read into a buffer.
    Read,
    /// Read into several buffers.
    ReadVectored,
    /// Write a buffer.
    Write,
    /// Write several buffers.
    WriteVectored,
    /// Flush what was written.
    Flush,
    /// Close the write side.
    Close,
}

impl Operation {
    /// The operation that is performed on the handle: closing the write side simply flushes.
    pub open spec fn spec_performed(self) -> Operation {
        if self == Operation::Close {
            Operation::Flush
        } else {
            self
        }
    }

    /// What the handle has to be ready for before the operation can go on.
    pub open spec fn spec_direction(self) -> Direction {
        if self == Operation::Read || self == Operation::ReadVectored {
            Direction::Read
        } else {
            Direction::Write
        }
    }

    /// Returns the operation that is performed on the handle.
    pub fn performed(self) -> (operation: Operation)
        ensures
            operation == self.spec_performed(),
            self == Operation::Close ==> operation == Operation::Flush,
            self != Operation::Close ==> operation == self,
    {
        match self {
            Operation::Close => Operation::Flush,
            operation => operation,
        }
    }

    /// Returns what the handle has to be ready for before the operation can go on.
    pub fn direction(self) -> (direction: Direction)
        ensures
            direction == self.spec_direction(),
            direction == Direction::Read <==> self == Operation::Read || self
                == Operation::ReadVectored,
    {
        match self {
            Operation::Read | Operation::ReadVectored => Direction::Read,
            Operation::Write | Operation::WriteVectored | Operation::Flush | Operation::Close => {
                Direction::Write
            },
        }
    }
}

/// What a poll waits to hear of.
#[derive(Clone, Copy, Debug, PartialEq, Eq, Structural)]
pub enum PollPhase {
    /// Whether to yield.
    Yielding,
    /// The attempt.
    Attempting,
    /// The registration of the task.
    Registering,
    /// Nothing: the poll has returned.
    Finished,
}

/// What happened.
#[derive(Debug)]
pub enum PollEvent<R, E> {
    /// It was decided whether to yield.
    Decided(Yield),
    /// The operation was tried, with this outcome.
    Attempted(Result<R, Error<E>>),
    /// The task was registered to be woken when the handle is ready, or that failed.
    Registered(Result<(), E>),
}

/// What has to be done next.
#[derive(Debug)]
pub enum PollAction<R, E> {
    /// Wake the task at once, and return without a result.
    Wake,
    /// Try this operation on the handle.
    Attempt(Operation),
    /// Register the task to be woken when the handle is ready.
    Register(Direction),
    /// Return without a result.
    Pending,
    /// Return this result.
    Ready(Result<R, E>),
}

impl PollPhase {
    /// Tells if `event` is what a poll in this phase waits to hear of.
    pub open spec fn expects<R, E>(self, event: PollEvent<R, E>) -> bool {
        match event {
            PollEvent::Decided(_) => self == PollPhase::Yielding,
            PollEvent::Attempted(_) => self == PollPhase::Attempting,
            PollEvent::Registered(_) => self == PollPhase::Registering,
        }
    }
}

/// The phase of a poll after an event that it expected, and what has to be done next.
pub open spec fn reaction<R, E>(operation: Operation, event: PollEvent<R, E>) -> (
    PollPhase,
    PollAction<R, E>,
) {
    match event {
        PollEvent::Decided(Yield::Now) => (PollPhase::Finished, PollAction::Wake),
        PollEvent::Decided(Yield::Not) => (
            PollPhase::Attempting,
            PollAction::Attempt(operation.spec_performed()),
        ),
        PollEvent::Attempted(outcome) => if is_final(outcome) {
            (PollPhase::Finished, PollAction::Ready(returned(outcome)))
        } else {
            (PollPhase::Registering, PollAction::Register(operation.spec_direction()))
        },
        PollEvent::Registered(Ok(_)) => (PollPhase::Finished, PollAction::Pending),
        PollEvent::Registered(Err(error)) => (
            PollPhase::Finished,
            PollAction::Ready(Err(error)),
        ),
    }
}

/// One poll of an operation.
#[derive(Debug)]
pub struct PollIo {
    operation: Operation,
    phase: PollPhase,
}

impl PollIo {
    /// The operation that was asked for.
    pub closed spec fn operation(&self) -> Operation {
        self.operation
    }

    /// What the poll waits to hear of.
    pub closed spec fn phase(&self) -> PollPhase {
        self.phase
    }

    /// Starts a poll. The first thing to do is to decide whether to yield.
    pub fn new(operation: Operation) -> (poll: PollIo)
        ensures
            poll.operation() == operation,
            poll.phase() == PollPhase::Yielding,
    {
        PollIo { operation, phase: PollPhase::Yielding }
    }

    /// Tells the poll what happened, and learns what has to be done next.
    pub fn step<R, E>(&mut self, event: PollEvent<R, E>) -> (action: PollAction<R, E>)
        requires
            old(self).phase().expects(event),
        ensures
            final(self).operation() == old(self).operation(),
            (final(self).phase(), action) == reaction(old(self).operation(), event),
    {
        match event {
            PollEvent::Decided(Yield::Now) => {
                self.phase = PollPhase::Finished;
                PollAction::Wake
            },
            PollEvent::Decided(Yield::Not) => {
                self.phase = PollPhase::Attempting;
                PollAction::Attempt(self.operation.performed())
            },
            PollEvent::Attempted(outcome) => match settle(outcome) {
                Some(result) => {
                    self.phase = PollPhase::Finished;
                    PollAction::Ready(result)
                },
                None => {
                    self.phase = PollPhase::Registering;
                    PollAction::Register(self.operation.direction())
                },
            },
            PollEvent::Registered(Ok(_)) => {
                self.phase = PollPhase::Finished;
                PollAction::Pending
            },
            PollEvent::Registered(Err(error)) => {
                self.phase = PollPhase::Finished;
                PollAction::Ready(Err(error))
            },
        }
    }
}

/// The phase of a poll that has heard of `events`, from its start.
pub open spec fn phase_after<R, E>(operation: Operation, events: Seq<PollEvent<R, E>>) -> PollPhase {
    if events.len() == 0 {
        PollPhase::Yielding
    } else {
        reaction(operation, events.last()).0
    }
}

/// Tells if a poll hears of `events` in an order in which it expects them.
pub open spec fn is_history<R, E>(operation: Operation, events: Seq<PollEvent<R, E>>) -> bool
    decreases events.len(),
{
    events.len() > 0 ==> {
        &&& is_history(operation, events.drop_last())
        &&& phase_after(operation, events.drop_last()).expects(events.last())
    }
}

/// A poll returns after three events at most, and goes through its phases in order: it is decided
/// not to yield before the operation is tried, and the task is only registered if that would
/// block.
pub proof fn law_order_of_events<R, E>(operation: Operation, events: Seq<PollEvent<R, E>>)
    requires
        is_history(operation, events),
    ensures
        events.len() <= 3,
        events.len() == 3 ==> phase_after(operation, events) == PollPhase::Finished,
        events.len() > 0 ==> events[0] is Decided,
        events.len() > 1 ==> {
            &&& events[0] == PollEvent::<R, E>::Decided(Yield::Not)
            &&& events[1] is Attempted
        },
        events.len() > 2 ==> {
            &&& events[1] matches PollEvent::Attempted(outcome) && !is_final(outcome)
            &&& events[2] is Registered
        },
    decreases events.len(),
{
    if events.len() > 0 {
        let before = events.drop_last();
        law_order_of_events(operation, before);
        if before.len() > 0 {
            assert(before[0] == events[0]);
            assert(before.last() == events[before.len() - 1]);
        }
        if before.len() > 1 {
            assert(before[1] == events[1]);
        }
    }
}

/// No wakeup is lost: a poll that returns without a result has woken the task at once, or has
/// registered it to be woken when the handle is ready for the operation.
pub proof fn law_pending_task_is_woken<R, E>(operation: Operation, events: Seq<PollEvent<R, E>>)
    requires
        events.len() > 0,
        is_history(operation, events),
        phase_after(operation, events) == PollPhase::Finished,
        !(reaction(operation, events.last()).1 is Ready),
    ensures
        ({
            ||| {
                &&& events =~= seq![PollEvent::<R, E>::Decided(Yield::Now)]
                &&& reaction(operation, events.last()).1 is Wake
            }
            ||| {
                &&& events.len() == 3
                &&& reaction(operation, events[1]).1 == PollAction::<R, E>::Register(
                    operation.spec_direction(),
                )
                &&& events[2] matches PollEvent::Registered(Ok(_))
                &&& reaction(operation, events.last()).1 is Pending
            }
        }),
{
    law_order_of_events(operation, events);
}

/// A poll that returns a result returns that of the attempt, unless the attempt would block and
/// the task could not be registered: then it returns that error.
pub proof fn law_result_of_poll<R, E>(operation: Operation, events: Seq<PollEvent<R, E>>)
    requires
        events.len() > 0,
        is_history(operation, events),
        reaction(operation, events.last()).1 is Ready,
    ensures
        events.len() >= 2,
        events[1] matches PollEvent::Attempted(outcome) && if is_final(outcome) {
            &&& events.len() == 2
            &&& reaction(operation, events.last()).1 == PollAction::<R, E>::Ready(
                returned(outcome),
            )
        } else {
            &&& events.len() == 3
            &&& events[2] matches PollEvent::Registered(Err(error))
            &&& reaction(operation, events.last()).1 == PollAction::<R, E>::Ready(Err(error))
        },
{
    law_order_of_events(operation, events);
}

/// Closing the write side is flushing it, in everything that is done and returned.
pub proof fn law_close_flushes<R, E>(event: PollEvent<R, E>)
    ensures
        reaction(Operation::Close, event) == reaction(Operation::Flush, event),
{
}

/// The action agrees with the phase that is entered: what a poll asks for is what it then waits to
/// hear of, and it returns when it says so.
pub proof fn law_action_agrees_with_phase<R, E>(operation: Operation, event: PollEvent<R, E>)
    ensures
        ({
            let (phase, action) = reaction(operation, event);
            &&& action is Attempt <==> phase == PollPhase::Attempting
            &&& action is Register <==> phase == PollPhase::Registering
            &&& action is Wake || action is Pending || action is Ready <==> phase
                == PollPhase::Finished
        }),
{
}

/// A poll that asked for something expects to hear what came of it, whatever that is, and nothing
/// else; one that has returned expects nothing.
pub proof fn law_expects_result_of_action<R, E>(
    operation: Operation,
    event: PollEvent<R, E>,
    next: PollEvent<R, E>,
)
    ensures
        ({
            let (phase, action) = reaction(operation, event);
            phase.expects(next) <==> match action {
                PollAction::Attempt(_) => next is Attempted,
                PollAction::Register(_) => next is Registered,
                _ => false,
            }
        }),
        PollPhase::Yielding.expects(next) <==> next is Decided,
        PollPhase::Attempting.expects(next) <==> next is Attempted,
        PollPhase::Registering.expects(next) <==> next is Registered,
        !PollPhase::Finished.expects(next),
{
}

/// The operation is tried exactly on the decision not to yield, whichever it is, and the one tried
/// is the one asked for, but for closing, which flushes. The task is woken at once exactly on the
/// decision to yield.
pub proof fn law_decision_is_carried_out<R, E>(operation: Operation, event: PollEvent<R, E>)
    ensures
        reaction(operation, event).1 is Attempt <==> (event matches PollEvent::Decided(decision)
            && decision == Yield::Not),
        reaction(operation, event).1 matches PollAction::Attempt(tried) ==> {
            &&& operation != Operation::Close ==> tried == operation
            &&& operation == Operation::Close ==> tried == Operation::Flush
        },
        reaction(operation, event).1 is Wake <==> (event matches PollEvent::Decided(decision)
            && decision == Yield::Now),
{
}

/// The task is registered exactly after an attempt that would block: as a reader by a read, as a
/// writer by everything else.
pub proof fn law_registers_only_after_blocking<R, E>(operation: Operation, event: PollEvent<R, E>)
    ensures
        reaction(operation, event).1 is Register <==> (event matches PollEvent::Attempted(outcome)
            && outcome is Err && outcome->Err_0.kind == ErrorKind::WouldBlock),
        reaction(operation, event).1 matches PollAction::Register(direction) ==> {
            direction == Direction::Read <==> operation == Operation::Read || operation
                == Operation::ReadVectored
        },
{
}

/// A poll returns without a result and without waking the task exactly after the task was
/// registered.
pub proof fn law_pending_only_after_registration<R, E>(
    operation: Operation,
    event: PollEvent<R, E>,
)
    ensures
        reaction(operation, event).1 is Pending <==> (event matches PollEvent::Registered(Ok(_))),
        reaction(operation, event).1 is Pending ==> reaction(operation, event).0
            == PollPhase::Finished,
{
}

/// A poll returns what the operation came to, or the error of a registration, unchanged.
pub proof fn law_returns_what_came<R, E>(operation: Operation, event: PollEvent<R, E>)
    ensures
        event matches PollEvent::Attempted(Ok(value)) ==> reaction(operation, event).1
            == PollAction::<R, E>::Ready(Ok(value)),
        event matches PollEvent::Attempted(Err(error)) ==> error.kind != ErrorKind::WouldBlock
            ==> reaction(operation, event).1 == PollAction::<R, E>::Ready(Err(error.error)),
        event matches PollEvent::Registered(Err(error)) ==> reaction(operation, event).1
            == PollAction::<R, E>::Ready(Err(error)),
        reaction(operation, event).1 is Ready ==> event is Attempted || event is Registered,
{
}

/// Operations differ in what is tried and in what the handle has to be ready for, and in nothing
/// else: what a poll makes of an outcome does not depend on the operation.
pub proof fn law_operations_are_polled_alike<R, E>(
    operation: Operation,
    other: Operation,
    event: PollEvent<R, E>,
)
    ensures
        reaction(operation, event).0 == reaction(other, event).0,
        reaction(operation, event).1 is Attempt <==> reaction(other, event).1 is Attempt,
        reaction(operation, event).1 is Register <==> reaction(other, event).1 is Register,
        !(reaction(operation, event).1 is Attempt) && !(reaction(operation, event).1 is Register)
            ==> reaction(operation, event).1 == reaction(other, event).1,
{
}

/// Whatever operation is polled, and whatever comes of it, the operation has been tried if the poll
/// did not yield: a poll that is over without having been tried has woken the task.
pub proof fn law_tried_unless_yielded<R, E>(operation: Operation, events: Seq<PollEvent<R, E>>)
    requires
        events.len() > 0,
        is_history(operation, events),
        phase_after(operation, events) == PollPhase::Finished,
    ensures
        events.len() == 1 ==> {
            &&& events[0] == PollEvent::<R, E>::Decided(Yield::Now)
            &&& reaction(operation, events[0]).1 is Wake
        },
        events.len() > 1 ==> {
            &&& reaction(operation, events[0]).1 matches PollAction::Attempt(tried)
            &&& tried == operation || (operation == Operation::Close && tried == Operation::Flush)
            &&& events[1] is Attempted
        },
{
    law_order_of_events(operation, events);
}

/// What [`PollIo::step`] asks for agrees with what happened and with the phase that the poll is
/// then in, for every operation: it asks to try the operation exactly on the decision not to yield,
/// to register the task exactly after an attempt that would block, and it returns without a result
/// only after the task was woken or registered.
pub proof fn law_step_asks_for_what_comes_next<R, E>(
    poll: &mut PollIo,
    event: PollEvent<R, E>,
    action: PollAction<R, E>,
)
    requires
        call_ensures(PollIo::step::<R, E>, (poll, event), action),
    ensures
        final(poll).operation() == old(poll).operation(),
        match action {
            PollAction::Wake => {
                &&& final(poll).phase() == PollPhase::Finished
                &&& event == PollEvent::<R, E>::Decided(Yield::Now)
            },
            PollAction::Attempt(tried) => {
                &&& final(poll).phase() == PollPhase::Attempting
                &&& event == PollEvent::<R, E>::Decided(Yield::Not)
                &&& old(poll).operation() != Operation::Close ==> tried == old(poll).operation()
                &&& old(poll).operation() == Operation::Close ==> tried == Operation::Flush
            },
            PollAction::Register(direction) => {
                &&& final(poll).phase() == PollPhase::Registering
                &&& direction == Direction::Read <==> old(poll).operation() == Operation::Read
                    || old(poll).operation() == Operation::ReadVectored
                &&& event matches PollEvent::Attempted(Err(error))
                &&& error.kind == ErrorKind::WouldBlock
            },
            PollAction::Pending => {
                &&& final(poll).phase() == PollPhase::Finished
                &&& event matches PollEvent::Registered(Ok(_))
            },
            PollAction::Ready(result) => {
                &&& final(poll).phase() == PollPhase::Finished
                &&& match event {
                    PollEvent::Attempted(Ok(value)) => result == Ok::<R, E>(value),
                    PollEvent::Attempted(Err(error)) => {
                        &&& error.kind != ErrorKind::WouldBlock
                        &&& result == Err::<R, E>(error.error)
                    },
                    PollEvent::Registered(Err(error)) => result == Err::<R, E>(error),
                    _ => false,
                }
            },
        },
{
}

} // verus!
