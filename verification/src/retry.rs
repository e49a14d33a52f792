//! Repeating an operation until it no longer would block.
//!
//! An operation on a handle in non-blocking mode is tried in a loop until it succeeds or returns
//! an error other than that it would block. Before each attempt the loop decides whether to yield
//! (see [`crate::fairness`]), and between two attempts it waits until the handle is ready (see
//! [`crate::optimistic`]). The loop is a future: it does nothing until it is polled, and whenever
//! it is suspended it goes on when it is polled again.

use vstd::prelude::*;

use crate::error::{is_final, returned, settle, Error, ErrorKind};
use crate::fairness::Yield;
use crate::optimistic::{Optimistic, OptimisticPoll};

verus! {

/// What a handle has to be ready for.
#[derive(Clone, Copy, Debug, PartialEq, Eq, Structural)]
pub enum Direction {
    /// Reading, or accepting a connection.
    Read,
    /// Writing.
    Write,
}

/// Which loop is run around an operation, and how the operation gets at the handle.
#[derive(Clone, Copy, Debug, PartialEq, Eq, Structural)]
pub enum LoopKind {
    /// A read operation with a shared reference to the handle.
    ReadWith,
    /// A read operation with a mutable reference to the handle.
    ReadWithMut,
    /// A write operation with a shared reference to the handle.
    WriteWith,
    /// A write operation with a mutable reference to the handle.
    WriteWithMut,
}

impl LoopKind {
    /// What the handle has to be ready for before the operation is tried again.
    pub open spec fn spec_direction(self) -> Direction {
        match self {
            LoopKind::ReadWith | LoopKind::ReadWithMut => Direction::Read,
            LoopKind::WriteWith | LoopKind::WriteWithMut => Direction::Write,
        }
    }

    /// Returns what the handle has to be ready for before the operation is tried again.
    pub fn direction(self) -> (direction: Direction)
        ensures
            direction == self.spec_direction(),
            direction == Direction::Read <==> self == LoopKind::ReadWith || self
                == LoopKind::ReadWithMut,
            direction == Direction::Write <==> self == LoopKind::WriteWith || self
                == LoopKind::WriteWithMut,
    {
        match self {
            LoopKind::ReadWith | LoopKind::ReadWithMut => Direction::Read,
            LoopKind::WriteWith | LoopKind::WriteWithMut => Direction::Write,
        }
    }
}

/// What the loop waits to hear of.
#[derive(Clone, Copy, Debug, PartialEq, Eq, Structural)]
pub enum RetryPhase {
    /// The next poll: the loop has not started, or has yielded.
    Suspended,
    /// Whether to yield.
    Yielding,
    /// An attempt.
    Attempting,
    /// The handle's readiness, which is being looked at.
    Looking,
    /// The next poll: the handle was not ready.
    Waiting,
    /// Nothing: the loop has returned.
    Finished,
}

/// What happened.
#[derive(Debug)]
pub enum RetryEvent<R, E> {
    /// The loop was polled, for the first time or after it was suspended.
    Polled,
    /// It was decided whether to yield.
    Decided(Yield),
    /// The operation was tried, with this outcome.
    Attempted(Result<R, Error<E>>),
    /// The handle's readiness was polled: it is ready, waiting for it failed, or it is not ready
    /// yet (`None`).
    Looked(Option<Result<(), E>>),
}

/// What has to be done next.
#[derive(Debug)]
pub enum RetryAction<R, E> {
    /// Decide whether to yield.
    Decide,
    /// Wake the task at once, and suspend the loop.
    Wake,
    /// Try the operation.
    Attempt,
    /// Poll the handle's readiness.
    Look(Direction),
    /// Suspend the loop.
    Suspend,
    /// Return this result.
    Return(Result<R, E>),
}

impl RetryPhase {
    /// Tells if `event` is what a loop in this phase waits to hear of.
    pub open spec fn expects<R, E>(self, event: RetryEvent<R, E>) -> bool {
        match event {
            RetryEvent::Polled => self == RetryPhase::Suspended || self == RetryPhase::Waiting,
            RetryEvent::Decided(_) => self == RetryPhase::Yielding,
            RetryEvent::Attempted(_) => self == RetryPhase::Attempting,
            RetryEvent::Looked(_) => self == RetryPhase::Looking,
        }
    }
}

/// The phase of the loop after an event that it expected, and what has to be done next.
pub open spec fn reaction<R, E>(direction: Direction, event: RetryEvent<R, E>) -> (
    RetryPhase,
    RetryAction<R, E>,
) {
    match event {
        RetryEvent::Polled => (RetryPhase::Yielding, RetryAction::Decide),
        RetryEvent::Decided(Yield::Now) => (RetryPhase::Suspended, RetryAction::Wake),
        RetryEvent::Decided(Yield::Not) => (RetryPhase::Attempting, RetryAction::Attempt),
        RetryEvent::Attempted(outcome) => if is_final(outcome) {
            (RetryPhase::Finished, RetryAction::Return(returned(outcome)))
        } else {
            (RetryPhase::Looking, RetryAction::Look(direction))
        },
        RetryEvent::Looked(Some(Ok(_))) => (RetryPhase::Yielding, RetryAction::Decide),
        RetryEvent::Looked(Some(Err(error))) => (
            RetryPhase::Finished,
            RetryAction::Return(Err(error)),
        ),
        RetryEvent::Looked(None) => (RetryPhase::Waiting, RetryAction::Suspend),
    }
}

/// The loop around an operation.
#[derive(Debug)]
pub struct Retry {
    direction: Direction,
    phase: RetryPhase,
    /// The wait after the last attempt.
    wait: Optimistic,
}

impl Retry {
    /// A loop only waits for a poll after it has looked at the handle's readiness.
    #[verifier::type_invariant]
    closed spec fn has_looked(&self) -> bool {
        self.phase == RetryPhase::Waiting || self.phase == RetryPhase::Looking
            ==> self.wait.polled()
    }

    /// What the handle has to be ready for.
    pub closed spec fn direction(&self) -> Direction {
        self.direction
    }

    /// What the loop waits to hear of.
    pub closed spec fn phase(&self) -> RetryPhase {
        self.phase
    }

    /// Creates a loop, which starts when it is polled.
    pub fn new(direction: Direction) -> (retry: Retry)
        ensures
            retry.direction() == direction,
            retry.phase() == RetryPhase::Suspended,
    {
        Retry { direction, phase: RetryPhase::Suspended, wait: Optimistic::new() }
    }

    /// Tells the loop what happened, and learns what has to be done next.
    pub fn step<R, E>(&mut self, event: RetryEvent<R, E>) -> (action: RetryAction<R, E>)
        requires
            old(self).phase().expects(event),
        ensures
            final(self).direction() == old(self).direction(),
            (final(self).phase(), action) == reaction(old(self).direction(), event),
    {
        proof {
            use_type_invariant(&*self);
        }
        match event {
            RetryEvent::Polled => match self.phase {
                RetryPhase::Waiting => self.poll_wait(self.wait),
                _ => self.decide(),
            },
            RetryEvent::Decided(Yield::Now) => {
                self.phase = RetryPhase::Suspended;
                RetryAction::Wake
            },
            RetryEvent::Decided(Yield::Not) => {
                self.phase = RetryPhase::Attempting;
                RetryAction::Attempt
            },
            RetryEvent::Attempted(outcome) => match settle(outcome) {
                Some(result) => self.finish(result),
                None => self.poll_wait(Optimistic::new()),
            },
            RetryEvent::Looked(Some(Ok(_))) => self.decide(),
            RetryEvent::Looked(Some(Err(error))) => self.finish(Err(error)),
            RetryEvent::Looked(None) => {
                self.phase = RetryPhase::Waiting;
                RetryAction::Suspend
            },
        }
    }

    /// Polls the wait that comes after an attempt: the first poll looks at the handle's readiness,
    /// the next one goes on without looking.
    fn poll_wait<R, E>(&mut self, wait: Optimistic) -> (action: RetryAction<R, E>)
        ensures
            final(self).direction == old(self).direction,
            (final(self).phase, action) == if wait.polled() {
                (RetryPhase::Yielding, RetryAction::<R, E>::Decide)
            } else {
                (RetryPhase::Looking, RetryAction::Look(old(self).direction))
            },
    {
        let direction = self.direction;
        let mut wait = wait;
        match wait.poll::<E>() {
            OptimisticPoll::PollInner => {
                *self = Retry { direction, phase: RetryPhase::Looking, wait };
                RetryAction::Look(direction)
            },
            OptimisticPoll::Ready(Ok(_)) => self.decide(),
            OptimisticPoll::Ready(Err(error)) => self.finish(Err(error)),
        }
    }

    /// Goes on to the next attempt.
    fn decide<R, E>(&mut self) -> (action: RetryAction<R, E>)
        ensures
            final(self).direction == old(self).direction,
            final(self).phase == RetryPhase::Yielding,
            action == RetryAction::<R, E>::Decide,
    {
        self.phase = RetryPhase::Yielding;
        RetryAction::Decide
    }

    /// Returns `result`.
    fn finish<R, E>(&mut self, result: Result<R, E>) -> (action: RetryAction<R, E>)
        ensures
            final(self).direction == old(self).direction,
            final(self).phase == RetryPhase::Finished,
            action == RetryAction::Return(result),
    {
        self.phase = RetryPhase::Finished;
        RetryAction::Return(result)
    }
}

/// The phase of a loop that has heard of `events`, from its start.
pub open spec fn phase_after<R, E>(direction: Direction, events: Seq<RetryEvent<R, E>>) -> RetryPhase {
    if events.len() == 0 {
        RetryPhase::Suspended
    } else {
        reaction(direction, events.last()).0
    }
}

/// Tells if a loop hears of `events` in an order in which it expects them.
pub open spec fn is_history<R, E>(direction: Direction, events: Seq<RetryEvent<R, E>>) -> bool
    decreases events.len(),
{
    events.len() > 0 ==> {
        &&& is_history(direction, events.drop_last())
        &&& phase_after(direction, events.drop_last()).expects(events.last())
    }
}

/// The outcomes of the attempts among `events`, in order.
pub open spec fn attempts<R, E>(events: Seq<RetryEvent<R, E>>) -> Seq<Result<R, Error<E>>>
    decreases events.len(),
{
    if events.len() == 0 {
        seq![]
    } else {
        match events.last() {
            RetryEvent::Attempted(outcome) => attempts(events.drop_last()).push(outcome),
            _ => attempts(events.drop_last()),
        }
    }
}

/// How often the handle's readiness is polled among `events`.
pub open spec fn looks<R, E>(events: Seq<RetryEvent<R, E>>) -> nat
    decreases events.len(),
{
    if events.len() == 0 {
        0
    } else {
        looks(events.drop_last()) + if events.last() is Looked {
            1nat
        } else {
            0nat
        }
    }
}

/// Tells if `next` can come right after `event` in a loop.
pub open spec fn follows<R, E>(event: RetryEvent<R, E>, next: RetryEvent<R, E>) -> bool {
    match event {
        RetryEvent::Polled => next is Decided,
        RetryEvent::Decided(Yield::Now) => next is Polled,
        RetryEvent::Decided(Yield::Not) => next is Attempted,
        RetryEvent::Attempted(outcome) => !is_final(outcome) && next is Looked,
        RetryEvent::Looked(Some(Ok(_))) => next is Decided,
        RetryEvent::Looked(Some(Err(_))) => false,
        RetryEvent::Looked(None) => next is Polled,
    }
}

/// A loop does nothing until it is polled. Every attempt comes right after the decision not to
/// yield; after an attempt that would block the handle's readiness is polled; and an attempt that
/// does not block, or a wait that fails, is the last thing that happens.
pub proof fn law_order_of_events<R, E>(direction: Direction, events: Seq<RetryEvent<R, E>>)
    requires
        is_history(direction, events),
    ensures
        events.len() > 0 ==> events[0] is Polled,
        forall|i: int|
            0 <= i < events.len() - 1 ==> follows(#[trigger] events[i], events[i + 1]),
    decreases events.len(),
{
    if events.len() > 0 {
        let before = events.drop_last();
        law_order_of_events(direction, before);
        assert forall|i: int| 0 <= i < events.len() - 1 implies follows(
            #[trigger] events[i],
            events[i + 1],
        ) by {
            assert(before[i] == events[i]);
            if i + 1 < before.len() {
                assert(before[i + 1] == events[i + 1]);
            } else {
                assert(before.last() == events[i]);
            }
        }
        if before.len() > 0 {
            assert(before[0] == events[0]);
        }
    }
}

/// An operation is repeated until it succeeds or fails with an error other than that it would
/// block, however often the loop yields or waits in between: every attempt but the last would have
/// blocked, and one that would not is what the loop returns. Between two attempts the handle's
/// readiness is polled once.
pub proof fn law_repeats_until_final<R, E>(direction: Direction, events: Seq<RetryEvent<R, E>>)
    requires
        is_history(direction, events),
    ensures
        forall|i: int|
            0 <= i < attempts(events).len() - 1 ==> !is_final(#[trigger] attempts(events)[i]),
        attempts(events).len() > 0 && is_final(attempts(events).last()) ==> {
            &&& events.last() == RetryEvent::Attempted(attempts(events).last())
            &&& reaction(direction, events.last()) == (
                RetryPhase::Finished,
                RetryAction::Return(returned(attempts(events).last())),
            )
        },
        looks(events) == attempts(events).len() - if events.len() > 0
            && events.last() is Attempted {
            1int
        } else {
            0int
        },
    decreases events.len(),
{
    if events.len() > 0 {
        law_repeats_until_final(direction, events.drop_last());
    }
}

/// A loop returns the outcome of its last attempt, or the error of a wait that failed, and then
/// every attempt would have blocked.
pub proof fn law_result_of_loop<R, E>(direction: Direction, events: Seq<RetryEvent<R, E>>)
    requires
        is_history(direction, events),
        phase_after(direction, events) == RetryPhase::Finished,
    ensures
        match events.last() {
            RetryEvent::Attempted(outcome) => {
                &&& is_final(outcome)
                &&& outcome == attempts(events).last()
                &&& reaction(direction, events.last()).1 == RetryAction::<R, E>::Return(
                    returned(outcome),
                )
            },
            RetryEvent::Looked(Some(Err(error))) => {
                &&& reaction(direction, events.last()).1 == RetryAction::<R, E>::Return(
                    Err(error),
                )
                &&& forall|i: int|
                    0 <= i < attempts(events).len() ==> !is_final(#[trigger] attempts(events)[i])
            },
            _ => false,
        },
{
    law_repeats_until_final(direction, events);
    assert forall|i: int|
        0 <= i < attempts(events).len() && events.last() is Looked implies !is_final(
        #[trigger] attempts(events)[i],
    ) by {
        if i == attempts(events).len() - 1 {
            assert(attempts(events).last() == attempts(events)[i]);
        }
    }
}

/// No wakeup is lost: a loop that is suspended has woken its task at once, or has just polled the
/// readiness of the handle that the operation waits for, and found it not ready.
pub proof fn law_suspended_task_is_woken<R, E>(direction: Direction, events: Seq<RetryEvent<R, E>>)
    requires
        events.len() > 0,
        is_history(direction, events),
        reaction(direction, events.last()).1 is Wake || reaction(direction, events.last()).1
            is Suspend,
    ensures
        ({
            ||| {
                &&& events.last() == RetryEvent::<R, E>::Decided(Yield::Now)
                &&& reaction(direction, events.last()).1 is Wake
            }
            ||| {
                &&& events.len() > 1
                &&& events.last() == RetryEvent::<R, E>::Looked(None)
                &&& reaction(direction, events[events.len() - 2]).1 == RetryAction::<R, E>::Look(
                    direction,
                )
                &&& reaction(direction, events.last()).1 is Suspend
            }
        }),
{
    law_order_of_events(direction, events);
    if events.len() > 1 {
        assert(events.drop_last().last() == events[events.len() - 2]);
        assert(follows(events[events.len() - 2], events[events.len() - 2 + 1]));
    }
}

/// The action agrees with the phase that is entered: what a loop asks for is what it then waits to
/// hear of.
pub proof fn law_action_agrees_with_phase<R, E>(direction: Direction, event: RetryEvent<R, E>)
    ensures
        ({
            let (phase, action) = reaction(direction, event);
            &&& action is Decide <==> phase == RetryPhase::Yielding
            &&& action is Wake <==> phase == RetryPhase::Suspended
            &&& action is Attempt <==> phase == RetryPhase::Attempting
            &&& action is Look <==> phase == RetryPhase::Looking
            &&& action is Suspend <==> phase == RetryPhase::Waiting
            &&& action is Return <==> phase == RetryPhase::Finished
        }),
{
}

/// A loop that asked for something expects to hear what came of it, whatever that is, and nothing
/// else; one that is suspended expects to be polled; one that has returned expects nothing.
pub proof fn law_expects_result_of_action<R, E>(
    direction: Direction,
    event: RetryEvent<R, E>,
    next: RetryEvent<R, E>,
)
    ensures
        ({
            let (phase, action) = reaction(direction, event);
            phase.expects(next) <==> match action {
                RetryAction::Decide => next is Decided,
                RetryAction::Attempt => next is Attempted,
                RetryAction::Look(_) => next is Looked,
                RetryAction::Wake => next is Polled,
                RetryAction::Suspend => next is Polled,
                RetryAction::Return(_) => false,
            }
        }),
        RetryPhase::Suspended.expects(next) <==> next is Polled,
        RetryPhase::Waiting.expects(next) <==> next is Polled,
        RetryPhase::Yielding.expects(next) <==> next is Decided,
        RetryPhase::Attempting.expects(next) <==> next is Attempted,
        RetryPhase::Looking.expects(next) <==> next is Looked,
        !RetryPhase::Finished.expects(next),
{
}

/// The operation is tried exactly on the decision not to yield, in loops of both directions, and
/// the task is woken at once exactly on the decision to yield.
pub proof fn law_decision_is_carried_out<R, E>(direction: Direction, event: RetryEvent<R, E>)
    ensures
        reaction(direction, event).1 is Attempt <==> (event matches RetryEvent::Decided(decision)
            && decision == Yield::Not),
        reaction(direction, event).1 is Wake <==> (event matches RetryEvent::Decided(decision)
            && decision == Yield::Now),
{
}

/// The handle's readiness is looked at exactly after an attempt that would block, and it is the
/// readiness for what the loop does.
pub proof fn law_looks_only_after_blocking<R, E>(direction: Direction, event: RetryEvent<R, E>)
    ensures
        reaction(direction, event).1 is Look <==> (event matches RetryEvent::Attempted(outcome)
            && outcome is Err && outcome->Err_0.kind == ErrorKind::WouldBlock),
        reaction(direction, event).1 matches RetryAction::Look(looked) ==> looked == direction,
{
}

/// A loop goes on to another decision exactly when it is polled or the handle is ready, and is
/// suspended without being woken exactly when the handle is not ready.
pub proof fn law_goes_on_when_polled_or_ready<R, E>(direction: Direction, event: RetryEvent<R, E>)
    ensures
        reaction(direction, event).1 is Decide <==> event is Polled || (
        event matches RetryEvent::Looked(Some(Ok(_)))),
        reaction(direction, event).1 is Suspend <==> (event matches RetryEvent::Looked(None)),
{
}

/// A loop returns what the operation came to, or the error of a wait, unchanged: the value of a
/// success, the error of a failure other than that it would block, the error of a wait.
pub proof fn law_returns_what_came<R, E>(direction: Direction, event: RetryEvent<R, E>)
    ensures
        event matches RetryEvent::Attempted(Ok(value)) ==> reaction(direction, event).1
            == RetryAction::<R, E>::Return(Ok(value)),
        event matches RetryEvent::Attempted(Err(error)) ==> error.kind != ErrorKind::WouldBlock
            ==> reaction(direction, event).1 == RetryAction::<R, E>::Return(Err(error.error)),
        event matches RetryEvent::Looked(Some(Err(error))) ==> reaction(direction, event).1
            == RetryAction::<R, E>::Return(Err(error)),
        reaction(direction, event).1 is Return ==> event is Attempted || event is Looked,
{
}

/// Reading and writing loops differ in the readiness that they look at, and in nothing else.
pub proof fn law_directions_differ_in_readiness_only<R, E>(event: RetryEvent<R, E>)
    ensures
        reaction(Direction::Read, event).0 == reaction(Direction::Write, event).0,
        reaction(Direction::Read, event).1 == reaction(Direction::Write, event).1 || (reaction(
            Direction::Read,
            event,
        ).1 == RetryAction::<R, E>::Look(Direction::Read) && reaction(Direction::Write, event).1
            == RetryAction::<R, E>::Look(Direction::Write)),
{
}

/// Every decision not to yield is followed by trying the operation: over any history there are as
/// many attempts as decisions not to yield, but for one that is just being carried out.
pub proof fn law_as_many_attempts_as_decisions<R, E>(
    direction: Direction,
    events: Seq<RetryEvent<R, E>>,
)
    requires
        is_history(direction, events),
    ensures
        decisions_not_to_yield(events) == attempts(events).len() + if events.len() > 0
            && reaction(direction, events.last()).1 is Attempt {
            1int
        } else {
            0int
        },
    decreases events.len(),
{
    if events.len() > 0 {
        law_as_many_attempts_as_decisions(direction, events.drop_last());
        if events.len() > 1 {
            law_decision_is_carried_out(direction, events.drop_last().last());
        }
    }
}

/// How often it is decided not to yield among `events`.
pub open spec fn decisions_not_to_yield<R, E>(events: Seq<RetryEvent<R, E>>) -> int
    decreases events.len(),
{
    if events.len() == 0 {
        0
    } else {
        decisions_not_to_yield(events.drop_last()) + match events.last() {
            RetryEvent::Decided(Yield::Not) => 1int,
            _ => 0int,
        }
    }
}

/// What [`Retry::step`] asks for agrees with what happened and with the phase that the loop is then
/// in, in loops of both directions: it asks to try the operation exactly on the decision not to
/// yield, and to look at the handle's readiness, for what the loop does, exactly after an attempt
/// that would block.
pub proof fn law_step_asks_for_what_comes_next<R, E>(
    retry: &mut Retry,
    event: RetryEvent<R, E>,
    action: RetryAction<R, E>,
)
    requires
        call_ensures(Retry::step::<R, E>, (retry, event), action),
    ensures
        final(retry).direction() == old(retry).direction(),
        match action {
            RetryAction::Decide => {
                &&& final(retry).phase() == RetryPhase::Yielding
                &&& event is Polled || (event matches RetryEvent::Looked(Some(Ok(_))))
            },
            RetryAction::Wake => {
                &&& final(retry).phase() == RetryPhase::Suspended
                &&& event == RetryEvent::<R, E>::Decided(Yield::Now)
            },
            RetryAction::Attempt => {
                &&& final(retry).phase() == RetryPhase::Attempting
                &&& event == RetryEvent::<R, E>::Decided(Yield::Not)
            },
            RetryAction::Look(looked) => {
                &&& final(retry).phase() == RetryPhase::Looking
                &&& looked == old(retry).direction()
                &&& event matches RetryEvent::Attempted(Err(error))
                &&& error.kind == ErrorKind::WouldBlock
            },
            RetryAction::Suspend => {
                &&& final(retry).phase() == RetryPhase::Waiting
                &&& event matches RetryEvent::Looked(None)
            },
            RetryAction::Return(result) => {
                &&& final(retry).phase() == RetryPhase::Finished
                &&& match event {
                    RetryEvent::Attempted(Ok(value)) => result == Ok::<R, E>(value),
                    RetryEvent::Attempted(Err(error)) => {
                        &&& error.kind != ErrorKind::WouldBlock
                        &&& result == Err::<R, E>(error.error)
                    },
                    RetryEvent::Looked(Some(Err(error))) => result == Err::<R, E>(error),
                    _ => false,
                }
            },
        },
{
}

} // verus!
