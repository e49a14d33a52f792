//! What the life of a timer leaves in the reactor's timer table.
//!
//! The table is seen as the set of its keys. A caller that does what the functions of
//! [`Timer`](crate::timer::Timer) ask for, and whose reactor never hands out a key that is taken,
//! keeps the table exact: a timer has one entry while it waits, none otherwise, and the entries
//! of other timers are left alone.

use std::task::Waker;

use vstd::prelude::*;

use crate::time::{Duration, Instant};
use crate::timer::{entry, TimerKey, TimerPoll, TimerState};

verus! {

/// The entries that a timer has in the table: one or none.
pub open spec fn entries(timer: TimerState) -> Set<TimerKey> {
    match timer.key() {
        Some(key) => set![key],
        None => set![],
    }
}

/// The table after an entry was removed from it.
pub open spec fn without(table: Set<TimerKey>, remove: Option<TimerKey>) -> Set<TimerKey> {
    match remove {
        Some(key) => table.remove(key),
        None => table,
    }
}

/// Tells if `table` holds the entries of `timer` and those of `others`, and nothing twice.
pub open spec fn holds(table: Set<TimerKey>, timer: TimerState, others: Set<TimerKey>) -> bool {
    &&& table =~= others.union(entries(timer))
    &&& others.disjoint(entries(timer))
}

/// What can be done with a timer while it is in use.
pub enum TimerOp {
    /// The timer is polled and, if it has to wait, entered.
    Poll {
        /// The time of the poll.
        now: Instant,
        /// Whether the waker of the timer's entry wakes the task that polls.
        same_task: bool,
        /// The ID that the reactor picks if it is asked for an entry.
        id: usize,
        /// The waker of the task that polls, as it is entered.
        waker: Waker,
    },
    /// The timer is set to another time and, if it had an entry, entered again.
    SetAt {
        /// The new time.
        instant: Instant,
        /// The ID that the reactor picks if it is asked for an entry.
        id: usize,
    },
}

/// The key that the reactor is asked to remove, and the key that it then enters.
pub open spec fn changes(timer: TimerState, op: TimerOp) -> (Option<TimerKey>, Option<TimerKey>) {
    match op {
        TimerOp::Poll { now, same_task, id, waker } => match timer.poll(
            now,
            same_task,
            waker,
        ).1 {
            TimerPoll::Ready { when, remove } => (remove, None),
            TimerPoll::Register { when, remove, .. } => (remove, Some(TimerKey { when, id })),
            TimerPoll::Pending => (None, None),
        },
        TimerOp::SetAt { instant, id } => match timer.set_at(instant).1 {
            Some(rearm) => (Some(rearm.remove), Some(TimerKey { when: rearm.when, id })),
            None => (None, None),
        },
    }
}

/// The timer after an operation, once the entry that it asked for was made and reported.
pub open spec fn timer_after(timer: TimerState, op: TimerOp) -> TimerState {
    match op {
        TimerOp::Poll { now, same_task, id, waker } => {
            let (next, poll) = timer.poll(now, same_task, waker);
            match poll {
                TimerPoll::Register { waker, .. } => next.registered(id, waker),
                _ => next,
            }
        },
        TimerOp::SetAt { instant, id } => {
            let (next, rearm) = timer.set_at(instant);
            match rearm {
                Some(rearm) => next.registered(id, rearm.waker),
                None => next,
            }
        },
    }
}

/// The table after an operation, once what it asked for was done.
pub open spec fn table_after(table: Set<TimerKey>, timer: TimerState, op: TimerOp) -> Set<
    TimerKey,
> {
    let (remove, enter) = changes(timer, op);
    match enter {
        Some(key) => without(table, remove).insert(key),
        None => without(table, remove),
    }
}

/// Tells if the key that an operation makes the reactor enter is not taken.
pub open spec fn enters_fresh_key(table: Set<TimerKey>, timer: TimerState, op: TimerOp) -> bool {
    let (remove, enter) = changes(timer, op);
    enter matches Some(key) ==> !without(table, remove).contains(key)
}

/// The timer and the table after a sequence of operations.
pub open spec fn run(timer: TimerState, table: Set<TimerKey>, ops: Seq<TimerOp>) -> (
    TimerState,
    Set<TimerKey>,
)
    decreases ops.len(),
{
    if ops.len() == 0 {
        (timer, table)
    } else {
        let (timer, table) = run(timer, table, ops.drop_last());
        (timer_after(timer, ops.last()), table_after(table, timer, ops.last()))
    }
}

/// Tells if no operation of a sequence makes the reactor enter a key that is taken.
pub open spec fn run_enters_fresh_keys(
    timer: TimerState,
    table: Set<TimerKey>,
    ops: Seq<TimerOp>,
) -> bool
    decreases ops.len(),
{
    ops.len() > 0 ==> {
        let (before, table_before) = run(timer, table, ops.drop_last());
        &&& run_enters_fresh_keys(timer, table, ops.drop_last())
        &&& enters_fresh_key(table_before, before, ops.last())
    }
}

/// Every operation keeps the table exact and leaves the entries of other timers alone.
pub proof fn law_operation_keeps_table_exact(
    table: Set<TimerKey>,
    timer: TimerState,
    others: Set<TimerKey>,
    op: TimerOp,
)
    requires
        holds(table, timer, others),
        enters_fresh_key(table, timer, op),
    ensures
        holds(table_after(table, timer, op), timer_after(timer, op), others),
{
    if timer.key() is Some {
        assert(without(table, timer.key()) =~= others);
    }
}

/// However a timer is used, the table is exact afterwards.
pub proof fn law_table_is_exact(instant: Instant, others: Set<TimerKey>, ops: Seq<TimerOp>)
    requires
        run_enters_fresh_keys(TimerState { when: instant, registration: None }, others, ops),
    ensures
        ({
            let (timer, table) = run(
                TimerState { when: instant, registration: None },
                others,
                ops,
            );
            holds(table, timer, others)
        }),
    decreases ops.len(),
{
    let fresh = TimerState { when: instant, registration: None };
    if ops.len() > 0 {
        law_table_is_exact(instant, others, ops.drop_last());
        let (timer, table) = run(fresh, others, ops.drop_last());
        law_operation_keeps_table_exact(table, timer, others, ops.last());
    }
}

/// A timer that is unregistered when it goes out of use leaves nothing behind: the table is what
/// it was before the timer was created.
pub proof fn law_timer_leaves_nothing_behind(
    instant: Instant,
    others: Set<TimerKey>,
    ops: Seq<TimerOp>,
)
    requires
        run_enters_fresh_keys(TimerState { when: instant, registration: None }, others, ops),
    ensures
        ({
            let (timer, table) = run(
                TimerState { when: instant, registration: None },
                others,
                ops,
            );
            without(table, timer.key()) == others && entries(timer.unregistered()).is_empty()
        }),
{
    law_table_is_exact(instant, others, ops);
    let (timer, table) = run(TimerState { when: instant, registration: None }, others, ops);
    assert(without(table, timer.key()) =~= others);
    assert(entries(timer.unregistered()) =~= set![]);
}

/// A timer that has to wait is never forgotten: after the poll it has an entry at the time at
/// which it expires, with a waker of the task that polls.
pub proof fn law_waiting_timer_is_registered(
    table: Set<TimerKey>,
    timer: TimerState,
    others: Set<TimerKey>,
    now: Instant,
    same_task: bool,
    id: usize,
    waker: Waker,
)
    requires
        holds(table, timer, others),
        !timer.is_due(now),
    ensures
        ({
            let op = TimerOp::Poll { now, same_task, id, waker };
            let after = timer_after(timer, op);
            &&& after.when == timer.when
            &&& after.key() is Some
            &&& table_after(table, timer, op).contains(after.key()->0)
            &&& if same_task && timer.registration is Some {
                after == timer
            } else {
                after.registration == Some((id, waker))
            }
        }),
{
    let op = TimerOp::Poll { now, same_task, id, waker };
    if same_task && timer.registration is Some {
        assert(entries(timer).contains(timer.key()->0));
    }
}

/// A timer completes exactly when it is polled at or after the time it is set to, with that time,
/// and then has no entry.
pub proof fn law_ready_exactly_when_due(
    timer: TimerState,
    now: Instant,
    same_task: bool,
    waker: Waker,
)
    ensures
        timer.poll(now, same_task, waker).1 is Ready <==> now.nanos >= timer.when.nanos,
        timer.poll(now, same_task, waker).1 matches TimerPoll::Ready { when, remove } ==> {
            &&& when == timer.when
            &&& timer.registration matches Some((id, _)) ==> remove == Some(
                TimerKey { when: timer.when, id },
            )
            &&& timer.registration is None ==> remove is None
            &&& timer.poll(now, same_task, waker).0 == timer.unregistered()
            &&& timer.poll(now, same_task, waker).0.when == timer.when
            &&& timer.poll(now, same_task, waker).0.registration is None
        },
{
}

/// A timer that was created or set `duration` after `start` does not complete before that
/// duration has passed, and completes at the first poll afterwards.
pub proof fn law_duration_passes_first(
    timer: TimerState,
    start: Instant,
    duration: Duration,
    now: Instant,
    same_task: bool,
    waker: Waker,
)
    requires
        timer.when.nanos == start.nanos + duration.as_nanos(),
    ensures
        timer.poll(now, same_task, waker).1 is Ready <==> now.nanos - start.nanos
            >= duration.as_nanos(),
{
}

/// A timer that has expired stays expired: a later poll completes with the same time again.
pub proof fn law_expired_timer_stays_expired(
    timer: TimerState,
    now: Instant,
    later: Instant,
    same_task: bool,
    same_task_later: bool,
    waker: Waker,
    waker_later: Waker,
)
    requires
        timer.poll(now, same_task, waker).1 is Ready,
        now.nanos <= later.nanos,
    ensures
        timer.poll(now, same_task, waker).0.poll(later, same_task_later, waker_later).1 == (TimerPoll::Ready {
            when: timer.when,
            remove: None,
        }),
{
}

/// Setting a timer does not lose the waker of the task that polls it: the new entry has the waker
/// of the old one, at the new time.
pub proof fn law_set_at_keeps_waker(timer: TimerState, instant: Instant, id: usize)
    ensures
        ({
            let after = timer_after(timer, TimerOp::SetAt { instant, id });
            &&& after.when == instant
            &&& match timer.registration {
                Some((_, waker)) => after.registration == Some((id, waker)),
                None => after.registration is None,
            }
        }),
{
}

/// A timer is due from the time it is set to on, and not a nanosecond earlier.
pub proof fn law_due_from_its_time_on(timer: TimerState, now: Instant)
    ensures
        timer.is_due(now) <==> now.nanos >= timer.when.nanos,
{
}

/// A timer that is polled before its time is in the table afterwards, at its time, whatever it was
/// before: it keeps its entry if that wakes the task that polls, and otherwise has a new one, with
/// the waker of that task. The poll completes nothing.
pub proof fn law_early_poll_leaves_an_entry(
    table: Set<TimerKey>,
    timer: TimerState,
    now: Instant,
    same_task: bool,
    id: usize,
    waker: Waker,
)
    requires
        now.nanos < timer.when.nanos,
        timer.registration matches Some((old_id, _)) ==> table.contains(
            TimerKey { when: timer.when, id: old_id },
        ),
    ensures
        ({
            let op = TimerOp::Poll { now, same_task, id, waker };
            let after = timer_after(timer, op);
            &&& after.when == timer.when
            &&& after.registration matches Some((new_id, _)) && table_after(
                table,
                timer,
                op,
            ).contains(TimerKey { when: timer.when, id: new_id })
            &&& timer.registration is None || !same_task ==> after.registration == Some(
                (id, waker),
            )
            &&& timer.registration is Some && same_task ==> after.registration
                == timer.registration
            &&& !(timer.poll(now, same_task, waker).1 is Ready)
        }),
{
}

/// A poll asks for an entry exactly if the timer is not due and has none that wakes the task that
/// polls. It asks for one at the timer's time with that task's waker, and to remove the old one,
/// if there is one.
pub proof fn law_entry_is_asked_for(
    timer: TimerState,
    now: Instant,
    same_task: bool,
    waker: Waker,
)
    ensures
        timer.poll(now, same_task, waker).1 is Register <==> now.nanos < timer.when.nanos && !(
        timer.registration is Some && same_task),
        timer.poll(now, same_task, waker).1 matches TimerPoll::Register {
            when,
            remove,
            waker: handed,
        } ==> {
            &&& when == timer.when
            &&& handed == waker
            &&& remove is Some <==> timer.registration is Some
            &&& remove matches Some(key) ==> {
                &&& key.when == timer.when
                &&& key.id == (timer.registration->0).0
            }
            &&& timer.poll(now, same_task, waker).0.when == timer.when
            &&& timer.poll(now, same_task, waker).0.registration is None
        },
{
}

/// A poll leaves an entry in place only if there is one, the timer is not due, and the waker of the
/// entry was said to wake the task that polls. Nothing changes then.
pub proof fn law_entry_is_kept_only_for_its_task(
    timer: TimerState,
    now: Instant,
    same_task: bool,
    waker: Waker,
)
    ensures
        timer.poll(now, same_task, waker).1 is Pending ==> {
            &&& same_task
            &&& timer.registration is Some
            &&& now.nanos < timer.when.nanos
            &&& timer.poll(now, same_task, waker).0 == timer
        },
        timer.poll(now, same_task, waker).0.registration is Some ==> timer.poll(
            now,
            same_task,
            waker,
        ).1 is Pending,
{
}

/// Only the time that is left matters: two timers that have as long to go, and both have an entry
/// or both have none, are polled alike, wherever on the clock they are.
pub proof fn law_only_time_left_matters(
    timer: TimerState,
    other: TimerState,
    now: Instant,
    other_now: Instant,
    same_task: bool,
    waker: Waker,
)
    requires
        timer.when.nanos - now.nanos == other.when.nanos - other_now.nanos,
        timer.registration is Some <==> other.registration is Some,
    ensures
        timer.poll(now, same_task, waker).1 is Ready <==> other.poll(
            other_now,
            same_task,
            waker,
        ).1 is Ready,
        timer.poll(now, same_task, waker).1 is Register <==> other.poll(
            other_now,
            same_task,
            waker,
        ).1 is Register,
        timer.poll(now, same_task, waker).1 is Pending <==> other.poll(
            other_now,
            same_task,
            waker,
        ).1 is Pending,
{
}

/// A timer that has been polled by a task and is polled by it again before its time keeps its
/// entry; polled by another task it gets another one, and the old one is the one removed.
pub proof fn law_second_poll(
    timer: TimerState,
    now: Instant,
    later: Instant,
    same_task: bool,
    still_same: bool,
    id: usize,
    waker: Waker,
    other: Waker,
)
    requires
        now.nanos < timer.when.nanos,
        later.nanos < timer.when.nanos,
        timer.registration is None,
    ensures
        ({
            let first = timer_after(timer, TimerOp::Poll { now, same_task, id, waker });
            let second = first.poll(later, still_same, other).1;
            if still_same {
                second is Pending
            } else {
                second matches TimerPoll::Register { remove, waker: handed, .. } && remove == Some(
                    TimerKey { when: timer.when, id },
                ) && handed == other
            }
        }),
{
}

/// Setting a timer changes when it is due to the time asked for and to nothing else: it is then
/// polled as a timer that was created for that time.
pub proof fn law_set_timer_is_due_as_a_new_one(
    timer: TimerState,
    instant: Instant,
    now: Instant,
    same_task: bool,
    id: usize,
    waker: Waker,
)
    ensures
        timer_after(timer, TimerOp::SetAt { instant, id }).poll(now, same_task, waker).1
            is Ready <==> now.nanos >= instant.nanos,
        timer.set_at(instant).0.when == instant,
        timer.set_at(instant).0.registration is None,
        timer.set_at(instant).1 is Some <==> timer.registration is Some,
        timer.set_at(instant).1 matches Some(rearm) ==> {
            &&& rearm.remove.when == timer.when
            &&& rearm.remove.id == (timer.registration->0).0
            &&& rearm.when == instant
            &&& rearm.waker == (timer.registration->0).1
        },
{
}

/// A timer's entry is at the time it is set to, under the ID it was told, and there is one exactly
/// while the timer knows of one.
pub proof fn law_entry_of_a_timer(timer: TimerState, id: usize, waker: Waker)
    ensures
        timer.key() is Some <==> timer.registration is Some,
        timer.key() matches Some(key) ==> {
            &&& key.when == timer.when
            &&& key.id == (timer.registration->0).0
        },
        timer.key() == entry(timer.when, timer.registration),
        timer.unregistered().when == timer.when,
        timer.unregistered().key() is None,
        timer.registered(id, waker).registration == Some((id, waker)),
        timer.registered(id, waker).key() == Some(TimerKey { when: timer.when, id }),
{
}

} // verus!
