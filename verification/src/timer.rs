//! Timers that expire at a point in time.
//!
//! A timer that has to wait is entered into the reactor's timer table under a [`TimerKey`]: the
//! time at which it expires and an ID that the reactor picks. The functions here decide which
//! entries have to be added and removed; the caller performs that and reports the ID of a new
//! entry with [`Timer::registered`].

use std::task::Waker;

use vstd::prelude::*;

use crate::time::{Clock, Duration, Instant};

verus! {

/// A handle that wakes a task, `std::task::Waker`.
///
/// It is opaque here: it is carried, never looked into.
#[verifier::external_type_specification]
#[verifier::external_body]
pub struct ExWaker(Waker);

/// Makes another waker of the same task, with `std::task::Waker::clone`.
///
/// Nothing is claimed of the result. Contracts say which waker a waker was made from, with
/// [`cloned`](vstd::pervasive::cloned).
pub assume_specification[ <Waker as Clone>::clone ](waker: &Waker) -> (another: Waker)
;

/// Asks two wakers if they wake the same task, with `std::task::Waker::will_wake`.
///
/// The answer is given on a best-effort basis and rests on addresses, so nothing is claimed of
/// it. Contracts say which two wakers are compared, with [`is_answer`].
#[verifier::external_body]
fn will_wake(registered: &Waker, current: &Waker) -> (same: bool) {
    registered.will_wake(current)
}

/// Tells if `same_task` is what the waker `registered` can have answered when it was asked if it
/// wakes the same task as `current`.
pub closed spec fn is_answer(registered: Waker, current: Waker, same_task: bool) -> bool {
    call_ensures(will_wake, (&registered, &current), same_task)
}

/// The place of a timer in the reactor's timer table.
#[derive(Clone, Copy, Debug, PartialEq, Eq, Structural)]
pub struct TimerKey {
    /// When the timer expires.
    pub when: Instant,
    /// The ID that the reactor picked for the entry.
    pub id: usize,
}

/// What has to be done when a timer is polled.
#[derive(Debug)]
pub enum TimerPoll {
    /// The timer has expired: remove its entry, if it has one, and complete with `when`.
    Ready {
        /// The time at which the timer expired.
        when: Instant,
        /// The entry to remove.
        remove: Option<TimerKey>,
    },
    /// The timer has to wait: remove its entry, if it has one, enter it at `when` with `waker`, and
    /// report the new entry with [`Timer::registered`].
    Register {
        /// The time at which the timer will expire.
        when: Instant,
        /// The entry to remove first.
        remove: Option<TimerKey>,
        /// A waker of the task that polls the timer now.
        waker: Waker,
    },
    /// The timer has to wait, and its entry wakes the task that polls it now.
    Pending,
}

impl TimerPoll {
    /// The waker that is handed out to be entered; that of the task that polls the timer,
    /// `polling`, where nothing is to be entered.
    pub open spec fn entered(self, polling: Waker) -> Waker {
        match self {
            TimerPoll::Register { waker, .. } => waker,
            _ => polling,
        }
    }
}

/// What has to be done when a timer with an entry in the table is set to another time: remove
/// the entry, enter the timer at `when` with the same waker, and report the new entry with
/// [`Timer::registered`].
#[derive(Debug)]
pub struct Rearm {
    /// The entry to remove first.
    pub remove: TimerKey,
    /// The time at which the timer will expire.
    pub when: Instant,
    /// The waker of the last task that polled the timer.
    pub waker: Waker,
}

/// What a timer knows: the abstract state of a [`Timer`].
pub struct TimerState {
    /// When the timer expires.
    pub when: Instant,
    /// The ID of the timer's entry and the waker of the last task that polled it, while the timer
    /// has an entry.
    pub registration: Option<(usize, Waker)>,
}

impl TimerState {
    /// The timer's entry in the reactor's timer table.
    pub open spec fn key(self) -> Option<TimerKey> {
        match self.registration {
            Some((id, _)) => Some(TimerKey { when: self.when, id }),
            None => None,
        }
    }

    /// Tells if the timer has expired at the time `now`.
    pub open spec fn is_due(self, now: Instant) -> bool {
        now.nanos >= self.when.nanos
    }

    /// The timer without an entry.
    pub open spec fn unregistered(self) -> TimerState {
        TimerState { when: self.when, registration: None }
    }

    /// The timer with an entry that has the ID `id` and wakes with `waker`.
    pub open spec fn registered(self, id: usize, waker: Waker) -> TimerState {
        TimerState { when: self.when, registration: Some((id, waker)) }
    }

    /// The timer after a poll at the time `now`, and what that poll asks for.
    ///
    /// `same_task` tells if the waker of the timer's entry wakes the task that polls it now, and
    /// `waker` is a waker of that task.
    pub open spec fn poll(self, now: Instant, same_task: bool, waker: Waker) -> (
        TimerState,
        TimerPoll,
    ) {
        if self.is_due(now) {
            (self.unregistered(), TimerPoll::Ready { when: self.when, remove: self.key() })
        } else if self.registration is Some && same_task {
            (self, TimerPoll::Pending)
        } else {
            (
                self.unregistered(),
                TimerPoll::Register { when: self.when, remove: self.key(), waker },
            )
        }
    }

    /// The timer after it was set to `instant`, and what that asks for.
    pub open spec fn set_at(self, instant: Instant) -> (TimerState, Option<Rearm>) {
        (
            TimerState { when: instant, registration: None },
            match self.registration {
                Some((id, waker)) => Some(
                    Rearm { remove: TimerKey { when: self.when, id }, when: instant, waker },
                ),
                None => None,
            },
        )
    }
}

/// The entry of a timer that expires at `when` and knows of `registration`: at the time at which it
/// expires, under the ID that it was told.
pub open spec fn entry(when: Instant, registration: Option<(usize, Waker)>) -> Option<TimerKey> {
    if registration is Some {
        Some(TimerKey { when, id: (registration->0).0 })
    } else {
        None
    }
}

/// A timer that expires at a point in time.
///
/// It completes with the [`Instant`] at which it expires.
#[derive(Debug)]
pub struct Timer {
    /// The ID of this timer's entry and the last waker that polled it.
    ///
    /// When this field is `None`, this timer has no entry in the reactor's timer table.
    id_and_waker: Option<(usize, Waker)>,
    /// When this timer expires.
    when: Instant,
}

impl View for Timer {
    type V = TimerState;

    closed spec fn view(&self) -> TimerState {
        TimerState { when: self.when, registration: self.id_and_waker }
    }
}

impl Timer {
    /// Creates a timer that expires after the given duration of time.
    ///
    /// The clock is read once, and the timer is the one that [`Timer::after_instant`] makes of
    /// what it shows.
    pub fn after(clock: &Clock, duration: Duration) -> (timer: Timer)
        ensures
            timer@.registration is None,
            exists|now: Instant|
                {
                    &&& #[trigger] call_ensures(Clock::now, (clock,), now)
                    &&& timer@.when.nanos == now.nanos + duration.as_nanos()
                },
    {
        let now = clock.now();
        Timer::after_instant(now, duration)
    }

    /// Creates a timer that expires when the given duration of time has passed since `now`.
    pub fn after_instant(now: Instant, duration: Duration) -> (timer: Timer)
        requires
            now.can_add(duration),
        ensures
            timer@.registration is None,
            timer@.when.nanos == now.nanos + duration.as_nanos(),
    {
        Timer::at(now.plus(duration))
    }

    /// Creates a timer that expires at the given time instant.
    pub fn at(instant: Instant) -> (timer: Timer)
        ensures
            timer@ == (TimerState { when: instant, registration: None }),
    {
        Timer { id_and_waker: None, when: instant }
    }

    /// Sets the timer to expire after the new duration of time.
    ///
    /// The clock is read once, and the timer is set as [`Timer::set_after_instant`] does with what
    /// it shows.
    pub fn set_after(&mut self, clock: &Clock, duration: Duration) -> (rearm: Option<Rearm>)
        ensures
            exists|now: Instant|
                {
                    &&& #[trigger] call_ensures(Clock::now, (clock,), now)
                    &&& final(self)@.when.nanos == now.nanos + duration.as_nanos()
                },
            (final(self)@, rearm) == old(self)@.set_at(final(self)@.when),
            final(self)@.registration is None,
            match old(self)@.registration {
                Some((id, waker)) => rearm == Some(
                    Rearm {
                        remove: TimerKey { when: old(self)@.when, id },
                        when: final(self)@.when,
                        waker,
                    },
                ),
                None => rearm is None,
            },
    {
        let now = clock.now();
        self.set_after_instant(now, duration)
    }

    /// Sets the timer to expire when the given duration of time has passed since `now`.
    pub fn set_after_instant(&mut self, now: Instant, duration: Duration) -> (rearm: Option<Rearm>)
        requires
            now.can_add(duration),
        ensures
            final(self)@.when.nanos == now.nanos + duration.as_nanos(),
            (final(self)@, rearm) == old(self)@.set_at(final(self)@.when),
            final(self)@.registration is None,
            match old(self)@.registration {
                Some((id, waker)) => rearm == Some(
                    Rearm {
                        remove: TimerKey { when: old(self)@.when, id },
                        when: final(self)@.when,
                        waker,
                    },
                ),
                None => rearm is None,
            },
    {
        self.set_at(now.plus(duration))
    }

    /// Sets the timer to expire at the new time instant.
    ///
    /// Setting a timer is different from creating a new one: the waker of the task that polls the
    /// timer is not lost, but handed out to be entered again.
    pub fn set_at(&mut self, instant: Instant) -> (rearm: Option<Rearm>)
        ensures
            (final(self)@, rearm) == old(self)@.set_at(instant),
            final(self)@.when == instant,
            final(self)@.registration is None,
            match old(self)@.registration {
                Some((id, waker)) => rearm == Some(
                    Rearm {
                        remove: TimerKey { when: old(self)@.when, id },
                        when: final(self)@.when,
                        waker,
                    },
                ),
                None => rearm is None,
            },
    {
        let before = self.when;
        self.when = instant;
        match self.id_and_waker.take() {
            Some((id, waker)) => Some(
                Rearm { remove: TimerKey { when: before, id }, when: instant, waker },
            ),
            None => None,
        }
    }

    /// Records the ID of the entry that was made for this timer, and the waker in it.
    pub fn registered(&mut self, id: usize, waker: Waker)
        requires
            old(self)@.registration is None,
        ensures
            final(self)@ == old(self)@.registered(id, waker),
            final(self)@.when == old(self)@.when,
            final(self)@.registration == Some((id, waker)),
    {
        self.id_and_waker = Some((id, waker));
    }

    /// Polls the timer on behalf of the task that `waker` wakes.
    ///
    /// The clock is read once. If the timer has to wait and has an entry, the waker of that entry is
    /// asked if it wakes the same task as `waker`, and kept only if it says so. The poll then goes
    /// as [`Timer::poll_at`] says for what came of it.
    pub fn poll(&mut self, clock: &Clock, waker: &Waker) -> (poll: TimerPoll)
        ensures
            exists|now: Instant, same_task: bool|
                {
                    &&& call_ensures(Clock::now, (clock,), now)
                    &&& (final(self)@, poll) == #[trigger] old(self)@.poll(
                        now,
                        same_task,
                        poll.entered(*waker),
                    )
                    &&& old(self)@.registration is Some && now.nanos < old(self)@.when.nanos
                        ==> is_answer((old(self)@.registration->0).1, *waker, same_task)
                    &&& poll is Ready <==> now.nanos >= old(self)@.when.nanos
                },
            cloned::<Waker>(*waker, poll.entered(*waker)),
            poll is Pending ==> {
                &&& old(self)@.registration matches Some((_, kept))
                &&& is_answer(kept, *waker, true)
                &&& final(self)@ == old(self)@
            },
            poll matches TimerPoll::Ready { when: fired, remove } ==> {
                &&& fired == old(self)@.when
                &&& remove == entry(old(self)@.when, old(self)@.registration)
            },
            poll matches TimerPoll::Register { when: due, remove, waker: handed } ==> {
                &&& due == old(self)@.when
                &&& remove == entry(old(self)@.when, old(self)@.registration)
                &&& cloned::<Waker>(*waker, handed)
                &&& old(self)@.registration matches Some((_, kept)) ==> is_answer(
                    kept,
                    *waker,
                    false,
                )
            },
            final(self)@.when == old(self)@.when,
            final(self)@.registration is Some <==> poll is Pending,
    {
        let now = clock.now();
        let same_task = match &self.id_and_waker {
            Some((_, registered)) if now.nanos < self.when.nanos => will_wake(registered, waker),
            _ => false,
        };
        self.poll_at(now, same_task, waker)
    }

    /// Polls the timer at the time `now`, on behalf of the task that `waker` wakes.
    ///
    /// `same_task` tells if the waker of the timer's entry wakes the task that polls it now; it
    /// plays no part if the timer has no entry.
    pub fn poll_at(&mut self, now: Instant, same_task: bool, waker: &Waker) -> (poll: TimerPoll)
        ensures
            (final(self)@, poll) == old(self)@.poll(now, same_task, poll.entered(*waker)),
            cloned::<Waker>(*waker, poll.entered(*waker)),
            poll is Ready <==> now.nanos >= old(self)@.when.nanos,
            poll is Pending <==> now.nanos < old(self)@.when.nanos && same_task
                && old(self)@.registration is Some,
            poll is Pending ==> final(self)@ == old(self)@,
            poll matches TimerPoll::Ready { when: fired, remove } ==> {
                &&& fired == old(self)@.when
                &&& remove == entry(old(self)@.when, old(self)@.registration)
            },
            poll matches TimerPoll::Register { when: due, remove, waker: handed } ==> {
                &&& due == old(self)@.when
                &&& remove == entry(old(self)@.when, old(self)@.registration)
                &&& cloned::<Waker>(*waker, handed)
            },
            final(self)@.when == old(self)@.when,
            final(self)@.registration is Some <==> poll is Pending,
    {
        if now.nanos >= self.when.nanos {
            let remove = self.unregister();
            TimerPoll::Ready { when: self.when, remove }
        } else if self.id_and_waker.is_some() && same_task {
            TimerPoll::Pending
        } else {
            let remove = self.unregister();
            TimerPoll::Register { when: self.when, remove, waker: waker.clone() }
        }
    }

    /// Forgets the timer's entry and returns it, so that it can be removed from the table.
    ///
    /// A timer that goes out of use has to do this.
    pub fn unregister(&mut self) -> (remove: Option<TimerKey>)
        ensures
            final(self)@ == old(self)@.unregistered(),
            remove == old(self)@.key(),
            final(self)@.when == old(self)@.when,
            final(self)@.registration is None,
            remove == entry(old(self)@.when, old(self)@.registration),
    {
        match self.id_and_waker.take() {
            Some((id, _)) => Some(TimerKey { when: self.when, id }),
            None => None,
        }
    }

    /// Returns the time at which the timer expires.
    pub fn when(&self) -> (instant: Instant)
        ensures
            instant == self@.when,
    {
        self.when
    }

    /// Returns the timer's entry in the reactor's timer table.
    pub fn key(&self) -> (key: Option<TimerKey>)
        ensures
            key == self@.key(),
            key == entry(self@.when, self@.registration),
    {
        match &self.id_and_waker {
            Some((id, _)) => Some(TimerKey { when: self.when, id: *id }),
            None => None,
        }
    }
}

/// A poll leaves an entry in place only on the word of its waker: that waker was asked if it wakes
/// the task that polls, and said so. And it asks for another entry in its place only if that waker
/// was asked and denied it.
pub proof fn law_entry_is_kept_on_its_wakers_word(
    timer: &mut Timer,
    clock: &Clock,
    waker: &Waker,
    poll: TimerPoll,
)
    requires
        call_ensures(Timer::poll, (timer, clock, waker), poll),
    ensures
        poll is Pending ==> {
            &&& old(timer)@.registration matches Some((_, kept))
            &&& is_answer(kept, *waker, true)
        },
        poll is Register ==> {
            old(timer)@.registration matches Some((_, replaced)) ==> is_answer(
                replaced,
                *waker,
                false,
            )
        },
{
}

/// A timer that is polled before its time is not forgotten: either it keeps its entry, which wakes
/// the task that polls, or it asks for one at its time with a clone of that task's waker, in place
/// of the one it had. A timer that is polled at its time or later completes with that time.
pub proof fn law_poll_enters_or_completes(
    timer: &mut Timer,
    now: Instant,
    same_task: bool,
    waker: &Waker,
    poll: TimerPoll,
)
    requires
        call_ensures(Timer::poll_at, (timer, now, same_task, waker), poll),
    ensures
        final(timer)@.when == old(timer)@.when,
        now.nanos < old(timer)@.when.nanos ==> match poll {
            TimerPoll::Ready { .. } => false,
            TimerPoll::Pending => {
                &&& same_task
                &&& old(timer)@.registration is Some
                &&& final(timer)@.registration == old(timer)@.registration
            },
            TimerPoll::Register { when: due, remove, waker: handed } => {
                &&& old(timer)@.registration is None || !same_task
                &&& due == old(timer)@.when
                &&& remove == entry(old(timer)@.when, old(timer)@.registration)
                &&& cloned::<Waker>(*waker, handed)
                &&& final(timer)@.registration is None
            },
        },
        now.nanos >= old(timer)@.when.nanos ==> {
            &&& poll == (TimerPoll::Ready {
                when: old(timer)@.when,
                remove: entry(old(timer)@.when, old(timer)@.registration),
            })
            &&& final(timer)@.registration is None
        },
{
}

/// Which waker is asked about which: an answer is one that the call for these two wakers gave.
proof fn lemma_answer_is_of_the_call(registered: Waker, current: Waker, same_task: bool)
    ensures
        is_answer(registered, current, same_task) ==> call_ensures(
            will_wake,
            (&registered, &current),
            same_task,
        ),
{
}

} // verus!
