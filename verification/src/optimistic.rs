//! Waiting that trusts the first wakeup.

use vstd::prelude::*;

verus! {

/// What has to be done when an optimistic wait is polled.
#[derive(Debug)]
pub enum OptimisticPoll<E> {
    /// Poll the future that is waited for, and return what it returns.
    PollInner,
    /// The task was woken since: complete with this result, without looking.
    Ready(Result<(), E>),
}

/// A wait that polls a future once, waits for a wakeup, and then optimistically assumes the
/// future is ready.
#[derive(Clone, Copy, Debug)]
pub struct Optimistic {
    polled: bool,
}

impl Optimistic {
    /// Tells if the future has been polled.
    pub closed spec fn polled(self) -> bool {
        self.polled
    }

    /// Creates a wait for a future that has not been polled.
    pub fn new() -> (wait: Optimistic)
        ensures
            !wait.polled(),
    {
        Optimistic { polled: false }
    }

    /// Polls the wait.
    pub fn poll<E>(&mut self) -> (poll: OptimisticPoll<E>)
        ensures
            final(self).polled(),
            poll == spec_poll::<E>(old(self).polled()),
            poll is PollInner <==> !old(self).polled(),
            poll matches OptimisticPoll::Ready(result) ==> result is Ok,
    {
        if !self.polled {
            self.polled = true;
            OptimisticPoll::PollInner
        } else {
            OptimisticPoll::Ready(Ok(()))
        }
    }
}

/// What a poll of a wait asks for, depending on whether the future has been polled.
pub open spec fn spec_poll<E>(polled: bool) -> OptimisticPoll<E> {
    if polled {
        OptimisticPoll::Ready(Ok(()))
    } else {
        OptimisticPoll::PollInner
    }
}

/// What each of `n` polls in a row asks for.
pub open spec fn polls<E>(polled: bool, n: nat) -> Seq<OptimisticPoll<E>>
    decreases n,
{
    if n == 0 {
        seq![]
    } else {
        seq![spec_poll::<E>(polled)] + polls::<E>(true, (n - 1) as nat)
    }
}

/// The future is polled by the first poll of the wait and never again; every later poll
/// completes successfully.
pub proof fn law_inner_is_polled_once<E>(n: nat)
    ensures
        polls::<E>(false, n).len() == n,
        forall|i: int|
            0 <= i < n ==> #[trigger] polls::<E>(false, n)[i] == if i == 0 {
                OptimisticPoll::<E>::PollInner
            } else {
                OptimisticPoll::Ready(Ok(()))
            },
{
    if n > 0 {
        lemma_later_polls_are_ready::<E>((n - 1) as nat);
    }
}

proof fn lemma_later_polls_are_ready<E>(n: nat)
    ensures
        polls::<E>(true, n).len() == n,
        forall|i: int|
            0 <= i < n ==> #[trigger] polls::<E>(true, n)[i] == OptimisticPoll::<E>::Ready(Ok(())),
    decreases n,
{
    if n > 0 {
        lemma_later_polls_are_ready::<E>((n - 1) as nat);
    }
}

/// Whether a poll looks at the future depends on whether one has before, and a poll that does not
/// look succeeds.
pub proof fn law_looks_exactly_if_not_polled<E>(polled: bool)
    ensures
        spec_poll::<E>(polled) is PollInner <==> !polled,
        spec_poll::<E>(polled) matches OptimisticPoll::Ready(result) ==> result is Ok,
{
}

} // verus!
