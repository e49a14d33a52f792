//! Yielding with some small probability.
//!
//! A task that does a lot of I/O and never gets blocked on it may keep the executor busy forever
//! without giving other tasks a chance to run. To prevent this kind of task starvation, I/O
//! operations yield randomly even if they are ready.

use vstd::prelude::*;

verus! {

/// One operation in this many yields, on average.
pub const YIELD_ONE_IN: usize = 100;

/// Whether an operation yields before it starts.
#[derive(Clone, Copy, Debug, PartialEq, Eq, Structural)]
pub enum Yield {
    /// Wake the task, so that it is polled again, and return without a result.
    Now,
    /// Go on.
    Not,
}

/// Draws a number below `bound` with `fastrand::usize`.
///
/// Each thread seeds its generator from the time, so all that is claimed is that the number lies in
/// the range asked for. That function panics on an empty range, so `bound` is not zero.
#[verifier::external_body]
fn random_below(bound: usize) -> (draw: usize)
    requires
        bound > 0,
    ensures
        draw < bound,
{
    fastrand::usize(..bound)
}

/// Tells if `draw` is what a call of the random number generator for a number below `bound` can
/// have returned.
pub closed spec fn is_drawn_below(bound: usize, draw: usize) -> bool {
    call_ensures(random_below, (bound,), draw)
}

/// Decides by a number drawn below [`YIELD_ONE_IN`] whether to yield: one of them says so.
pub fn yield_on(draw: usize) -> (decision: Yield)
    ensures
        decision == spec_yield_on(draw),
        decision == Yield::Now <==> draw == 0,
{
    if draw == 0 {
        Yield::Now
    } else {
        Yield::Not
    }
}

/// The decision that a number drawn below [`YIELD_ONE_IN`] stands for.
pub open spec fn spec_yield_on(draw: usize) -> Yield {
    if draw == 0 {
        Yield::Now
    } else {
        Yield::Not
    }
}

/// Decides at random whether to yield, with a probability of one in [`YIELD_ONE_IN`].
///
/// A number below [`YIELD_ONE_IN`] is drawn, and [`yield_on`] decides by it.
pub fn maybe_yield() -> (decision: Yield)
    ensures
        exists|draw: usize|
            {
                &&& is_drawn_below(YIELD_ONE_IN, draw)
                &&& draw < YIELD_ONE_IN
                &&& decision == #[trigger] spec_yield_on(draw)
                &&& decision == Yield::Now <==> draw == 0
            },
{
    let draw: usize = random_below(YIELD_ONE_IN);
    yield_on(draw)
}

/// Of the numbers that can be drawn exactly one makes the operation yield, and every other one
/// lets it go on.
pub proof fn law_one_draw_yields(draw: usize)
    requires
        draw < YIELD_ONE_IN,
    ensures
        spec_yield_on(draw) == Yield::Now <==> draw == 0,
        spec_yield_on(draw) == Yield::Not <==> 0 < draw < YIELD_ONE_IN,
        YIELD_ONE_IN == 100,
{
}

/// What is drawn lies below the bound that it was drawn for.
pub proof fn law_draw_is_below_its_bound(bound: usize, draw: usize)
    requires
        bound > 0,
        is_drawn_below(bound, draw),
    ensures
        draw < bound,
{
}

/// A draw is one that the call for this bound gave.
proof fn lemma_draw_is_of_the_call(bound: usize, draw: usize)
    ensures
        is_drawn_below(bound, draw) ==> call_ensures(random_below, (bound,), draw),
{
}

} // verus!
