//! Points in time and spans of time, counted in nanoseconds.

use vstd::prelude::*;

verus! {

/// Nanoseconds in a second.
pub const NANOS_PER_SEC: u32 = 1_000_000_000;

/// Nanoseconds in a millisecond.
pub const NANOS_PER_MILLI: u32 = 1_000_000;

/// Milliseconds in a second.
pub const MILLIS_PER_SEC: u64 = 1_000;

/// One nanosecond more than the longest span.
const BEYOND_LONGEST: i128 = 18_446_744_073_709_551_616_000_000_000;

/// A second is a thousand milliseconds, and a millisecond a million nanoseconds.
pub proof fn law_units_fit_together()
    ensures
        MILLIS_PER_SEC == 1_000,
        NANOS_PER_MILLI == 1_000_000,
        NANOS_PER_SEC == MILLIS_PER_SEC * NANOS_PER_MILLI,
{
}

/// Computes how many nanoseconds `secs` seconds and `nanos` nanoseconds are.
fn count_nanos(secs: u64, nanos: u32) -> (total: i128)
    ensures
        total == secs * NANOS_PER_SEC + nanos,
{
    let per_sec: i128 = NANOS_PER_SEC as i128;
    assert(0 <= secs * per_sec <= u64::MAX * 1_000_000_000) by (nonlinear_arith)
        requires
            0 <= secs <= u64::MAX,
            per_sec == 1_000_000_000,
    ;
    secs as i128 * per_sec + nanos as i128
}

/// A span of time: whole seconds and the nanoseconds beyond them.
#[derive(Clone, Copy, Debug, PartialEq, Eq, Structural)]
pub struct Duration {
    secs: u64,
    nanos: u32,
}

impl Duration {
    /// Tells if the nanoseconds beyond the whole seconds are less than a second.
    ///
    /// Every span that exists at run time is of this kind.
    #[verifier::type_invariant]
    pub closed spec fn is_normal(self) -> bool {
        self.nanos < NANOS_PER_SEC
    }

    /// The length of the span in nanoseconds.
    pub closed spec fn as_nanos(self) -> int {
        self.secs * NANOS_PER_SEC + self.nanos
    }

    /// Creates a span of `secs` seconds and `nanos` nanoseconds.
    ///
    /// Nanoseconds that make up a whole second are carried over into the seconds.
    pub fn new(secs: u64, nanos: u32) -> (duration: Duration)
        requires
            secs + nanos / NANOS_PER_SEC <= u64::MAX,
        ensures
            duration.as_nanos() == secs * NANOS_PER_SEC + nanos,
            duration.is_normal(),
    {
        let carry: u64 = (nanos / NANOS_PER_SEC) as u64;
        Duration { secs: secs + carry, nanos: nanos % NANOS_PER_SEC }
    }

    /// Creates a span of `secs` whole seconds.
    pub fn from_secs(secs: u64) -> (duration: Duration)
        ensures
            duration.as_nanos() == secs * NANOS_PER_SEC,
            duration.is_normal(),
    {
        Duration { secs, nanos: 0 }
    }

    /// Creates a span of `millis` milliseconds.
    pub fn from_millis(millis: u64) -> (duration: Duration)
        ensures
            duration.as_nanos() == millis * NANOS_PER_MILLI,
            duration.is_normal(),
    {
        let rest: u32 = (millis % MILLIS_PER_SEC) as u32;
        Duration { secs: millis / MILLIS_PER_SEC, nanos: rest * NANOS_PER_MILLI }
    }

    /// Computes the length of the span in nanoseconds.
    pub fn nanos(self) -> (nanos: i128)
        ensures
            nanos == self.as_nanos(),
    {
        count_nanos(self.secs, self.nanos)
    }

    /// Returns the whole seconds of the span.
    pub fn as_secs(self) -> (secs: u64)
        ensures
            secs == self.as_nanos() / NANOS_PER_SEC as int,
    {
        proof {
            use_type_invariant(self);
        }
        self.secs
    }

    /// Returns the nanoseconds beyond the whole seconds of the span.
    pub fn subsec_nanos(self) -> (nanos: u32)
        ensures
            nanos == self.as_nanos() % NANOS_PER_SEC as int,
    {
        proof {
            use_type_invariant(self);
        }
        self.nanos
    }

    /// Spans of the same length are the same span.
    pub proof fn law_length_tells_spans_apart(self, other: Duration)
        requires
            self.is_normal(),
            other.is_normal(),
            self.as_nanos() == other.as_nanos(),
        ensures
            self == other,
    {
    }

    /// A span is never negative, and there is a longest one.
    pub proof fn lemma_bounds(self)
        ensures
            0 <= self.as_nanos() <= u64::MAX * NANOS_PER_SEC + u32::MAX,
    {
    }
}

/// Returns the span of `nanos` nanoseconds.
fn span_of(nanos: u128) -> (span: Duration)
    requires
        nanos < (u64::MAX + 1) * NANOS_PER_SEC,
    ensures
        span.as_nanos() == nanos,
        span.is_normal(),
{
    let per_sec: u128 = 1_000_000_000;
    let secs: u128 = nanos / per_sec;
    let rest: u128 = nanos % per_sec;
    Duration { secs: secs as u64, nanos: rest as u32 }
}

/// How far a point in time lies from the origin of a [`Clock`], and on which side of it.
#[derive(Clone, Copy, Debug, PartialEq, Eq, Structural)]
pub enum Offset {
    /// The point is the origin, or lies after it.
    After(Duration),
    /// The point lies before the origin.
    Before(Duration),
}

impl Offset {
    /// The nanoseconds from the origin to the point.
    pub open spec fn as_nanos(self) -> int {
        match self {
            Offset::After(distance) => distance.as_nanos(),
            Offset::Before(distance) => -distance.as_nanos(),
        }
    }

    /// Tells if the distance is normal, and the origin itself is not said to lie before the origin.
    pub open spec fn is_normal(self) -> bool {
        match self {
            Offset::After(distance) => distance.is_normal(),
            Offset::Before(distance) => distance.is_normal() && distance.as_nanos() > 0,
        }
    }
}

/// A point in time, as a number of nanoseconds after the origin of a [`Clock`].
///
/// Points before the origin have a negative number.
#[derive(Clone, Copy, Debug, PartialEq, Eq, Structural)]
pub struct Instant {
    /// Nanoseconds since the clock's origin.
    pub nanos: i128,
}

impl Instant {
    /// Tells if `duration` after this point is still a point that can be written down.
    pub open spec fn can_add(self, duration: Duration) -> bool {
        self.nanos + duration.as_nanos() <= i128::MAX
    }

    /// Tells if a clock can show this point: it is not before the origin, nor further from it
    /// than the longest span.
    pub open spec fn is_reading(self) -> bool {
        0 <= self.nanos < (u64::MAX + 1) * NANOS_PER_SEC
    }

    /// Returns the point that a clock shows when `elapsed` has passed since its origin.
    pub fn since_origin(elapsed: Duration) -> (instant: Instant)
        ensures
            instant.nanos == elapsed.as_nanos(),
    {
        Instant { nanos: elapsed.nanos() }
    }

    /// Returns the point that lies at `offset` from the origin.
    pub fn from_offset(offset: Offset) -> (instant: Instant)
        ensures
            instant.nanos == offset.as_nanos(),
            offset matches Offset::After(distance) ==> instant.nanos == distance.as_nanos(),
            offset matches Offset::Before(distance) ==> instant.nanos == -distance.as_nanos(),
    {
        match offset {
            Offset::After(distance) => Instant::since_origin(distance),
            Offset::Before(distance) => {
                proof {
                    distance.lemma_bounds();
                }
                Instant { nanos: -distance.nanos() }
            },
        }
    }

    /// Returns how far the point lies from the origin, if that is not further than the longest
    /// span.
    pub fn offset(self) -> (offset: Option<Offset>)
        ensures
            match offset {
                Some(offset) => {
                    &&& offset.is_normal()
                    &&& offset.as_nanos() == self.nanos
                    &&& offset is After <==> self.nanos >= 0
                    &&& offset matches Offset::After(distance) ==> distance.as_nanos()
                        == self.nanos
                    &&& offset matches Offset::Before(distance) ==> -distance.as_nanos()
                        == self.nanos
                },
                None => {
                    ||| self.nanos >= (u64::MAX + 1) * NANOS_PER_SEC
                    ||| self.nanos <= -(u64::MAX + 1) * NANOS_PER_SEC
                },
            },
    {
        if self.nanos >= BEYOND_LONGEST || self.nanos <= -BEYOND_LONGEST {
            None
        } else if self.nanos >= 0 {
            Some(Offset::After(span_of(self.nanos as u128)))
        } else {
            Some(Offset::Before(span_of((-self.nanos) as u128)))
        }
    }

    /// A point comes back from its offset, and an offset from its point: a point has one normal
    /// offset only.
    pub proof fn law_offset_and_point_determine_each_other(self, offset: Offset, other: Offset)
        requires
            offset.is_normal(),
            other.is_normal(),
            offset.as_nanos() == self.nanos,
            other.as_nanos() == self.nanos,
        ensures
            offset == other,
    {
        match (offset, other) {
            (Offset::After(a), Offset::After(b)) => a.law_length_tells_spans_apart(b),
            (Offset::Before(a), Offset::Before(b)) => a.law_length_tells_spans_apart(b),
            (Offset::After(a), Offset::Before(_)) => a.lemma_bounds(),
            (Offset::Before(_), Offset::After(b)) => b.lemma_bounds(),
        }
    }

    /// A clock shows no point before its origin, and every span can be counted on from a point that
    /// it shows; from any point a span can be counted on unless the end cannot be written down.
    pub proof fn law_spans_can_be_counted_on(self, duration: Duration)
        ensures
            self.is_reading() ==> self.nanos >= 0 && self.can_add(duration),
            self.can_add(duration) <==> self.nanos + duration.as_nanos() <= i128::MAX,
    {
        duration.lemma_bounds();
    }

    /// Returns the point that lies `duration` after this one.
    pub fn plus(self, duration: Duration) -> (instant: Instant)
        requires
            self.can_add(duration),
        ensures
            instant.nanos == self.nanos + duration.as_nanos(),
    {
        proof {
            duration.lemma_bounds();
        }
        Instant { nanos: self.nanos + duration.nanos() }
    }
}

/// A reading of the operating system's monotonic clock, `std::time::Instant`.
///
/// It is opaque here: it is carried, never looked into.
#[verifier::external_type_specification]
#[verifier::external_body]
pub struct ExInstant(std::time::Instant);

/// Reads the operating system's monotonic clock with `std::time::Instant::elapsed`.
///
/// The result is the time that has passed since `origin`, as whole seconds and the nanoseconds
/// beyond them, which make up less than a second. Nothing else is claimed of it: it depends on
/// when the call is made.
#[verifier::external_body]
fn elapsed_since(origin: &std::time::Instant) -> (secs_and_nanos: (u64, u32))
    ensures
        secs_and_nanos.1 < NANOS_PER_SEC,
{
    let elapsed = origin.elapsed();
    (elapsed.as_secs(), elapsed.subsec_nanos())
}

/// Tells if `elapsed` is what reading the operating system's clock can have given as the time that
/// has passed since `origin`.
pub closed spec fn is_elapsed(origin: std::time::Instant, elapsed: (u64, u32)) -> bool {
    call_ensures(elapsed_since, (&origin,), elapsed)
}

/// A clock that counts from a fixed origin.
#[derive(Clone, Copy, Debug)]
pub struct Clock {
    origin: std::time::Instant,
}

impl Clock {
    /// The point of the operating system's clock from which this clock counts.
    pub closed spec fn spec_origin(self) -> std::time::Instant {
        self.origin
    }

    /// Creates a clock that counts from `origin`, which has to lie in the past.
    ///
    /// A clock whose origin lies in the future stands still at it until it has passed.
    pub fn new(origin: std::time::Instant) -> (clock: Clock)
        ensures
            clock.spec_origin() == origin,
    {
        Clock { origin }
    }

    /// Returns the point from which the clock counts.
    pub fn origin(&self) -> (origin: std::time::Instant)
        ensures
            origin == self.spec_origin(),
    {
        self.origin
    }

    /// Reads the clock.
    ///
    /// Which point it shows depends on when it is read: it is the one that
    /// [`Instant::since_origin`] makes of the time that has passed since the origin, which is none
    /// as long as the origin lies in the future. Whenever that is, the point is one from which
    /// every span can be counted on.
    pub fn now(&self) -> (now: Instant)
        ensures
            exists|elapsed: (u64, u32)|
                {
                    &&& #[trigger] is_elapsed(self.spec_origin(), elapsed)
                    &&& now.nanos == elapsed.0 * NANOS_PER_SEC + elapsed.1
                },
            now.is_reading(),
            forall|duration: Duration| now.can_add(duration),
    {
        let (secs, nanos): (u64, u32) = elapsed_since(&self.origin);
        assert(is_elapsed(self.spec_origin(), (secs, nanos)));
        let now = Instant::since_origin(Duration::new(secs, nanos));
        assert forall|duration: Duration| now.can_add(duration) by {
            duration.lemma_bounds();
        }
        now
    }
}

/// A span since an origin is one that reading the clock against this origin gave, with less than a
/// second beyond its whole seconds.
proof fn lemma_elapsed_is_of_the_call(origin: std::time::Instant, elapsed: (u64, u32))
    ensures
        is_elapsed(origin, elapsed) ==> call_ensures(elapsed_since, (&origin,), elapsed)
            && elapsed.1 < NANOS_PER_SEC,
{
}

} // verus!
