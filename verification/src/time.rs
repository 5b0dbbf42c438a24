//! Spans of time and points in time, counted in whole nanoseconds.

use vstd::prelude::*;

verus! {

/// Nanoseconds in a second.
pub const NANOS_PER_SEC: u128 = 1_000_000_000;

/// Nanoseconds in a millisecond.
pub const NANOS_PER_MILLI: u128 = 1_000_000;

/// The longest span, in nanoseconds: one nanosecond short of 2^64 seconds.
pub const MAX_NANOS: u128 = 18_446_744_073_709_551_615_999_999_999;

/// A span of time.
#[derive(Debug, Clone, Copy, PartialEq, Eq, Structural)]
pub struct Duration {
    nanos: u128,
}

impl View for Duration {
    type V = nat;

    /// The span in nanoseconds.
    closed spec fn view(&self) -> nat {
        self.nanos as nat
    }
}

impl Duration {
    #[verifier::type_invariant]
    spec fn bounded(self) -> bool {
        self.nanos <= MAX_NANOS
    }

    /// A span of `secs` seconds and `nanos` nanoseconds, the latter less than a
    /// second.
    pub fn new(secs: u64, nanos: u32) -> (r: Self)
        requires
            nanos < NANOS_PER_SEC,
        ensures
            r@ == secs * NANOS_PER_SEC + nanos,
    {
        Duration { nanos: secs as u128 * NANOS_PER_SEC + nanos as u128 }
    }

    pub fn from_secs(secs: u64) -> (r: Self)
        ensures
            r@ == secs * NANOS_PER_SEC,
    {
        Duration { nanos: secs as u128 * NANOS_PER_SEC }
    }

    pub fn from_millis(millis: u64) -> (r: Self)
        ensures
            r@ == millis * NANOS_PER_MILLI,
    {
        Duration { nanos: millis as u128 * NANOS_PER_MILLI }
    }

    /// The whole seconds of the span.
    pub fn as_secs(&self) -> (r: u64)
        ensures
            r == self@ / NANOS_PER_SEC as nat,
    {
        proof {
            use_type_invariant(self);
        }
        (self.nanos / NANOS_PER_SEC) as u64
    }

    /// What is left of the span beyond its whole seconds, in nanoseconds.
    pub fn subsec_nanos(&self) -> (r: u32)
        ensures
            r == self@ % NANOS_PER_SEC as nat,
    {
        (self.nanos % NANOS_PER_SEC) as u32
    }

    /// The span `factor` times, unless that is longer than the longest span.
    pub fn checked_mul(&self, factor: u32) -> (r: Option<Self>)
        ensures
            match r {
                Some(product) => product@ == self@ * factor && product@ <= MAX_NANOS,
                None => self@ * factor > MAX_NANOS,
            },
    {
        proof {
            use_type_invariant(self);
            assert(self.nanos * factor <= MAX_NANOS * 0xffff_ffff) by (nonlinear_arith)
                requires
                    self.nanos <= MAX_NANOS,
                    factor <= 0xffff_ffff,
            ;
        }
        let nanos: u128 = self.nanos * factor as u128;
        if nanos <= MAX_NANOS {
            Some(Duration { nanos })
        } else {
            None
        }
    }

    /// Whether the span is shorter than `other`.
    pub fn shorter_than(&self, other: &Duration) -> (r: bool)
        ensures
            r == (self@ < other@),
    {
        self.nanos < other.nanos
    }
}

/// A point in time, told by the span since the clock was started.
#[derive(Debug, Clone, Copy, PartialEq, Eq, Structural)]
pub struct Instant {
    since_start: Duration,
}

impl View for Instant {
    type V = nat;

    /// The nanoseconds since the clock was started.
    closed spec fn view(&self) -> nat {
        self.since_start@
    }
}

/// The nanoseconds from `earlier` to `later`, none if they are the other way
/// round.
pub open spec fn nanos_between(earlier: Instant, later: Instant) -> nat {
    if later@ >= earlier@ {
        (later@ - earlier@) as nat
    } else {
        0
    }
}

impl Instant {
    /// The point in time that lies `since_start` after the start of the clock.
    pub fn at(since_start: Duration) -> (r: Self)
        ensures
            r@ == since_start@,
    {
        Instant { since_start }
    }

    /// The span since `earlier`, or the empty span if `earlier` is later.
    pub fn duration_since(&self, earlier: &Instant) -> (r: Duration)
        ensures
            r@ == nanos_between(*earlier, *self),
    {
        proof {
            use_type_invariant(&self.since_start);
        }
        if self.since_start.nanos >= earlier.since_start.nanos {
            Duration { nanos: self.since_start.nanos - earlier.since_start.nanos }
        } else {
            Duration { nanos: 0 }
        }
    }

    /// The span since `earlier`, unless `earlier` is later.
    pub fn checked_duration_since(&self, earlier: &Instant) -> (r: Option<Duration>)
        ensures
            match r {
                Some(span) => earlier@ <= self@ && span@ == self@ - earlier@,
                None => earlier@ > self@,
            },
    {
        if self.since_start.nanos >= earlier.since_start.nanos {
            Some(self.duration_since(earlier))
        } else {
            None
        }
    }
}

/// Time that has gone by is the difference of two points in time, and none has gone by
/// where the second is the earlier one. It grows as the second one does.
pub proof fn law_time_goes_by_as_the_clock_does(earlier: Instant, later: Instant, last: Instant)
    ensures
        earlier@ <= later@ ==> earlier@ + nanos_between(earlier, later) == later@,
        later@ <= earlier@ ==> nanos_between(earlier, later) == 0,
        earlier@ <= later@ <= last@ ==> nanos_between(earlier, later) + nanos_between(later, last)
            == nanos_between(earlier, last),
{
}

/// Spans are counted in nanoseconds: a second has a thousand million, a millisecond a
/// million. Their seconds and what is left beyond them make up the whole again, and they
/// multiply as long as the result is less than 2^64 seconds.
pub proof fn law_spans_are_counted_in_nanoseconds(
    secs: u64,
    nanos: u32,
    millis: u64,
    made: Duration,
    span: &Duration,
    other: &Duration,
    whole: u64,
    rest: u32,
    factor: u32,
    product: Option<Duration>,
    shorter: bool,
)
    ensures
        nanos < 1_000_000_000 && call_ensures(Duration::new, (secs, nanos), made) ==> made@ == secs
            * 1_000_000_000 + nanos,
        call_ensures(Duration::from_secs, (secs,), made) ==> made@ == secs * 1_000_000_000,
        call_ensures(Duration::from_millis, (millis,), made) ==> made@ == millis * 1_000_000,
        call_ensures(Duration::as_secs, (span,), whole) && call_ensures(
            Duration::subsec_nanos,
            (span,),
            rest,
        ) ==> span@ == whole * 1_000_000_000 + rest && rest < 1_000_000_000,
        call_ensures(Duration::checked_mul, (span, factor), product) ==> {
            &&& product is Some <==> span@ * factor < 18_446_744_073_709_551_616_000_000_000
            &&& product matches Some(p) ==> p@ == span@ * factor
        },
        call_ensures(Duration::shorter_than, (span, other), shorter) ==> (shorter <==> span@
            < other@),
{
}

/// Points in time are told by the span since the clock was started. The span from one to
/// another is their difference, and where they are the other way round there is none, or
/// an empty one.
pub proof fn law_instants_differ_by_spans(
    since: Duration,
    made: Instant,
    later: &Instant,
    earlier: &Instant,
    span: Duration,
    checked: Option<Duration>,
)
    ensures
        call_ensures(Instant::at, (since,), made) ==> made@ == since@,
        call_ensures(Instant::duration_since, (later, earlier), span) ==> {
            &&& later@ >= earlier@ ==> span@ == later@ - earlier@
            &&& later@ < earlier@ ==> span@ == 0
        },
        call_ensures(Instant::checked_duration_since, (later, earlier), checked) ==> {
            &&& checked is Some <==> later@ >= earlier@
            &&& checked matches Some(gone) ==> gone@ == later@ - earlier@
        },
{
}

} // verus!
