//! A signed span of time with millisecond resolution.

use vstd::prelude::*;

verus! {

/// The largest number of whole seconds a `Duration` can hold.
pub const MAX_SECONDS: i64 = 9_223_372_036_854_775;

/// A span of time, held as a whole number of milliseconds. Every value lies
/// between `-i64::MAX` and `i64::MAX` milliseconds, so negation never fails.
#[derive(Clone, Copy, Debug, PartialEq, Eq)]
pub struct Duration {
    millis: i64,
}

impl View for Duration {
    type V = int;

    /// The span in milliseconds.
    closed spec fn view(&self) -> int {
        self.millis as int
    }
}

/// Whether `ms` milliseconds can be held by a `Duration`.
pub open spec fn in_range(ms: int) -> bool {
    -i64::MAX <= ms <= i64::MAX
}

/// Integer division that rounds towards zero.
pub open spec fn div_towards_zero(a: int, b: int) -> int
    recommends
        b > 0,
{
    if a >= 0 {
        a / b
    } else {
        -((-a) / b)
    }
}

impl Duration {
    #[verifier::type_invariant]
    spec fn wf(self) -> bool {
        self.millis > i64::MIN
    }

    /// The empty span.
    pub fn zero() -> (r: Duration)
        ensures
            r@ == 0,
    {
        Duration { millis: 0 }
    }

    /// A span of `ms` milliseconds.
    pub fn milliseconds(ms: i64) -> (r: Duration)
        requires
            in_range(ms as int),
        ensures
            r@ == ms,
    {
        Duration { millis: ms }
    }

    /// A span of `ms` milliseconds, if it can be held.
    pub fn try_milliseconds(ms: i64) -> (r: Option<Duration>)
        ensures
            r is Some <==> in_range(ms as int),
            r is Some ==> r->0@ == ms,
    {
        if ms == i64::MIN {
            None
        } else {
            Some(Duration { millis: ms })
        }
    }

    /// A span of `s` seconds.
    pub fn seconds(s: i64) -> (r: Duration)
        requires
            -MAX_SECONDS <= s <= MAX_SECONDS,
        ensures
            r@ == s * 1000,
    {
        Duration { millis: s * 1000 }
    }

    /// A span of `s` seconds, if it can be held.
    pub fn try_seconds(s: i64) -> (r: Option<Duration>)
        ensures
            r is Some <==> -MAX_SECONDS <= s <= MAX_SECONDS,
            r is Some ==> r->0@ == s * 1000,
    {
        if -MAX_SECONDS <= s && s <= MAX_SECONDS {
            Some(Duration { millis: s * 1000 })
        } else {
            None
        }
    }

    /// A span of `m` minutes.
    pub fn minutes(m: i64) -> (r: Duration)
        requires
            -MAX_SECONDS <= m * 60 <= MAX_SECONDS,
        ensures
            r@ == m * 60_000,
    {
        Duration { millis: m * 60_000 }
    }

    /// A span of `m` minutes, if it can be held.
    pub fn try_minutes(m: i64) -> (r: Option<Duration>)
        ensures
            r is Some <==> -MAX_SECONDS <= m * 60 <= MAX_SECONDS,
            r is Some ==> r->0@ == m * 60_000,
    {
        if -(MAX_SECONDS / 60) <= m && m <= MAX_SECONDS / 60 {
            Some(Duration { millis: m * 60_000 })
        } else {
            None
        }
    }

    /// The sum of two spans, if it can be held.
    pub fn checked_add(self, other: Duration) -> (r: Option<Duration>)
        ensures
            r is Some <==> in_range(self@ + other@),
            r is Some ==> r->0@ == self@ + other@,
    {
        proof {
            use_type_invariant(self);
            use_type_invariant(other);
        }
        let sum: i128 = self.millis as i128 + other.millis as i128;
        if -(i64::MAX as i128) <= sum && sum <= i64::MAX as i128 {
            Some(Duration { millis: sum as i64 })
        } else {
            None
        }
    }

    /// The span in milliseconds.
    pub fn num_milliseconds(&self) -> (r: i64)
        ensures
            r == self@,
            in_range(self@),
    {
        proof {
            use_type_invariant(self);
        }
        self.millis
    }

    /// The whole seconds of the span, rounded towards zero.
    pub fn num_seconds(&self) -> (r: i64)
        ensures
            r == div_towards_zero(self@, 1000),
    {
        proof {
            use_type_invariant(self);
        }
        if self.millis >= 0 {
            self.millis / 1000
        } else {
            -((-self.millis) / 1000)
        }
    }
}

} // verus!
