//! Points in time.
use crate::outside::utc_now;
use vstd::prelude::*;

verus! {

/// The farthest that a point in time may be from the epoch, in seconds.
pub const MAX_SECONDS: i64 = 8_400_000_000_000;

/// A point in time, in nanoseconds since the epoch.
#[derive(Clone, Copy)]
pub struct Timestamp {
    nanos: i128,
}

impl View for Timestamp {
    type V = int;

    closed spec fn view(&self) -> int {
        self.nanos as int
    }
}

/// The quotient rounded towards zero.
pub open spec fn truncated(a: int, b: int) -> int {
    if a >= 0 {
        a / b
    } else {
        -((-a) / b)
    }
}

impl Timestamp {
    /// The range of the nanoseconds.
    #[verifier::type_invariant]
    spec fn in_range(self) -> bool {
        -8_400_000_000_000_000_000_000 <= self.nanos <= 8_400_000_000_002_000_000_000
    }

    /// A point in time from seconds since the epoch and nanoseconds after that;
    /// `None` outside the range.
    pub fn at(seconds: i64, nanos: u32) -> (r: Option<Timestamp>)
        ensures
            r is Some == (-MAX_SECONDS <= seconds <= MAX_SECONDS && nanos < 2_000_000_000),
            r matches Some(t) ==> t@ == seconds * 1_000_000_000 + nanos,
    {
        if -MAX_SECONDS <= seconds && seconds <= MAX_SECONDS && nanos < 2_000_000_000 {
            let total: i128 = seconds as i128 * 1_000_000_000 + nanos as i128;
            Some(Timestamp { nanos: total })
        } else {
            None
        }
    }

    /// The current time.
    pub fn now() -> (r: Timestamp)
        ensures
            0 <= r@ <= MAX_SECONDS * 1_000_000_000 + 2_000_000_000,
    {
        let (seconds, nanos) = utc_now();
        let total: i128 = seconds as i128 * 1_000_000_000 + nanos as i128;
        Timestamp { nanos: total }
    }

    /// The seconds since the epoch and the nanoseconds after that.
    pub fn parts(&self) -> (r: (i64, u32))
        ensures
            self@ == r.0 * 1_000_000_000 + r.1,
            r.1 < 1_000_000_000,
    {
        proof {
            use_type_invariant(self);
        }
        if self.nanos >= 0 {
            let q: i128 = self.nanos / 1_000_000_000;
            let rest: i128 = self.nanos % 1_000_000_000;
            (q as i64, rest as u32)
        } else {
            let n: i128 = -self.nanos;
            let q: i128 = n / 1_000_000_000;
            let rest: i128 = n % 1_000_000_000;
            if rest == 0 {
                (-(q as i64), 0)
            } else {
                (-(q as i64) - 1, (1_000_000_000 - rest) as u32)
            }
        }
    }

    /// The whole milliseconds from `earlier` to this point.
    pub fn millis_since(&self, earlier: &Timestamp) -> (r: i64)
        ensures
            r == truncated(self@ - earlier@, 1_000_000),
    {
        proof {
            use_type_invariant(self);
            use_type_invariant(earlier);
        }
        let d: i128 = self.nanos - earlier.nanos;
        let q: i128 = if d >= 0 {
            d / 1_000_000
        } else {
            -((-d) / 1_000_000)
        };
        q as i64
    }

    /// Whether this point is before another.
    pub fn is_before(&self, other: &Timestamp) -> (r: bool)
        ensures
            r == (self@ < other@),
    {
        self.nanos < other.nanos
    }

    /// The point some days after this one, if it is in the range.
    pub fn days_later(&self, days: u32) -> (r: Option<Timestamp>)
        ensures
            r is Some == (self@ + days * 86_400 * 1_000_000_000 <= MAX_SECONDS * 1_000_000_000),
            r matches Some(t) ==> t@ == self@ + days * 86_400 * 1_000_000_000,
    {
        proof {
            use_type_invariant(self);
        }
        let total: i128 = self.nanos + days as i128 * 86_400 * 1_000_000_000;
        if total <= 8_400_000_000_000 * 1_000_000_000 {
            Some(Timestamp { nanos: total })
        } else {
            None
        }
    }

    /// Whether this point lies at least some minutes before another.
    pub fn is_older(&self, now: &Timestamp, minutes: u32) -> (r: bool)
        ensures
            r == (self@ <= now@ - minutes * 60_000_000_000),
    {
        proof {
            use_type_invariant(now);
        }
        self.nanos <= now.nanos - (minutes as i128) * 60_000_000_000
    }
}

/// The quotient is the whole part of the fraction, whatever the sign.
pub proof fn quotient_is_whole(q: int, r: int, b: int)
    requires
        q >= 0,
        0 <= r < b,
    ensures
        truncated(q * b + r, b) == q,
        truncated(-(q * b + r), b) == -q,
{
    assert((q * b + r) / b == q && q * b + r >= 0) by (nonlinear_arith)
        requires
            q >= 0,
            0 <= r < b,
    ;
}

} // verus!
