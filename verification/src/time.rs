//! Moments and how many whole days lie between them.

use vstd::prelude::*;

use crate::outside::{
    datable, datetime_text, datetime_utc_text, naive_datetime_text, utc_clock, utc_datetime_text,
    MAX_SECS, MIN_SECS,
};

verus! {

/// The nanoseconds of a second.
pub const NANOS_PER_SEC: i128 = 1_000_000_000;

/// The nanoseconds of a day.
pub const NANOS_PER_DAY: i128 = 86_400_000_000_000;

/// A moment of UTC, to the nanosecond. Its view is the number of nanoseconds
/// since the Unix epoch.
#[derive(Clone, Copy, Debug)]
pub struct Timestamp {
    secs: i64,
    nanos: u32,
}

impl View for Timestamp {
    type V = int;

    closed spec fn view(&self) -> int {
        self.secs * NANOS_PER_SEC + self.nanos
    }
}

/// How a moment is written in answers.
pub open spec fn moment_text(moment: int) -> Seq<char> {
    datetime_text((moment / (NANOS_PER_SEC as int)) as i64, (moment % (NANOS_PER_SEC as int)) as u32)
}

/// How a moment is written in the notes of an export.
pub open spec fn moment_utc_text(moment: int) -> Seq<char> {
    datetime_utc_text(
        (moment / (NANOS_PER_SEC as int)) as i64,
        (moment % (NANOS_PER_SEC as int)) as u32,
    )
}

impl Timestamp {
    #[verifier::type_invariant]
    spec fn valid(self) -> bool {
        datable(self.secs as int, self.nanos as int)
    }

    /// The moment some seconds and nanoseconds after the Unix epoch, if it can
    /// be dated.
    pub fn new(secs: i64, nanos: u32) -> (r: Option<Timestamp>)
        ensures
            r is Some <==> datable(secs as int, nanos as int),
            r matches Some(t) ==> t@ == secs * NANOS_PER_SEC + nanos,
    {
        if MIN_SECS <= secs && secs <= MAX_SECS && nanos < 1_000_000_000 {
            Some(Timestamp { secs, nanos })
        } else {
            None
        }
    }

    /// Whether the clock gave this moment when it was read.
    pub closed spec fn given(self) -> bool {
        call_ensures(utc_clock, (), (self.secs, self.nanos))
    }

    /// A moment that the clock gave is the one that the clock read: so many whole
    /// seconds and so many nanoseconds after the Unix epoch.
    pub(crate) proof fn law_given_moments_come_from_the_clock(self)
        ensures
            self.given() ==> exists|secs: i64, nanos: u32| #[trigger]
                call_ensures(utc_clock, (), (secs, nanos)) && self@ == secs * 1_000_000_000
                    + nanos,
    {
        if self.given() {
            assert(call_ensures(utc_clock, (), (self.secs, self.nanos)));
        }
    }

    /// The present moment: one that the clock gives. It can be dated.
    pub fn now() -> (r: Timestamp)
        ensures
            r.given(),
            datable(r@ / (NANOS_PER_SEC as int), r@ % (NANOS_PER_SEC as int)),
    {
        let (secs, nanos) = utc_clock();
        Timestamp { secs, nanos }
    }

    /// The whole seconds since the Unix epoch.
    pub fn secs(&self) -> (r: i64)
        ensures
            r == self@ / (NANOS_PER_SEC as int),
    {
        proof {
            use_type_invariant(self);
        }
        self.secs
    }

    /// The nanoseconds behind the whole seconds.
    pub fn nanos(&self) -> (r: u32)
        ensures
            r == self@ % (NANOS_PER_SEC as int),
    {
        proof {
            use_type_invariant(self);
        }
        self.nanos
    }

    /// The moment as it is written in answers.
    pub fn text(&self) -> (r: String)
        ensures
            r@ == moment_text(self@),
    {
        proof {
            use_type_invariant(self);
        }
        naive_datetime_text(self.secs, self.nanos)
    }

    /// The moment as it is written in the notes of an export.
    pub fn utc_text(&self) -> (r: String)
        ensures
            r@ == moment_utc_text(self@),
    {
        proof {
            use_type_invariant(self);
        }
        utc_datetime_text(self.secs, self.nanos)
    }

    /// Whether this moment comes before another.
    pub fn before(&self, other: &Timestamp) -> (r: bool)
        ensures
            r == (self@ < other@),
    {
        proof {
            use_type_invariant(self);
            use_type_invariant(other);
        }
        self.secs < other.secs || (self.secs == other.secs && self.nanos < other.nanos)
    }

    /// The whole days from an earlier moment to this one.
    pub fn days_since(&self, earlier: &Timestamp) -> (r: i64)
        requires
            earlier@ <= self@,
        ensures
            r == (self@ - earlier@) / (NANOS_PER_DAY as int),
            0 <= r < 1_000_000_000,
    {
        proof {
            use_type_invariant(self);
            use_type_invariant(earlier);
        }
        let span: i128 = (self.secs as i128 - earlier.secs as i128) * NANOS_PER_SEC + (
        self.nanos as i128 - earlier.nanos as i128);
        (span / NANOS_PER_DAY) as i64
    }
}

} // verus!
