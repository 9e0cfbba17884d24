//! Wall-clock values: a time of day, an instant, the length of a wait, and
//! a signed length of time.
//!
//! All four count nanoseconds. A time of day is kept as chrono keeps one,
//! as whole seconds since midnight and nanoseconds within the second, but
//! without chrono's extra range for leap seconds.
//!
//! Nothing here reads a clock. The host reads it and hands the count to
//! [`Instant::from_reading`].

use vstd::prelude::*;

verus! {

/// Nanoseconds in one second.
pub const NANOS_PER_SEC: u32 = 1_000_000_000;

/// Seconds in one day.
pub const SECS_PER_DAY: u32 = 86_400;

/// Nanoseconds in one day, the length of a daily trigger's cycle.
pub const NANOS_PER_DAY: u64 = 86_400_000_000_000;

/// A wall-clock time of day, from 00:00:00 up to but not including 24:00:00.
#[derive(Clone, Copy, Debug, PartialEq, Eq, Structural)]
pub struct TimeOfDay {
    secs: u32,
    nanos: u32,
}

impl TimeOfDay {
    /// Both parts are in range: less than a day of seconds, less than a
    /// second of nanoseconds.
    pub closed spec fn wf(self) -> bool {
        self.secs < SECS_PER_DAY && self.nanos < NANOS_PER_SEC
    }

    #[verifier::type_invariant]
    spec fn inv(self) -> bool {
        self.wf()
    }

    /// Whole seconds since midnight.
    pub closed spec fn secs_part(self) -> int {
        self.secs as int
    }

    /// Nanoseconds since the last whole second.
    pub closed spec fn nanos_part(self) -> int {
        self.nanos as int
    }

    /// Nanoseconds since midnight: what this time of day stands for.
    pub open spec fn nanos_of_day(self) -> int {
        self.secs_part() * (NANOS_PER_SEC as int) + self.nanos_part()
    }

    /// A well-formed time of day lies within one day, and its parts are the
    /// quotient and remainder of its nanoseconds by one second.
    pub proof fn lemma_in_day(self)
        requires
            self.wf(),
        ensures
            0 <= self.secs_part() < SECS_PER_DAY,
            0 <= self.nanos_part() < NANOS_PER_SEC,
            0 <= self.nanos_of_day() < NANOS_PER_DAY,
            self.secs_part() == self.nanos_of_day() / (NANOS_PER_SEC as int),
            self.nanos_part() == self.nanos_of_day() % (NANOS_PER_SEC as int),
    {
    }

    /// Two well-formed times of day that stand for the same nanosecond are
    /// the same value.
    pub proof fn lemma_same_nanos_same_time(self, other: TimeOfDay)
        requires
            self.wf(),
            other.wf(),
            self.nanos_of_day() == other.nanos_of_day(),
        ensures
            self == other,
    {
    }

    /// The time of day `secs` seconds and `nanos` nanoseconds after
    /// midnight, or `None` when either part is out of range.
    pub fn new(secs: u32, nanos: u32) -> (r: Option<TimeOfDay>)
        ensures
            r is Some <==> secs < SECS_PER_DAY && nanos < NANOS_PER_SEC,
            r matches Some(t) ==> t.wf() && t.secs_part() == secs && t.nanos_part() == nanos,
    {
        if secs < SECS_PER_DAY && nanos < NANOS_PER_SEC {
            Some(TimeOfDay { secs, nanos })
        } else {
            None
        }
    }

    /// The time of day at `hour:minute:second`, or `None` when the hour is
    /// not below 24 or the minute or second not below 60.
    pub fn from_hms(hour: u32, minute: u32, second: u32) -> (r: Option<TimeOfDay>)
        ensures
            r is Some <==> hour < 24 && minute < 60 && second < 60,
            r matches Some(t) ==> t.wf() && t.nanos_part() == 0 && t.secs_part() == hour * 3600
                + minute * 60 + second,
    {
        if hour < 24 && minute < 60 && second < 60 {
            let secs: u32 = hour * 3600 + minute * 60 + second;
            Some(TimeOfDay { secs, nanos: 0 })
        } else {
            None
        }
    }

    /// Whole seconds since midnight.
    pub fn secs(&self) -> (s: u32)
        ensures
            s == self.secs_part(),
            s < SECS_PER_DAY,
    {
        proof {
            use_type_invariant(self);
        }
        self.secs
    }

    /// Nanoseconds since the last whole second.
    pub fn subsec_nanos(&self) -> (n: u32)
        ensures
            n == self.nanos_part(),
            n < NANOS_PER_SEC,
    {
        proof {
            use_type_invariant(self);
        }
        self.nanos
    }

    /// Nanoseconds since midnight.
    pub fn as_nanos(&self) -> (n: u64)
        ensures
            n == self.nanos_of_day(),
            n < NANOS_PER_DAY,
    {
        proof {
            use_type_invariant(self);
        }
        let whole: u64 = self.secs as u64 * 1_000_000_000;
        whole + self.nanos as u64
    }
}

/// A point on the local wall clock, in nanoseconds since 1970-01-01 00:00:00.
#[derive(Clone, Copy, Debug, PartialEq, Eq, Structural)]
pub struct Instant {
    pub nanos: i64,
}

impl Instant {
    /// Nanoseconds since the last midnight on or before this instant.
    pub open spec fn nanos_of_day(self) -> int {
        (self.nanos as int) % (NANOS_PER_DAY as int)
    }

    /// The time of day at this instant.
    pub fn time_of_day(&self) -> (t: TimeOfDay)
        ensures
            t.wf(),
            t.nanos_of_day() == self.nanos_of_day(),
    {
        let in_day: i64 = self.nanos.checked_rem_euclid(86_400_000_000_000).unwrap();
        let secs: u32 = (in_day / 1_000_000_000) as u32;
        let nanos: u32 = (in_day % 1_000_000_000) as u32;
        TimeOfDay { secs, nanos }
    }

    /// The instant that a reading of the clock stands for: the instant that
    /// many nanoseconds after 1970-01-01 00:00:00 where the clock gave a
    /// count, and none where it gave none.
    pub open spec fn of_reading(reading: Option<i64>) -> Option<Instant> {
        match reading {
            Some(nanos) => Some(Instant { nanos }),
            None => None,
        }
    }

    /// Turns a reading of the local wall clock into an instant. The
    /// reading is the count of nanoseconds since 1970-01-01 00:00:00 that
    /// the host got from its clock, or `None` where the clock showed a time
    /// whose count does not fit in 64 bits, which is the case before the
    /// year 1678 and after the year 2261. There is an instant for every
    /// count, and none without one.
    pub fn from_reading(reading: Option<i64>) -> (r: Option<Instant>)
        ensures
            r == Instant::of_reading(reading),
    {
        match reading {
            Some(nanos) => Some(Instant { nanos }),
            None => None,
        }
    }
}

/// The length of a wait, in nanoseconds. It is never negative.
#[derive(Clone, Copy, Debug, PartialEq, Eq, Structural)]
pub struct Wait {
    pub nanos: u64,
}

/// A signed length of time, in nanoseconds: negative for what lies behind.
/// It is wide enough for every wait and for the distance between any two
/// instants, in either direction.
#[derive(Clone, Copy, Debug, PartialEq, Eq, Structural)]
pub struct TimeDelta {
    pub nanos: i128,
}

impl TimeDelta {
    /// The length of time of that many whole seconds.
    pub fn seconds(seconds: i64) -> (delta: TimeDelta)
        ensures
            delta.nanos == seconds * 1_000_000_000,
    {
        TimeDelta { nanos: seconds as i128 * 1_000_000_000 }
    }

    /// The length of a wait as a signed length of time.
    pub fn from_wait(wait: Wait) -> (delta: TimeDelta)
        ensures
            delta.nanos == wait.nanos,
    {
        TimeDelta { nanos: wait.nanos as i128 }
    }
}

/// The signed number of nanoseconds from the time of day `from` to the time
/// of day `to`, both taken on the same day: negative when `to` is the
/// earlier one.
pub open spec fn signed_nanos_between(from: TimeOfDay, to: TimeOfDay) -> int {
    to.nanos_of_day() - from.nanos_of_day()
}

/// chrono's `NaiveTime::signed_duration_since`, applied to `to` and `from`,
/// with the result read by `TimeDelta::num_nanoseconds`.
///
/// Claimed of chrono: for two times of day without a leap second, the
/// difference is the difference of the whole seconds times one second plus
/// the difference of the nanosecond parts, and it fits in an `i64`.
#[verifier::external_body]
fn naive_time_difference(to: TimeOfDay, from: TimeOfDay) -> (d: Option<i64>)
    requires
        to.wf(),
        from.wf(),
    ensures
        d == Some(
            ((to.secs_part() - from.secs_part()) * 1_000_000_000 + (to.nanos_part()
                - from.nanos_part())) as i64,
        ),
{
    let to = chrono::NaiveTime::from_num_seconds_from_midnight_opt(to.secs, to.nanos)?;
    let from = chrono::NaiveTime::from_num_seconds_from_midnight_opt(from.secs, from.nanos)?;
    to.signed_duration_since(from).num_nanoseconds()
}

/// The signed number of nanoseconds from `from` to `to`, as chrono
/// subtracts two times of day.
pub fn nanos_between(from: TimeOfDay, to: TimeOfDay) -> (n: i64)
    ensures
        n == signed_nanos_between(from, to),
        -(NANOS_PER_DAY as int) < n < NANOS_PER_DAY as int,
{
    proof {
        use_type_invariant(from);
        use_type_invariant(to);
    }
    naive_time_difference(to, from).unwrap()
}

} // verus!
