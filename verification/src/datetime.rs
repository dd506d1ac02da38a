//! Points in time (UTC, whole seconds since the Unix epoch), calendar days
//! (days since 1970-01-01), weeks and months, and closed time ranges.

use vstd::prelude::*;

verus! {

/// Largest distance from the epoch, in seconds, that a `DateTimeUtc` may have.
/// It covers every instant that chrono's `DateTime<Utc>` can represent.
pub const TIMESTAMP_LIMIT: i64 = 9_000_000_000_000_000;

/// Number of seconds in a day.
pub const SECONDS_PER_DAY: i64 = 86400;

/// An instant in UTC with one-second resolution.
#[derive(Clone, Copy, Debug, PartialEq, Eq)]
pub struct DateTimeUtc {
    secs: i64,
}

impl DateTimeUtc {
    #[verifier::type_invariant]
    spec fn in_range(self) -> bool {
        -TIMESTAMP_LIMIT <= self.secs <= TIMESTAMP_LIMIT
    }

    /// Seconds since 1970-01-01T00:00:00Z.
    pub closed spec fn secs(self) -> int {
        self.secs as int
    }

    /// The calendar day (days since 1970-01-01) on which this instant falls.
    pub open spec fn day(self) -> int {
        day_of_secs(self.secs())
    }

    /// Builds an instant from seconds since the epoch; `None` when the value
    /// lies outside `[-TIMESTAMP_LIMIT, TIMESTAMP_LIMIT]`.
    pub fn from_timestamp(secs: i64) -> (r: Option<Self>)
        ensures
            r is Some <==> -TIMESTAMP_LIMIT <= secs <= TIMESTAMP_LIMIT,
            r matches Some(t) ==> t.secs() == secs,
    {
        if -TIMESTAMP_LIMIT <= secs && secs <= TIMESTAMP_LIMIT {
            Some(DateTimeUtc { secs })
        } else {
            None
        }
    }

    /// Seconds since the epoch.
    pub fn timestamp(&self) -> (r: i64)
        ensures
            r == self.secs(),
            -TIMESTAMP_LIMIT <= r <= TIMESTAMP_LIMIT,
    {
        proof {
            use_type_invariant(self);
        }
        self.secs
    }

    /// The calendar day (days since 1970-01-01, UTC) of this instant.
    pub fn date(&self) -> (r: i64)
        ensures
            r == self.day(),
            -TIMESTAMP_LIMIT <= r <= TIMESTAMP_LIMIT,
    {
        let s = self.timestamp();
        proof {
            lemma_day_monotonic(-TIMESTAMP_LIMIT as int, s as int);
            lemma_day_monotonic(s as int, TIMESTAMP_LIMIT as int);
        }
        let q = s / SECONDS_PER_DAY;
        if s % SECONDS_PER_DAY < 0 {
            q - 1
        } else {
            q
        }
    }

    /// Whole seconds from `earlier` to `self` (negative when `earlier` is later).
    pub fn seconds_since(&self, earlier: &DateTimeUtc) -> (r: i64)
        ensures
            r == self.secs() - earlier.secs(),
    {
        self.timestamp() - earlier.timestamp()
    }
}

/// Calendar day (days since 1970-01-01) of an instant given in seconds.
pub open spec fn day_of_secs(secs: int) -> int {
    secs / (SECONDS_PER_DAY as int)
}

/// Day of the week of a calendar day, counting Monday as 0 and Sunday as 6
/// (1970-01-01 was a Thursday).
pub open spec fn weekday_from_monday(day: int) -> int {
    (day + 3) % 7
}

/// The Monday that starts the week (Monday to Sunday) containing `day`.
pub open spec fn week_start(day: int) -> int {
    day - weekday_from_monday(day)
}

/// Larger days never fall on earlier instants' days.
pub proof fn lemma_day_monotonic(a: int, b: int)
    requires
        a <= b,
    ensures
        day_of_secs(a) <= day_of_secs(b),
{
    vstd::arithmetic::div_mod::lemma_div_is_ordered(a, b, SECONDS_PER_DAY as int);
}

/// Week starts are ordered like the days they are taken of.
pub proof fn lemma_week_start_monotonic(a: int, b: int)
    requires
        a <= b,
    ensures
        week_start(a) <= week_start(b),
        week_start(a) <= a,
        a - week_start(a) < 7,
        week_start(a) % 7 == 4,
{
    let wa = weekday_from_monday(a);
    let wb = weekday_from_monday(b);
    assert((a + 3) == 7 * ((a + 3) / 7) + wa) by {
        vstd::arithmetic::div_mod::lemma_fundamental_div_mod(a + 3, 7);
    }
    assert((b + 3) == 7 * ((b + 3) / 7) + wb) by {
        vstd::arithmetic::div_mod::lemma_fundamental_div_mod(b + 3, 7);
    }
    assert((a + 3) / 7 <= (b + 3) / 7) by {
        vstd::arithmetic::div_mod::lemma_div_is_ordered(a + 3, b + 3, 7);
    }
    assert(week_start(a) == 7 * ((a + 3) / 7) - 3);
    assert(week_start(b) == 7 * ((b + 3) / 7) - 3);
    assert((7 * ((a + 3) / 7) - 3) % 7 == 4) by {
        vstd::arithmetic::div_mod::lemma_mod_multiples_vanish((a + 3) / 7, 4, 7);
        assert(7 * ((a + 3) / 7) - 3 == 7 * ((a + 3) / 7 - 1) + 4);
        vstd::arithmetic::div_mod::lemma_mod_multiples_vanish((a + 3) / 7 - 1, 4, 7);
    }
}

/// Monday that starts the week holding the calendar day `day`.
pub fn week_start_of(day: i64) -> (r: i64)
    requires
        -TIMESTAMP_LIMIT <= day <= TIMESTAMP_LIMIT,
    ensures
        r == week_start(day as int),
{
    let s = day + 3;
    let m = s % 7;
    let wd = if m < 0 { m + 7 } else { m };
    day - wd
}

/// Errors when building a `DateTimeRange`.
#[derive(Debug, Clone, Copy, PartialEq, Eq)]
pub enum DateTimeRangeError {
    /// `since` lies after `until`.
    SinceIsAfterUntil,
}

/// A closed range of instants `[since, until]`.
#[derive(Clone, Copy, Debug, PartialEq, Eq)]
pub struct DateTimeRange {
    since: DateTimeUtc,
    until: DateTimeUtc,
}

impl DateTimeRange {
    #[verifier::type_invariant]
    spec fn ordered(self) -> bool {
        self.since.secs() <= self.until.secs()
    }

    /// First instant of the range.
    pub closed spec fn since_spec(self) -> DateTimeUtc {
        self.since
    }

    /// Last instant of the range.
    pub closed spec fn until_spec(self) -> DateTimeUtc {
        self.until
    }

    /// Whether the range starts no later than it ends, as every range built
    /// by `new` does.
    pub open spec fn is_ordered(self) -> bool {
        self.since_spec().secs() <= self.until_spec().secs()
    }

    /// Whether `t` lies within the range, both ends included.
    pub open spec fn includes(self, t: DateTimeUtc) -> bool {
        self.since_spec().secs() <= t.secs() <= self.until_spec().secs()
    }

    /// Builds the range `[since, until]`; refused when `since` is after `until`.
    pub fn new(since: DateTimeUtc, until: DateTimeUtc) -> (r: Result<Self, DateTimeRangeError>)
        ensures
            r is Ok <==> since.secs() <= until.secs(),
            r matches Ok(range) ==> range.since_spec() == since && range.until_spec() == until,
            r matches Err(e) ==> e == DateTimeRangeError::SinceIsAfterUntil,
    {
        if since.timestamp() <= until.timestamp() {
            Ok(DateTimeRange { since, until })
        } else {
            Err(DateTimeRangeError::SinceIsAfterUntil)
        }
    }

    /// First instant of the range.
    pub fn get_since(&self) -> (r: DateTimeUtc)
        ensures
            r == self.since_spec(),
            r.secs() <= self.until_spec().secs(),
    {
        proof {
            use_type_invariant(self);
        }
        self.since
    }

    /// Last instant of the range.
    pub fn get_until(&self) -> (r: DateTimeUtc)
        ensures
            r == self.until_spec(),
            self.since_spec().secs() <= r.secs(),
    {
        proof {
            use_type_invariant(self);
        }
        self.until
    }

    /// Whether `t` lies within the range, both ends included.
    pub fn is_include(&self, t: &DateTimeUtc) -> (r: bool)
        ensures
            r == self.includes(*t),
    {
        self.since.timestamp() <= t.timestamp() && t.timestamp() <= self.until.timestamp()
    }

    /// Whole days from `since` to `until`, rounded down.
    pub fn num_days(&self) -> (r: i64)
        ensures
            r == (self.until_spec().secs() - self.since_spec().secs()) / (SECONDS_PER_DAY as int),
            r >= 0,
    {
        proof {
            use_type_invariant(self);
        }
        let d = self.until.seconds_since(&self.since);
        d / SECONDS_PER_DAY
    }
}

} // verus!
