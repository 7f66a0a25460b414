//! Points in time and spans of time.
use vstd::prelude::*;

verus! {

/// The seconds since the Unix epoch at the start of the year -9999.
pub const MIN_SECONDS: i64 = -377_705_116_800;

/// The seconds since the Unix epoch in the last second of the year 9999.
pub const MAX_SECONDS: i64 = 253_402_300_799;

/// The number of nanoseconds in a second.
pub const SECOND: i128 = 1_000_000_000;

/// Whether a number of nanoseconds since the Unix epoch is in the years from -9999 to 9999.
pub open spec fn representable(nanoseconds: int) -> bool {
    MIN_SECONDS * 1_000_000_000 <= nanoseconds < (MAX_SECONDS + 1) * 1_000_000_000
}

/// A span of time, forwards or backwards.
#[derive(Clone, Copy, Debug, PartialEq, Eq, Structural)]
pub struct Duration {
    pub nanoseconds: i128,
}

impl Duration {
    /// Whether the whole seconds of the span can be counted in 64 bits.
    pub open spec fn in_range(&self) -> bool {
        i64::MIN * 1_000_000_000 - 1_000_000_000 < self.nanoseconds < i64::MAX * 1_000_000_000
            + 1_000_000_000
    }

    /// A number of nanoseconds.
    pub fn nanoseconds(nanoseconds: i64) -> (r: Duration)
        ensures
            r.nanoseconds == nanoseconds,
    {
        Duration { nanoseconds: nanoseconds as i128 }
    }

    /// A number of seconds.
    pub fn seconds(seconds: i64) -> (r: Duration)
        ensures
            r.nanoseconds == seconds * 1_000_000_000,
    {
        Duration { nanoseconds: seconds as i128 * SECOND }
    }

    /// A number of days.
    pub fn days(days: i64) -> (r: Duration)
        ensures
            r.nanoseconds == days * 86_400 * 1_000_000_000,
    {
        Duration { nanoseconds: days as i128 * 86_400 * SECOND }
    }
}

/// A point in time in the years from -9999 to 9999, in nanoseconds since the Unix epoch.
#[derive(Clone, Copy, Debug, PartialEq, Eq, Structural)]
pub struct Timestamp {
    unix_nanoseconds: i128,
}

impl View for Timestamp {
    type V = int;

    closed spec fn view(&self) -> int {
        self.unix_nanoseconds as int
    }
}

#[verifier::external_type_specification]
#[verifier::external_body]
pub struct ExComponentRange(time::error::ComponentRange);

/// `OffsetDateTime::from_unix_timestamp` of the `time` crate: accepts the seconds of the years
/// from -9999 to 9999 and no others. The point in time is handed out by its nanoseconds.
#[verifier::external_body]
fn from_unix_seconds(seconds: i64) -> (r: Result<i128, time::error::ComponentRange>)
    ensures
        match r {
            Ok(nanoseconds) => MIN_SECONDS <= seconds <= MAX_SECONDS && nanoseconds == seconds
                * 1_000_000_000,
            Err(_) => !(MIN_SECONDS <= seconds <= MAX_SECONDS),
        },
{
    time::OffsetDateTime::from_unix_timestamp(seconds).map(|t| t.unix_timestamp_nanos())
}

/// `OffsetDateTime + Duration` of the `time` crate, both given by their nanoseconds. It panics
/// where the sum leaves the years from -9999 to 9999.
#[verifier::external_body]
fn add_nanoseconds(unix_nanoseconds: i128, nanoseconds: i128) -> (r: i128)
    requires
        representable(unix_nanoseconds as int),
        representable(unix_nanoseconds + nanoseconds),
    ensures
        r == unix_nanoseconds + nanoseconds,
{
    (time::OffsetDateTime::from_unix_timestamp_nanos(unix_nanoseconds).unwrap()
        + time::Duration::nanoseconds_i128(nanoseconds)).unix_timestamp_nanos()
}

/// `OffsetDateTime::now_utc` of the `time` crate: the time that the machine's clock shows. It
/// panics where that is not in the years from -9999 to 9999.
#[verifier::external_body]
fn now_unix_nanoseconds() -> (r: i128)
    ensures
        representable(r as int),
{
    time::OffsetDateTime::now_utc().unix_timestamp_nanos()
}

/// Whether the machine's clock shows a point in time, in nanoseconds since the Unix epoch: whether
/// that is what a reading of it gives.
pub closed spec fn clock_shows(unix_nanoseconds: int) -> bool {
    exists|reading: i128| #[trigger]
        call_ensures(now_unix_nanoseconds, (), reading) && reading == unix_nanoseconds
}

/// A point in time is not in the years from -9999 to 9999.
#[derive(Clone, Copy, Debug, PartialEq, Eq, Structural)]
pub struct OutOfRange;

impl Timestamp {
    #[verifier::type_invariant]
    spec fn well_formed(&self) -> bool {
        representable(self.unix_nanoseconds as int)
    }

    /// Every point in time is in the years from -9999 to 9999.
    pub fn unix_nanoseconds(&self) -> (r: i128)
        ensures
            r == self@,
            representable(self@),
    {
        proof {
            use_type_invariant(self);
        }
        self.unix_nanoseconds
    }

    /// The point in time that is the given number of seconds after the Unix epoch.
    pub fn from_unix_timestamp(seconds: i64) -> (r: Result<Timestamp, OutOfRange>)
        ensures
            match r {
                Ok(timestamp) => MIN_SECONDS <= seconds <= MAX_SECONDS && timestamp@ == seconds
                    * 1_000_000_000,
                Err(_) => !(MIN_SECONDS <= seconds <= MAX_SECONDS),
            },
    {
        match from_unix_seconds(seconds) {
            Ok(unix_nanoseconds) => Ok(Timestamp { unix_nanoseconds }),
            Err(_) => Err(OutOfRange),
        }
    }

    /// The point in time that the machine's clock shows.
    pub fn now_utc() -> (r: Timestamp)
        ensures
            clock_shows(r@),
            representable(r@),
    {
        Timestamp { unix_nanoseconds: now_unix_nanoseconds() }
    }

    /// The point in time that is a span of time later.
    pub fn plus(self, span: Duration) -> (r: Timestamp)
        requires
            representable(self@ + span.nanoseconds),
        ensures
            r@ == self@ + span.nanoseconds,
    {
        proof {
            use_type_invariant(&self);
        }
        Timestamp { unix_nanoseconds: add_nanoseconds(self.unix_nanoseconds, span.nanoseconds) }
    }

    /// Whether a span of time can be added.
    pub fn can_add(&self, span: Duration) -> (r: bool)
        ensures
            r == representable(self@ + span.nanoseconds),
    {
        proof {
            use_type_invariant(self);
        }
        let least: i128 = MIN_SECONDS as i128 * SECOND;
        let most: i128 = (MAX_SECONDS as i128 + 1) * SECOND - 1;
        least - self.unix_nanoseconds <= span.nanoseconds && span.nanoseconds <= most
            - self.unix_nanoseconds
    }

    /// Whether this point in time comes after another.
    pub fn is_after(&self, other: &Timestamp) -> (r: bool)
        ensures
            r == (self@ > other@),
    {
        self.unix_nanoseconds > other.unix_nanoseconds
    }
}

/// A time that the clock shows is one that was read from it.
proof fn law_shown_time_was_read(unix_nanoseconds: int)
    requires
        clock_shows(unix_nanoseconds),
    ensures
        exists|reading: i128| #[trigger]
            call_ensures(now_unix_nanoseconds, (), reading) && reading == unix_nanoseconds,
{
}

} // verus!
