//! UUIDs that tell when they were made.
use vstd::prelude::*;

use crate::clock::{Duration, Timestamp, MAX_SECONDS};

verus! {

/// The field of a UUID that is left when the last bits are divided off and the bits before it
/// are taken away.
pub open spec fn field(bits: u128, unit: int, range: int) -> int {
    bits as int / unit % range
}

/// The version that a UUID states, in four bits.
pub open spec fn version(bits: u128) -> int {
    field(bits, 0x1000_0000_0000_0000_0000, 0x10)
}

/// The steps of 100 nanoseconds since 15 October 1582 that a UUID of version 1 states: the low
/// 32 bits come first, then the middle 16, then the high 12.
pub open spec fn ticks_low_first(bits: u128) -> int {
    field(bits, 0x1_0000_0000_0000_0000, 0x1000) * 0x1_0000_0000_0000 + field(
        bits,
        0x1_0000_0000_0000_0000_0000,
        0x1_0000,
    ) * 0x1_0000_0000 + field(bits, 0x1_0000_0000_0000_0000_0000_0000, 0x1_0000_0000)
}

/// The steps of 100 nanoseconds since 15 October 1582 that a UUID of version 6 states: the high
/// 48 bits come first, then the low 12.
pub open spec fn ticks_high_first(bits: u128) -> int {
    field(bits, 0x1_0000_0000_0000_0000_0000, 0x1_0000_0000_0000) * 0x1000 + field(
        bits,
        0x1_0000_0000_0000_0000,
        0x1000,
    )
}

/// The milliseconds since the Unix epoch that a UUID of version 7 states, in its first 48 bits.
pub open spec fn unix_milliseconds(bits: u128) -> int {
    field(bits, 0x1_0000_0000_0000_0000_0000, 0x1_0000_0000_0000)
}

/// The seconds and nanoseconds since the Unix epoch for a number of steps of 100 nanoseconds
/// since 15 October 1582. Times before the Unix epoch wrap around to the far future.
pub open spec fn unix_time_of_ticks(ticks: int) -> (int, int) {
    let since = (ticks - 0x01B2_1DD2_1381_4000) % 0x1_0000_0000_0000_0000;
    (since / 10_000_000, since % 10_000_000 * 100)
}

/// The seconds and nanoseconds since the Unix epoch that a UUID of version 1, 6 or 7 states.
pub open spec fn unix_time(bits: u128) -> Option<(int, int)> {
    if version(bits) == 1 {
        Some(unix_time_of_ticks(ticks_low_first(bits)))
    } else if version(bits) == 6 {
        Some(unix_time_of_ticks(ticks_high_first(bits)))
    } else if version(bits) == 7 {
        Some((unix_milliseconds(bits) / 1000, unix_milliseconds(bits) % 1000 * 1_000_000))
    } else {
        None
    }
}

/// `Uuid::get_timestamp` of the `uuid` crate and `Timestamp::to_unix`, for the UUID with the
/// given bits: the time that a UUID of version 1, 6 or 7 states, and nothing for others.
#[verifier::external_body]
fn get_unix_time(bits: u128) -> (r: Option<(u64, u32)>)
    ensures
        match r {
            Some((seconds, nanoseconds)) => unix_time(bits) == Some(
                (seconds as int, nanoseconds as int),
            ),
            None => unix_time(bits) is None,
        },
{
    uuid::Uuid::from_u128(bits).get_timestamp().map(|timestamp| timestamp.to_unix())
}

/// Why a UUID does not tell a point in time.
#[derive(Clone, Copy, Debug, PartialEq, Eq, Structural)]
pub enum UuidTimeError {
    NotTimeBased,
    Overflow,
    InvalidUnixTimestamp,
}

impl UuidTimeError {
    /// The sentence that reports the error.
    pub fn message(&self) -> (r: &'static str)
        ensures
            r@ == match self {
                UuidTimeError::NotTimeBased =>
                    "UUID is not a time-based version (expected v1, v6, or v7)"@,
                UuidTimeError::Overflow => "Overflow: Unix timestamp too large for i64"@,
                UuidTimeError::InvalidUnixTimestamp => "Invalid Unix timestamp"@,
            },
    {
        match self {
            UuidTimeError::NotTimeBased =>
                "UUID is not a time-based version (expected v1, v6, or v7)",
            UuidTimeError::Overflow => "Overflow: Unix timestamp too large for i64",
            UuidTimeError::InvalidUnixTimestamp => "Invalid Unix timestamp",
        }
    }
}

/// The point in time, in nanoseconds since the Unix epoch, of seconds and nanoseconds.
pub open spec fn time_of_parts(seconds: int, nanoseconds: int) -> Result<int, UuidTimeError> {
    if seconds > i64::MAX {
        Err(UuidTimeError::Overflow)
    } else if seconds > MAX_SECONDS {
        Err(UuidTimeError::InvalidUnixTimestamp)
    } else {
        Ok(seconds * 1_000_000_000 + nanoseconds)
    }
}

/// The point in time, in nanoseconds since the Unix epoch, that a UUID tells.
pub open spec fn uuid_time(bits: u128) -> Result<int, UuidTimeError> {
    match unix_time(bits) {
        None => Err(UuidTimeError::NotTimeBased),
        Some((seconds, nanoseconds)) => time_of_parts(seconds, nanoseconds),
    }
}

/// The point in time that is given by seconds and nanoseconds since the Unix epoch.
fn timestamp_from_parts(seconds: u64, nanoseconds: u32) -> (r: Result<
    Timestamp,
    UuidTimeError,
>)
    requires
        nanoseconds < 1_000_000_000,
    ensures
        match r {
            Ok(timestamp) => time_of_parts(seconds as int, nanoseconds as int) == Ok::<
                int,
                UuidTimeError,
            >(timestamp@),
            Err(error) => time_of_parts(seconds as int, nanoseconds as int) == Err::<
                int,
                UuidTimeError,
            >(error),
        },
{
    if seconds > i64::MAX as u64 {
        return Err(UuidTimeError::Overflow);
    }
    let base_time = match Timestamp::from_unix_timestamp(seconds as i64) {
        Ok(base_time) => base_time,
        Err(_) => return Err(UuidTimeError::InvalidUnixTimestamp),
    };
    Ok(base_time.plus(Duration::nanoseconds(nanoseconds as i64)))
}

/// A UUID states less than a second beside its seconds.
proof fn lemma_unix_time_range(bits: u128)
    ensures
        unix_time(bits) matches Some((seconds, nanoseconds)) ==> 0 <= seconds && 0 <= nanoseconds
            < 1_000_000_000,
{
}

/// The point in time that a UUID tells.
pub fn timestamp_from_uuid(uuid: u128) -> (r: Result<Timestamp, UuidTimeError>)
    ensures
        match r {
            Ok(timestamp) => uuid_time(uuid) == Ok::<int, UuidTimeError>(timestamp@),
            Err(error) => uuid_time(uuid) == Err::<int, UuidTimeError>(error),
        },
{
    let (seconds, nanoseconds) = match get_unix_time(uuid) {
        Some(parts) => parts,
        None => return Err(UuidTimeError::NotTimeBased),
    };
    proof {
        lemma_unix_time_range(uuid);
    }
    timestamp_from_parts(seconds, nanoseconds)
}

/// The seconds of a UUID never exceed what a signed number of 64 bits can hold.
pub proof fn law_seconds_never_overflow(bits: u128)
    ensures
        uuid_time(bits) != Err::<int, UuidTimeError>(UuidTimeError::Overflow),
{
}

/// A UUID of version 7 tells its milliseconds, unless these lie after the year 9999.
pub proof fn law_version_7_tells_milliseconds(bits: u128)
    requires
        version(bits) == 7,
    ensures
        unix_milliseconds(bits) < (MAX_SECONDS + 1) * 1000 ==> uuid_time(bits) == Ok::<
            int,
            UuidTimeError,
        >(unix_milliseconds(bits) * 1_000_000),
        unix_milliseconds(bits) >= (MAX_SECONDS + 1) * 1000 ==> uuid_time(bits) == Err::<
            int,
            UuidTimeError,
        >(UuidTimeError::InvalidUnixTimestamp),
{
}

/// Of two UUIDs of version 7, the one that tells the later point in time is the larger number.
pub proof fn law_version_7_is_ordered_by_time(first: u128, second: u128)
    requires
        version(first) == 7,
        version(second) == 7,
        uuid_time(first) is Ok,
        uuid_time(second) is Ok,
        uuid_time(first)->Ok_0 < uuid_time(second)->Ok_0,
    ensures
        first < second,
{
    law_version_7_tells_milliseconds(first);
    law_version_7_tells_milliseconds(second);
}

/// Where a UUID does not stand for a `TimedUuid`.
#[derive(Clone, Copy, Debug, PartialEq, Eq, Structural)]
pub enum TimedUuidError {
    /// The text is not that of a UUID.
    InvalidUuid,
    /// The UUID does not tell a point in time.
    InvalidTimestamp(UuidTimeError),
}

impl TimedUuidError {
    /// The sentence that is put before the report of the cause. A text that is not that of a
    /// UUID is reported by its cause alone.
    pub fn message(&self) -> (r: Option<&'static str>)
        ensures
            match self {
                TimedUuidError::InvalidUuid => r is None,
                TimedUuidError::InvalidTimestamp(_) => r matches Some(text) && text@
                    == "Invalid timestamp"@,
            },
    {
        match self {
            TimedUuidError::InvalidUuid => None,
            TimedUuidError::InvalidTimestamp(_) => Some("Invalid timestamp"),
        }
    }
}

/// A UUID that tells a point in time.
#[derive(Clone, Copy, Debug, PartialEq, Eq, Hash, Structural)]
pub struct TimedUuid {
    bits: u128,
}

impl View for TimedUuid {
    type V = u128;

    closed spec fn view(&self) -> u128 {
        self.bits
    }
}

#[verifier::external_type_specification]
#[verifier::external_body]
pub struct ExUuidError(uuid::Error);

/// The bits of the UUID that a text is read as.
pub uninterp spec fn parsed_uuid(text: Seq<char>) -> Option<u128>;

/// `Uuid::from_str` of the `uuid` crate. It reads all the formats in which the crate writes
/// UUIDs.
#[verifier::external_body]
fn parse_uuid(text: &str) -> (r: Result<u128, uuid::Error>)
    ensures
        match r {
            Ok(bits) => parsed_uuid(text@) == Some(bits),
            Err(_) => parsed_uuid(text@) is None,
        },
{
    text.parse::<uuid::Uuid>().map(|uuid| uuid.as_u128())
}

/// The small hexadecimal digit of a number below sixteen.
pub open spec fn hex_digit(value: int) -> char {
    seq!['0', '1', '2', '3', '4', '5', '6', '7', '8', '9', 'a', 'b', 'c', 'd', 'e', 'f'][value]
}

/// The number with the given number of hexadecimal zeros behind a one.
pub open spec fn hex_unit(zeros: nat) -> int
    decreases zeros,
{
    if zeros == 0 {
        1
    } else {
        16 * hex_unit((zeros - 1) as nat)
    }
}

/// A UUID in hexadecimal, with hyphens after 8, 12, 16 and 20 digits.
pub open spec fn hyphenated(bits: u128) -> Seq<char> {
    Seq::new(
        36,
        |i: int|
            if i == 8 || i == 13 || i == 18 || i == 23 {
                '-'
            } else {
                let hyphens: int = if i < 8 {
                    0
                } else if i < 13 {
                    1
                } else if i < 18 {
                    2
                } else if i < 23 {
                    3
                } else {
                    4
                };
                hex_digit(field(bits, hex_unit((31 - (i - hyphens)) as nat), 16))
            },
    )
}

/// The text that the `uuid` crate displays a UUID with: small hexadecimal digits with hyphens.
/// The crate reads this text as the same UUID again.
#[verifier::external_body]
fn format_uuid(bits: u128) -> (r: String)
    ensures
        r@ == hyphenated(bits),
        parsed_uuid(r@) == Some(bits),
{
    uuid::Uuid::from_u128(bits).to_string()
}

/// `Uuid::now_v7` of the `uuid` crate: a UUID of version 7 for the current time, filled up with
/// random bits. It panics where the machine's clock shows a time before the Unix epoch.
#[verifier::external_body]
fn now_v7() -> (r: u128)
    ensures
        version(r) == 7,
{
    uuid::Uuid::now_v7().as_u128()
}

/// Whether the bits are those of a UUID that is drawn for the current time.
pub closed spec fn drawn(bits: u128) -> bool {
    call_ensures(now_v7, (), bits)
}

/// The UUID that a text stands for, or why it stands for none that tells a point in time.
pub open spec fn read_timed(text: Seq<char>) -> Result<u128, TimedUuidError> {
    match parsed_uuid(text) {
        None => Err(TimedUuidError::InvalidUuid),
        Some(bits) => timed(bits),
    }
}

/// A UUID, or why it does not tell a point in time.
pub open spec fn timed(bits: u128) -> Result<u128, TimedUuidError> {
    match uuid_time(bits) {
        Ok(_) => Ok(bits),
        Err(error) => Err(TimedUuidError::InvalidTimestamp(error)),
    }
}

/// A result for a UUID, by the bits of the UUID.
pub open spec fn timed_view(result: Result<TimedUuid, TimedUuidError>) -> Result<
    u128,
    TimedUuidError,
> {
    match result {
        Ok(id) => Ok(id@),
        Err(error) => Err(error),
    }
}

/// A `TimedUuid` has nothing beside its bits.
pub proof fn lemma_id_is_its_bits(first: TimedUuid, second: TimedUuid)
    requires
        first@ == second@,
    ensures
        first == second,
{
}

impl TimedUuid {
    #[verifier::type_invariant]
    spec fn well_formed(&self) -> bool {
        uuid_time(self.bits) is Ok
    }

    /// The bits of the UUID.
    pub fn as_u128(&self) -> (r: u128)
        ensures
            r == self@,
            uuid_time(r) is Ok,
    {
        proof {
            use_type_invariant(self);
        }
        self.bits
    }

    /// Makes sure that a UUID tells a point in time.
    pub fn try_from(value: u128) -> (r: Result<TimedUuid, TimedUuidError>)
        ensures
            timed_view(r) == timed(value),
    {
        match timestamp_from_uuid(value) {
            Ok(_) => Ok(TimedUuid { bits: value }),
            Err(error) => Err(TimedUuidError::InvalidTimestamp(error)),
        }
    }

    /// A new UUID of version 7 for the current time. Fails just where that is after the year
    /// 9999.
    pub fn new_now() -> (r: Result<TimedUuid, TimedUuidError>)
        ensures
            match r {
                Ok(id) => version(id@) == 7 && uuid_time(id@) is Ok,
                Err(error) => error == TimedUuidError::InvalidTimestamp(
                    UuidTimeError::InvalidUnixTimestamp,
                ),
            },
            exists|bits: u128| #[trigger]
                drawn(bits) && version(bits) == 7 && timed_view(r) == timed(bits),
    {
        let uuid = now_v7();
        assert(drawn(uuid));
        proof {
            law_version_7_tells_milliseconds(uuid);
        }
        TimedUuid::try_from(uuid)
    }

    /// The point in time that the UUID tells.
    pub fn timestamp(&self) -> (r: Timestamp)
        ensures
            uuid_time(self@) == Ok::<int, UuidTimeError>(r@),
    {
        proof {
            use_type_invariant(self);
        }
        match timestamp_from_uuid(self.bits) {
            Ok(timestamp) => timestamp,
            Err(_) => vstd::pervasive::unreached(),
        }
    }

    /// Reads a UUID that tells a point in time.
    pub fn from_str(s: &str) -> (r: Result<TimedUuid, TimedUuidError>)
        ensures
            timed_view(r) == read_timed(s@),
    {
        match parse_uuid(s) {
            Ok(uuid) => TimedUuid::try_from(uuid),
            Err(_) => Err(TimedUuidError::InvalidUuid),
        }
    }

    /// The text of the UUID, which is read as the same UUID again.
    pub fn to_string(&self) -> (r: String)
        ensures
            r@ == hyphenated(self@),
            read_timed(r@) == Ok::<u128, TimedUuidError>(self@),
    {
        proof {
            use_type_invariant(self);
        }
        format_uuid(self.bits)
    }
}

/// Where a new UUID can be had, it is the one that was drawn; where none can be had, the one that
/// was drawn lies after the year 9999.
pub proof fn law_new_id_is_the_drawn_one(r: Result<TimedUuid, TimedUuidError>)
    requires
        call_ensures(TimedUuid::new_now, (), r),
    ensures
        exists|bits: u128| #[trigger]
            drawn(bits) && (r is Ok <==> (bits >> 80) < (MAX_SECONDS + 1) * 1000) && (
            r matches Ok(id) ==> id@ == bits),
{
    let bits = choose|bits: u128| #[trigger]
        drawn(bits) && version(bits) == 7 && timed_view(r) == timed(bits);
    lemma_leading_bits(bits);
    law_version_7_tells_milliseconds(bits);
    assert(drawn(bits));
}

/// The first 48 bits of a UUID are left when the other 80 are divided off.
proof fn lemma_leading_bits(bits: u128)
    ensures
        bits >> 80 == bits as int / 0x1_0000_0000_0000_0000_0000,
        unix_milliseconds(bits) == bits >> 80,
{
    assert(bits >> 80 == bits / 0x1_0000_0000_0000_0000_0000 && bits >> 80 < 0x1_0000_0000_0000)
        by (bit_vector);
}

/// The time of a UUID of version 7 is the number of milliseconds in its first 48 bits.
pub proof fn law_version_7_time_is_its_first_bits(bits: u128, nanoseconds: int)
    requires
        bits >> 76 & 0xf == 7,
    ensures
        uuid_time(bits) == Ok::<int, UuidTimeError>(nanoseconds) <==> nanoseconds == (bits >> 80)
            * 1_000_000 && (bits >> 80) < (MAX_SECONDS + 1) * 1000,
{
    assert(bits >> 76 & 0xf == bits / 0x1000_0000_0000_0000_0000 % 0x10) by (bit_vector);
    lemma_leading_bits(bits);
    law_version_7_tells_milliseconds(bits);
}

/// The time of a UUID of version 1 or 6 is 100 nanoseconds for each of its steps, counted from 15
/// October 1582. This is so where the steps reach the Unix epoch.
pub proof fn law_versions_1_and_6_count_steps(bits: u128)
    requires
        version(bits) == 1 || version(bits) == 6,
    ensures
        ({
            let ticks = if version(bits) == 1 {
                ticks_low_first(bits)
            } else {
                ticks_high_first(bits)
            };
            ticks >= 0x01B2_1DD2_1381_4000 ==> uuid_time(bits) == Ok::<int, UuidTimeError>(
                (ticks - 0x01B2_1DD2_1381_4000) * 100,
            )
        }),
{
}

/// A UUID tells a point in time only if it is of version 1, 6 or 7.
pub proof fn law_other_versions_tell_no_time(bits: u128)
    ensures
        uuid_time(bits) == Err::<int, UuidTimeError>(UuidTimeError::NotTimeBased) <==> version(bits)
            != 1 && version(bits) != 6 && version(bits) != 7,
{
}

/// A text is read as the UUID that the parser finds in it, just where that UUID tells a point in
/// time.
pub proof fn law_text_is_read_as_parsed(text: Seq<char>, id: u128)
    ensures
        read_timed(text) == Ok::<u128, TimedUuidError>(id) <==> parsed_uuid(text) == Some(id)
            && uuid_time(id) is Ok,
        read_timed(text) == Err::<u128, TimedUuidError>(TimedUuidError::InvalidUuid)
            <==> parsed_uuid(text) is None,
        parsed_uuid(text) == Some(id) ==> forall|cause: UuidTimeError|
            read_timed(text) == Err::<u128, TimedUuidError>(TimedUuidError::InvalidTimestamp(cause))
                <==> uuid_time(id) == Err::<int, UuidTimeError>(cause),
{
}

/// A UUID is accepted unchanged just where it tells a point in time, and refused with the reason
/// why it tells none.
pub proof fn law_accepted_uuid_is_unchanged(value: u128, r: Result<TimedUuid, TimedUuidError>)
    requires
        call_ensures(TimedUuid::try_from, (value,), r),
    ensures
        r matches Ok(id) ==> id@ == value,
        r is Ok <==> uuid_time(value) is Ok,
        forall|cause: UuidTimeError|
            uuid_time(value) == Err::<int, UuidTimeError>(cause) ==> r == Err::<
                TimedUuid,
                TimedUuidError,
            >(TimedUuidError::InvalidTimestamp(cause)),
{
}

/// A UUID that is drawn is one that was made for the current time.
proof fn law_drawn_id_was_made(bits: u128)
    requires
        drawn(bits),
    ensures
        call_ensures(now_v7, (), bits),
{
}

/// A UUID of version 1 or 6 from before the Unix epoch tells no point in time.
pub proof fn law_times_before_the_epoch_are_invalid(bits: u128)
    requires
        version(bits) == 1 && ticks_low_first(bits) < 0x01B2_1DD2_1381_4000 || version(bits) == 6
            && ticks_high_first(bits) < 0x01B2_1DD2_1381_4000,
    ensures
        uuid_time(bits) == Err::<int, UuidTimeError>(UuidTimeError::InvalidUnixTimestamp),
{
}

/// Reading a text gives the UUID that the parser finds in it, just where that UUID tells a point
/// in time; otherwise the reason why it gives none.
pub proof fn law_read_uuid_is_the_parsed_one(s: &str, r: Result<TimedUuid, TimedUuidError>)
    requires
        call_ensures(TimedUuid::from_str, (s,), r),
    ensures
        r matches Ok(id) ==> parsed_uuid(s@) == Some(id@) && uuid_time(id@) is Ok,
        r matches Err(TimedUuidError::InvalidUuid) <==> parsed_uuid(s@) is None,
        r matches Err(TimedUuidError::InvalidTimestamp(cause)) ==> (parsed_uuid(s@) matches Some(
            bits,
        ) && uuid_time(bits) == Err::<int, UuidTimeError>(cause)),
{
}

/// The text of a UUID is read as the same UUID again.
pub proof fn law_written_id_is_read_back(
    id: TimedUuid,
    text: String,
    s: &str,
    r: Result<TimedUuid, TimedUuidError>,
)
    requires
        call_ensures(TimedUuid::to_string, (&id,), text),
        call_ensures(TimedUuid::from_str, (s,), r),
        s@ == text@,
    ensures
        r == Ok::<TimedUuid, TimedUuidError>(id),
{
}

} // verus!
