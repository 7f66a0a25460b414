use web_scaffolding::clock::{Duration, OutOfRange, Timestamp, MAX_SECONDS, MIN_SECONDS};
use web_scaffolding::scheduler::period_seconds;
use web_scaffolding::timed_uuid::{
    timestamp_from_uuid, TimedUuid, TimedUuidError, UuidTimeError,
};

/// 22 February 2022, 19:22:22 UTC
const SAMPLE_SECONDS: i128 = 1_645_557_742;

#[test]
fn durations_count_nanoseconds() {
    assert_eq!(Duration::nanoseconds(-7).nanoseconds, -7);
    assert_eq!(Duration::seconds(3).nanoseconds, 3_000_000_000);
    assert_eq!(Duration::days(14).nanoseconds, 1_209_600_000_000_000);
    assert_eq!(Duration::days(i64::MIN).nanoseconds, i64::MIN as i128 * 86_400_000_000_000);
}

#[test]
fn timestamps_are_limited_to_four_digit_years() {
    let last = Timestamp::from_unix_timestamp(MAX_SECONDS).unwrap();
    assert_eq!(last.unix_nanoseconds(), 253_402_300_799_000_000_000);
    let first = Timestamp::from_unix_timestamp(MIN_SECONDS).unwrap();
    assert_eq!(first.unix_nanoseconds(), -377_705_116_800_000_000_000);
    assert_eq!(Timestamp::from_unix_timestamp(MAX_SECONDS + 1), Err(OutOfRange));
    assert_eq!(Timestamp::from_unix_timestamp(MIN_SECONDS - 1), Err(OutOfRange));
}

#[test]
fn spans_are_added_to_timestamps() {
    let start = Timestamp::from_unix_timestamp(100).unwrap();
    let later = start.plus(Duration::nanoseconds(1));
    assert_eq!(later.unix_nanoseconds(), 100_000_000_001);
    assert!(later.is_after(&start));
    assert!(!start.is_after(&later));
    assert!(!start.is_after(&start));
    assert_eq!(start.plus(Duration::seconds(-200)).unix_nanoseconds(), -100_000_000_000);
}

#[test]
fn sums_out_of_range_are_foreseen() {
    let last = Timestamp::from_unix_timestamp(MAX_SECONDS).unwrap();
    assert!(last.can_add(Duration::nanoseconds(999_999_999)));
    assert!(!last.can_add(Duration::seconds(1)));
    let first = Timestamp::from_unix_timestamp(MIN_SECONDS).unwrap();
    assert!(!first.can_add(Duration::nanoseconds(-1)));
    assert!(!first.can_add(Duration { nanoseconds: i128::MIN }));
    assert!(!first.can_add(Duration { nanoseconds: i128::MAX }));
}

#[test]
fn the_clock_shows_a_recent_time() {
    let sample = Timestamp::from_unix_timestamp(SAMPLE_SECONDS as i64).unwrap();
    assert!(Timestamp::now_utc().is_after(&sample));
}

#[test]
fn version_1_tells_its_time() {
    let uuid = uuid::Uuid::parse_str("C232AB00-9414-11EC-B3C8-9F6BDECED846").unwrap();
    let timestamp = timestamp_from_uuid(uuid.as_u128()).unwrap();
    assert_eq!(timestamp.unix_nanoseconds(), SAMPLE_SECONDS * 1_000_000_000);
}

#[test]
fn version_6_tells_its_time() {
    let uuid = uuid::Uuid::parse_str("1EC9414C-232A-6B00-B3C8-9F6BDECED846").unwrap();
    let timestamp = timestamp_from_uuid(uuid.as_u128()).unwrap();
    assert_eq!(timestamp.unix_nanoseconds(), SAMPLE_SECONDS * 1_000_000_000);
}

#[test]
fn version_7_tells_its_time() {
    let uuid = uuid::Uuid::parse_str("017F22E2-79B0-7CC3-98C4-DC0C0C07398F").unwrap();
    let timestamp = timestamp_from_uuid(uuid.as_u128()).unwrap();
    assert_eq!(timestamp.unix_nanoseconds(), SAMPLE_SECONDS * 1_000_000_000);
}

#[test]
fn fractions_of_a_second_are_kept() {
    let bits = (123_456_789u128 << 80) | (0x7 << 76) | (0x2 << 62);
    let timestamp = timestamp_from_uuid(bits).unwrap();
    assert_eq!(timestamp.unix_nanoseconds(), 123_456_789_000_000);
}

#[test]
fn other_versions_tell_no_time() {
    let random = uuid::Uuid::parse_str("919108f7-52d1-4320-9bac-f847db4148a8").unwrap();
    assert_eq!(timestamp_from_uuid(random.as_u128()), Err(UuidTimeError::NotTimeBased));
    assert_eq!(timestamp_from_uuid(0), Err(UuidTimeError::NotTimeBased));
    assert_eq!(timestamp_from_uuid(u128::MAX), Err(UuidTimeError::NotTimeBased));
    assert_eq!(
        TimedUuid::try_from(random.as_u128()),
        Err(TimedUuidError::InvalidTimestamp(UuidTimeError::NotTimeBased)),
    );
}

#[test]
fn times_after_the_year_9999_are_invalid() {
    let last = (MAX_SECONDS as u128 * 1000 + 999) << 80 | 0x7 << 76;
    assert_eq!(
        timestamp_from_uuid(last).unwrap().unix_nanoseconds(),
        253_402_300_799_999_000_000,
    );
    let after = ((MAX_SECONDS as u128 + 1) * 1000) << 80 | 0x7 << 76;
    assert_eq!(timestamp_from_uuid(after), Err(UuidTimeError::InvalidUnixTimestamp));
    assert_eq!(
        TimedUuid::try_from(after),
        Err(TimedUuidError::InvalidTimestamp(UuidTimeError::InvalidUnixTimestamp)),
    );
}

#[test]
fn errors_of_uuids_have_messages() {
    assert_eq!(
        UuidTimeError::NotTimeBased.message(),
        "UUID is not a time-based version (expected v1, v6, or v7)",
    );
    assert_eq!(
        UuidTimeError::Overflow.message(),
        "Overflow: Unix timestamp too large for i64",
    );
    assert_eq!(UuidTimeError::InvalidUnixTimestamp.message(), "Invalid Unix timestamp");
    let invalid = TimedUuidError::InvalidTimestamp(UuidTimeError::NotTimeBased);
    assert_eq!(invalid.message(), Some("Invalid timestamp"));
    assert_eq!(TimedUuidError::InvalidUuid.message(), None);
}

#[test]
fn ids_are_written_and_read_back() {
    let text = "017f22e2-79b0-7cc3-98c4-dc0c0c07398f";
    let id = TimedUuid::from_str(text).unwrap();
    assert_eq!(id.as_u128(), 0x017f22e279b07cc398c4dc0c0c07398f);
    assert_eq!(id.to_string(), text);
    assert_eq!(TimedUuid::from_str(&id.to_string()), Ok(id));
    assert_eq!(TimedUuid::from_str("017F22E279B07CC398C4DC0C0C07398F"), Ok(id));
    assert_eq!(id.timestamp().unix_nanoseconds(), SAMPLE_SECONDS * 1_000_000_000);
}

#[test]
fn texts_that_are_no_uuid_are_refused() {
    assert_eq!(TimedUuid::from_str(""), Err(TimedUuidError::InvalidUuid));
    assert_eq!(TimedUuid::from_str("session"), Err(TimedUuidError::InvalidUuid));
    assert_eq!(
        TimedUuid::from_str("919108f7-52d1-4320-9bac-f847db4148a8"),
        Err(TimedUuidError::InvalidTimestamp(UuidTimeError::NotTimeBased)),
    );
}

#[test]
fn new_ids_tell_the_current_time() {
    let before = Timestamp::now_utc().plus(Duration::seconds(-2));
    let id = TimedUuid::new_now().unwrap();
    let after = Timestamp::now_utc().plus(Duration::seconds(2));
    assert_eq!(id.as_u128() >> 76 & 0xf, 7);
    assert!(id.timestamp().is_after(&before));
    assert!(after.is_after(&id.timestamp()));
    assert_ne!(TimedUuid::new_now().unwrap(), id);
}

#[test]
fn later_ids_of_version_7_are_larger() {
    let early = TimedUuid::try_from(1_000u128 << 80 | 0x7fff << 64).unwrap();
    let late = TimedUuid::try_from(1_001u128 << 80 | 0x7000 << 64).unwrap();
    assert!(late.timestamp().is_after(&early.timestamp()));
    assert!(late.as_u128() > early.as_u128());
}

#[test]
fn periods_are_whole_seconds() {
    assert_eq!(period_seconds(Duration::seconds(90)), 90);
    assert_eq!(period_seconds(Duration::nanoseconds(1_999_999_999)), 1);
    assert_eq!(period_seconds(Duration::nanoseconds(999_999_999)), 0);
    assert_eq!(period_seconds(Duration::nanoseconds(-999_999_999)), 0);
    assert_eq!(period_seconds(Duration::nanoseconds(-1_000_000_000)), u64::MAX);
    assert_eq!(period_seconds(Duration::seconds(i64::MAX)), i64::MAX as u64);
    assert_eq!(period_seconds(Duration::seconds(i64::MIN)), 1 << 63);
}
