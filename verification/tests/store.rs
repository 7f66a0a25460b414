use web_scaffolding::clock::{Duration, Timestamp};
use web_scaffolding::store::{Store, StoreError, StoreInner, Value, ID};
use web_scaffolding::timed_uuid::{TimedUuid, TimedUuidError, UuidTimeError};

#[derive(Debug, PartialEq)]
struct Note(&'static str);

impl Value for Note {
    const LIFETIME: Duration = Duration { nanoseconds: 60_000_000_000 };
}

/// An id for the given number of seconds since the Unix epoch.
fn id_at(seconds: u128, number: u128) -> ID {
    TimedUuid::try_from((seconds * 1000) << 80 | 0x7 << 76 | number).unwrap()
}

fn at(seconds: i64) -> Timestamp {
    Timestamp::from_unix_timestamp(seconds).unwrap()
}

#[test]
fn a_new_store_is_empty() {
    let mut store = StoreInner::<Note>::new(Duration::seconds(5));
    let id = id_at(10, 1);
    assert!(!store.contains(&id));
    assert!(store.query_at(&id, at(10)).is_none());
    assert!(store.delete(&id).is_none());
    assert_eq!(store.lifetime(), Duration::seconds(5));
}

#[test]
fn inserted_values_are_found_until_they_expire() {
    let mut store = StoreInner::new(Duration::seconds(60));
    let id = id_at(1000, 1);
    assert_eq!(store.insert_at(id, Note("kept")), Ok(()));
    assert!(store.contains(&id));
    let found = store.query_at(&id, at(1060)).unwrap();
    assert_eq!(*found.id(), id);
    assert_eq!(*found.value(), Note("kept"));
    assert_eq!(found.expires().unix_nanoseconds(), 1_060_000_000_000);
    let past_expiry = at(1060).plus(Duration::nanoseconds(1));
    assert!(store.query_at(&id, past_expiry).is_none());
    assert!(store.query_at(&id, at(5000)).is_none());
    assert!(store.contains(&id));
}

#[test]
fn an_id_is_taken_only_once() {
    let mut store = StoreInner::new(Duration::seconds(60));
    let id = id_at(1000, 1);
    assert_eq!(store.insert_at(id, Note("first")), Ok(()));
    assert_eq!(store.insert_at(id, Note("second")), Err(StoreError::KeyExists));
    assert_eq!(*store.query_at(&id, at(1000)).unwrap().value(), Note("first"));
}

#[test]
fn deleting_takes_out_one_value() {
    let mut store = StoreInner::new(Duration::seconds(60));
    let ids = [id_at(1000, 1), id_at(1000, 2), id_at(1000, 3)];
    let notes = ["first", "second", "third"];
    for (id, note) in ids.iter().zip(notes) {
        store.insert_at(*id, Note(note)).unwrap();
    }
    assert_eq!(store.delete(&ids[0]), Some((ids[0], Note("first"))));
    assert_eq!(store.delete(&ids[0]), None);
    assert!(!store.contains(&ids[0]));
    assert_eq!(*store.query_at(&ids[1], at(1000)).unwrap().value(), Note("second"));
    assert_eq!(*store.query_at(&ids[2], at(1000)).unwrap().value(), Note("third"));
    assert_eq!(store.delete(&ids[2]), Some((ids[2], Note("third"))));
    assert_eq!(*store.query_at(&ids[1], at(1000)).unwrap().value(), Note("second"));
}

#[test]
fn cleanup_takes_out_what_queries_do_not_find() {
    let mut store = StoreInner::new(Duration::seconds(60));
    let old = id_at(1000, 1);
    let edge = id_at(1010, 2);
    let young = id_at(1011, 3);
    for id in [old, edge, young] {
        store.insert_at(id, Note("note")).unwrap();
    }
    assert!(store.can_expire());
    let now = at(1070);
    assert!(store.query_at(&old, now).is_none());
    assert!(store.query_at(&edge, now).is_some());
    assert!(store.query_at(&young, now).is_some());
    store.cleanup_at(now);
    assert!(!store.contains(&old));
    assert!(!store.contains(&edge));
    assert!(store.contains(&young));
    store.cleanup_at(at(1069));
    assert!(store.contains(&young));
    store.cleanup_at(at(2000));
    assert!(!store.contains(&young));
}

#[test]
fn expiry_beyond_the_year_9999_is_foreseen() {
    let mut store = StoreInner::new(Duration::days(3_000_000));
    assert!(store.can_expire());
    store.insert_at(id_at(1000, 1), Note("early")).unwrap();
    store.insert_at(id_at(200_000_000_000, 2), Note("late")).unwrap();
    assert!(!store.can_expire());
}

#[test]
fn cleanup_by_the_clock_keeps_fresh_values() {
    let mut store = StoreInner::new(Duration::seconds(3600));
    let stale = id_at(1000, 1);
    store.insert_at(stale, Note("stale")).unwrap();
    let fresh = *store.insert(Note("fresh")).unwrap().id();
    store.cleanup();
    assert!(!store.contains(&stale));
    assert_eq!(*store.query(&fresh).unwrap().value(), Note("fresh"));
}

#[test]
fn inserting_makes_a_new_id() {
    let mut store = Store::<Note>::new();
    let first = *store.inner.insert(Note("one")).unwrap().id();
    let second = *store.inner.insert(Note("two")).unwrap().id();
    assert_ne!(first, second);
    assert_eq!(*store.inner.query(&first).unwrap().value(), Note("one"));
    assert_eq!(*store.inner.query(&second).unwrap().value(), Note("two"));
    assert_eq!(store.inner.query(&first).unwrap().remove(), Note("one"));
    assert!(store.inner.query(&first).is_none());
}

#[test]
fn expired_values_are_not_found_by_the_clock() {
    let mut store = StoreInner::new(Duration::seconds(60));
    let stale = id_at(1000, 1);
    store.insert_at(stale, Note("stale")).unwrap();
    assert!(store.query(&stale).is_none());
    assert!(store.contains(&stale));
}

#[test]
fn entries_are_changed_in_place() {
    let mut store = StoreInner::new(Duration::seconds(60));
    let id = id_at(1000, 1);
    store.insert_at(id, Note("before")).unwrap();
    *store.query_at(&id, at(1000)).unwrap().entry() = Note("after");
    assert_eq!(store.delete(&id), Some((id, Note("after"))));
}

#[test]
fn retain_changes_values_and_drops_the_refused() {
    let mut store = StoreInner::new(Duration::seconds(60));
    for number in 0..10 {
        store.insert_at(id_at(1000, number), number).unwrap();
    }
    store.retain(|id, value| {
        *value += 100;
        id.as_u128() % 2 == 0
    });
    for number in 0..10 {
        let id = id_at(1000, number);
        if number % 2 == 0 {
            assert_eq!(store.delete(&id), Some((id, number + 100)));
        } else {
            assert!(!store.contains(&id));
        }
    }
}

#[test]
fn retain_takes_predicates_that_remember() {
    let mut store = StoreInner::new(Duration::seconds(60));
    for number in 0..10 {
        store.insert_at(id_at(1000, number), number).unwrap();
    }
    let mut seen = 0;
    store.retain(|_, value| {
        *value = 7;
        seen += 1;
        seen <= 4
    });
    assert_eq!(seen, 10);
    let kept = (0..10).filter_map(|number| store.delete(&id_at(1000, number)));
    assert_eq!(kept.map(|(_, value)| value).collect::<Vec<u128>>(), vec![7; 4]);
}

#[test]
fn stores_take_the_lifetime_of_their_values() {
    let store = Store::<Note>::new().with_auto_cleanup().with_cleanup(Duration::seconds(5));
    assert_eq!(store.inner.lifetime(), Note::LIFETIME);
    assert_eq!(store.cleanup_intervals, vec![Note::LIFETIME, Duration::seconds(5)]);
    let other = Store::<Note>::with_lifetime(Duration::days(1));
    assert_eq!(other.inner.lifetime(), Duration::days(1));
    assert!(other.cleanup_intervals.is_empty());
}

#[test]
fn store_errors_have_messages() {
    assert_eq!(StoreError::KeyExists.message(), "Key already exists");
    let uuid = TimedUuidError::InvalidTimestamp(UuidTimeError::InvalidUnixTimestamp);
    assert_eq!(StoreError::Uuid(uuid).message(), "Failed to get UUID");
}
