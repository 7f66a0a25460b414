use tower_cookies::cookie::CookieJar;
use web_scaffolding::clock::{Duration, Timestamp};
use web_scaffolding::errors::WebError;
use web_scaffolding::session::{
    find_key, sessions_with, settle_key, setup_sessions, Key, MissingKey, Session, SessionManager,
    SessionSettings, SessionState,
};
use web_scaffolding::store::StoreError;
use web_scaffolding::timed_uuid::TimedUuid;

fn bytes(length: u8) -> Vec<u8> {
    (0..length).collect()
}

fn key() -> Key {
    Key::try_from(&bytes(64)).unwrap()
}

fn state() -> SessionState<String> {
    let mut settings = SessionSettings::default();
    settings.key = Some(key());
    setup_sessions(settings, None).unwrap()
}

/// The jar of a later request that brings back a cookie.
fn sent_back(jar: &CookieJar, name: &str) -> CookieJar {
    let mut received = CookieJar::new();
    received.add_original((name.to_string(), jar.get(name).unwrap().value().to_string()));
    received
}

fn refused(error: WebError) -> (u16, String) {
    let (code, body) = error.into_response();
    (code.as_u16(), body)
}

#[test]
fn keys_are_the_first_64_bytes() {
    assert!(Key::try_from(&bytes(63)).is_none());
    assert_eq!(Key::try_from(&bytes(64)).unwrap().master(), &bytes(64));
    assert_eq!(Key::try_from(&bytes(100)).unwrap().master(), &bytes(64));
}

#[test]
fn generated_keys_differ() {
    let first = Key::try_generate().unwrap();
    let second = Key::try_generate().unwrap();
    assert_eq!(first.master().len(), 64);
    assert_ne!(first.master(), second.master());
}

#[test]
fn generated_bytes_become_the_key() {
    assert_eq!(Key::from_generated(Some(bytes(64))).unwrap().master(), &bytes(64));
    assert!(Key::from_generated(None).is_none());
}

#[test]
fn settings_have_defaults() {
    let settings = SessionSettings::default();
    assert_eq!(settings.cookie_name, "session");
    assert_eq!(settings.lifetime, Duration::days(14));
    assert_eq!(settings.cleanup_interval, Duration::days(14));
    assert!(settings.key.is_none());
    assert!(!settings.insecure);
}

#[test]
fn cleanup_follows_the_chosen_lifetime() {
    let mut builder = SessionSettings::builder();
    builder.cookie_name = Some("id");
    builder.lifetime = Some(Duration::seconds(30));
    builder.insecure = Some(true);
    let settings = builder.build();
    assert_eq!(settings.cookie_name, "id");
    assert_eq!(settings.cleanup_interval, Duration::seconds(30));
    assert!(settings.insecure);
    let mut builder = SessionSettings::builder();
    builder.cleanup_interval = Some(Duration::seconds(5));
    let settings = builder.build();
    assert_eq!(settings.lifetime, Duration::days(14));
    assert_eq!(settings.cleanup_interval, Duration::seconds(5));
}

#[test]
fn provided_keys_go_before_files_and_generated_ones() {
    let other = vec![7u8; 64];
    let found = find_key(Some(key()), Some(other.clone())).unwrap();
    assert_eq!(found.master(), &bytes(64));
    let found = find_key(None, Some(other.clone())).unwrap();
    assert_eq!(found.master(), &other);
    assert!(find_key(None, Some(bytes(10))).is_none());
    assert!(find_key(None, None).is_none());
    let settled = settle_key(Some(key()), Key::try_from(&other)).ok().unwrap();
    assert_eq!(settled.master(), &bytes(64));
    let settled = settle_key(None, Key::try_from(&other)).ok().unwrap();
    assert_eq!(settled.master(), &other);
    assert!(matches!(settle_key(None, None), Err(MissingKey)));
    assert_eq!(MissingKey.message(), "Failed to get or generate session key");
}

#[test]
fn sessions_are_set_up_from_settings() {
    let mut builder = SessionSettings::builder();
    builder.cookie_name = Some("id");
    builder.lifetime = Some(Duration::seconds(30));
    builder.cleanup_interval = Some(Duration::seconds(5));
    builder.insecure = Some(true);
    let state = setup_sessions::<u8>(builder.build(), Some(bytes(70))).unwrap();
    assert_eq!(state.cookie_name, "id");
    assert_eq!(state.key.master(), &bytes(64));
    assert!(state.insecure);
    assert_eq!(state.store.inner.lifetime(), Duration::seconds(30));
    assert_eq!(state.store.cleanup_intervals, vec![Duration::seconds(5)]);
    let state = setup_sessions::<u8>(SessionSettings::default(), None).unwrap();
    assert_eq!(state.key.master().len(), 64);
}

#[test]
fn sessions_fall_back_to_the_generated_key() {
    let generated = || Key::try_from(&vec![7; 64]);
    let settings = SessionSettings::default;
    let state = sessions_with::<u8>(settings(), Some(bytes(10)), generated()).unwrap();
    assert_eq!(state.key.master(), &vec![7; 64]);
    assert_eq!(state.cookie_name, "session");
    assert_eq!(state.store.inner.lifetime(), Duration::days(14));
    assert_eq!(state.store.cleanup_intervals, vec![Duration::days(14)]);
    assert!(!state.insecure);
    let state = sessions_with::<u8>(settings(), Some(bytes(64)), generated()).unwrap();
    assert_eq!(state.key.master(), &bytes(64));
    assert!(matches!(sessions_with::<u8>(settings(), None, None), Err(MissingKey)));
}

#[test]
fn started_sessions_are_current_for_later_requests() {
    let mut state = state();
    let mut jar = CookieJar::new();
    let manager = SessionManager { state: &mut state, cookies: &mut jar };
    let id = *manager.create("Ada".to_string()).ok().unwrap().id();

    let mut received = sent_back(&jar, "session");
    let manager = SessionManager { state: &mut state, cookies: &mut received };
    let session = manager.current().ok().unwrap();
    assert_eq!(session.id, id);
    assert_eq!(*session.resolve().ok().unwrap().value(), "Ada");
}

#[test]
fn sessions_are_started_under_a_given_id() {
    let mut state = state();
    let mut jar = CookieJar::new();
    let id = TimedUuid::from_str("017f22e2-79b0-7cc3-98c4-dc0c0c07398f").unwrap();
    let manager = SessionManager { state: &mut state, cookies: &mut jar };
    let stored = manager.create_at(id, "Ada".to_string()).ok().unwrap();
    assert_eq!(*stored.id(), id);
    assert_eq!(*stored.value(), "Ada");
    assert!(jar.get("session").unwrap().value().ends_with(&id.to_string()));

    let mut other = CookieJar::new();
    let manager = SessionManager { state: &mut state, cookies: &mut other };
    let error = manager.create_at(id, "Bob".to_string()).err().unwrap();
    assert_eq!(error, StoreError::KeyExists);
    assert!(other.get("session").is_none());

    let manager = SessionManager { state: &mut state, cookies: &mut jar };
    let session = manager.current().ok().unwrap();
    assert_eq!(session.id, id);
    assert_eq!(*session.resolve_at(id.timestamp()).ok().unwrap().value(), "Ada");
}

#[test]
fn session_cookies_are_guarded() {
    let mut state = state();
    let mut jar = CookieJar::new();
    let manager = SessionManager { state: &mut state, cookies: &mut jar };
    let id = *manager.create("Ada".to_string()).ok().unwrap().id();
    let cookie = jar.get("session").unwrap();
    assert_eq!(cookie.value().len(), 44 + 36);
    assert_eq!(&cookie.value()[44..], id.to_string());
    assert_eq!(cookie.http_only(), Some(true));
    assert_eq!(cookie.max_age(), Some(time::Duration::days(14)));
    assert_eq!(cookie.same_site(), Some(tower_cookies::cookie::SameSite::Strict));
    assert_eq!(cookie.secure(), Some(true));
    assert_eq!(cookie.path(), None);
    assert_eq!(cookie.domain(), None);
    assert_eq!(cookie.expires(), None);
    assert_eq!(cookie.partitioned(), None);

    state.insecure = true;
    let manager = SessionManager { state: &mut state, cookies: &mut jar };
    manager.create("Bob".to_string()).ok().unwrap();
    assert_eq!(jar.get("session").unwrap().secure(), Some(false));
}

#[test]
fn signatures_are_those_of_the_cookie_crate() {
    let mut state = state();
    let mut jar = CookieJar::new();
    let manager = SessionManager { state: &mut state, cookies: &mut jar };
    let id = *manager.create("Ada".to_string()).ok().unwrap().id();
    let outside = tower_cookies::Key::from(&bytes(64));
    assert_eq!(jar.signed(&outside).get("session").unwrap().value(), id.to_string());
    let wrong = tower_cookies::Key::from(&[1; 64]);
    assert!(jar.signed(&wrong).get("session").is_none());
}

#[test]
fn requests_without_a_valid_cookie_are_refused() {
    let mut state = state();
    let mut jar = CookieJar::new();
    let manager = SessionManager { state: &mut state, cookies: &mut jar };
    let id = *manager.create("Ada".to_string()).ok().unwrap().id();
    let signed = jar.get("session").unwrap().value().to_string();
    let forged = format!("A{}", &signed[1..]);
    let tampered = format!("{}0", &signed[..signed.len() - 1]);
    let values = ["".to_string(), id.to_string(), forged, tampered, "x".repeat(80)];
    for value in values {
        if value != signed {
            let mut received = CookieJar::new();
            received.add_original(("session", value));
            let manager = SessionManager { state: &mut state, cookies: &mut received };
            let error = manager.current().err().unwrap();
            assert_eq!(refused(error), (401, "\"Unauthorized\"".to_string()));
        }
    }
    let mut received = CookieJar::new();
    let manager = SessionManager { state: &mut state, cookies: &mut received };
    let error = manager.current().err().unwrap();
    assert_eq!(refused(error), (401, "\"Unauthorized\"".to_string()));
}

#[test]
fn signed_texts_that_are_no_id_are_refused() {
    let mut state = state();
    let mut jar = CookieJar::new();
    jar.signed_mut(&tower_cookies::Key::from(&bytes(64))).add(("session", "nobody"));
    let manager = SessionManager { state: &mut state, cookies: &mut jar };
    assert_eq!(refused(manager.current().err().unwrap()).0, 401);
}

#[test]
fn removed_sessions_are_gone() {
    let mut state = state();
    let mut jar = CookieJar::new();
    let manager = SessionManager { state: &mut state, cookies: &mut jar };
    let stored = manager.create("Ada".to_string()).ok().unwrap();
    assert_eq!(stored.remove(), "Ada");
    let manager = SessionManager { state: &mut state, cookies: &mut jar };
    assert_eq!(refused(manager.current().err().unwrap()).0, 401);
}

#[test]
fn expired_sessions_are_not_resolved() {
    let mut state = state();
    let mut jar = CookieJar::new();
    let manager = SessionManager { state: &mut state, cookies: &mut jar };
    let id = *manager.create("Ada".to_string()).ok().unwrap().id();
    let expiry = id.timestamp().plus(Duration::days(14));
    let after = expiry.plus(Duration::nanoseconds(1));

    let manager = SessionManager { state: &mut state, cookies: &mut jar };
    let session = manager.current().ok().unwrap();
    assert_eq!(*session.resolve_at(expiry).ok().unwrap().value(), "Ada");

    let manager = SessionManager { state: &mut state, cookies: &mut jar };
    let session = manager.current().ok().unwrap();
    let error = session.resolve_at(after).err().unwrap();
    assert_eq!(refused(error), (401, "\"Session expired\"".to_string()));
}

#[test]
fn sessions_that_vanished_are_not_resolved() {
    let mut state = state();
    let id = *state.store.inner.insert("Ada".to_string()).ok().unwrap().id();
    state.store.inner.delete(&id);
    let session = Session { id, store_ref: &mut state.store.inner };
    assert_eq!(refused(session.resolve_at(Timestamp::now_utc()).err().unwrap()).0, 401);
}
