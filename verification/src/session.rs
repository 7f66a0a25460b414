//! Sessions of users: values in a store, each found by a signed cookie with its id.
use vstd::prelude::*;

use crate::clock::{clock_shows, representable, Duration, Timestamp};
use crate::cookies::{
    bare, jar_cookies, signature, signed_add, signed_get, signed_text, Content, RawCookie,
    SameSite, SIGNATURE_LENGTH,
};
use crate::errors::{BoxError, StatusCode, WebError, WebErrorKind, WebResult};
use crate::store::{expiry, found_at, Store, StoreError, StoreInner, ValueRef, ID};
use crate::timed_uuid::{
    drawn, hyphenated, parsed_uuid, read_timed, timed, uuid_time, version, TimedUuid,
    TimedUuidError, UuidTimeError,
};

verus! {

/// The length of a key.
pub const KEY_LENGTH: usize = 64;

/// A key for signing cookies.
pub struct Key {
    master: Vec<u8>,
}

impl View for Key {
    type V = Seq<u8>;

    closed spec fn view(&self) -> Seq<u8> {
        self.master@
    }
}

/// `Key::try_from` of the `cookie` crate, and the bytes of the key: the first 64 of those that
/// are given, which must be as many.
#[verifier::external_body]
fn key_from_bytes(bytes: &Vec<u8>) -> (r: Option<Vec<u8>>)
    ensures
        match r {
            Some(master) => bytes.len() >= KEY_LENGTH && master@ == bytes@.take(KEY_LENGTH as int),
            None => bytes.len() < KEY_LENGTH,
        },
{
    tower_cookies::Key::try_from(bytes.as_slice()).ok().map(|key| key.master().to_vec())
}

/// `Key::try_generate` of the `cookie` crate, and the bytes of the key: 64 random ones, if the
/// machine provides any.
#[verifier::external_body]
fn generate_key() -> (r: Option<Vec<u8>>)
    ensures
        r matches Some(master) ==> master.len() == KEY_LENGTH,
{
    tower_cookies::Key::try_generate().map(|key| key.master().to_vec())
}

/// Whether the machine provides random bytes for a key, and which.
pub closed spec fn random_key(bytes: Option<Seq<u8>>) -> bool {
    exists|generated: Option<Vec<u8>>| #[trigger]
        call_ensures(generate_key, (), generated) && file_view(generated) == bytes
}

/// The key that a sequence of bytes starts with, if it is long enough.
pub open spec fn key_of(bytes: Seq<u8>) -> Option<Seq<u8>> {
    if bytes.len() >= KEY_LENGTH {
        Some(bytes.take(KEY_LENGTH as int))
    } else {
        None
    }
}

/// The bytes of a key, if there is one.
pub open spec fn key_view(key: Option<Key>) -> Option<Seq<u8>> {
    match key {
        Some(key) => Some(key@),
        None => None,
    }
}

impl Key {
    #[verifier::type_invariant]
    spec fn well_formed(&self) -> bool {
        self.master.len() == KEY_LENGTH
    }

    /// The key that a sequence of bytes starts with, if it is long enough.
    pub fn try_from(bytes: &Vec<u8>) -> (r: Option<Key>)
        ensures
            key_view(r) == key_of(bytes@),
    {
        match key_from_bytes(bytes) {
            Some(master) => Some(Key { master }),
            None => None,
        }
    }

    /// A random key, if the machine provides any.
    pub fn try_generate() -> (r: Option<Key>)
        ensures
            r matches Some(key) ==> key@.len() == KEY_LENGTH,
            random_key(key_view(r)),
    {
        Key::from_generated(generate_key())
    }

    /// The key with the bytes that were generated, if any were.
    pub fn from_generated(generated: Option<Vec<u8>>) -> (r: Option<Key>)
        requires
            generated matches Some(master) ==> master.len() == KEY_LENGTH,
        ensures
            match generated {
                Some(master) => r matches Some(key) && key@ == master@,
                None => r is None,
            },
    {
        match generated {
            Some(master) => Some(Key { master }),
            None => None,
        }
    }

    /// The bytes of the key.
    pub fn master(&self) -> (r: &Vec<u8>)
        ensures
            r@ == self@,
            r.len() == KEY_LENGTH,
    {
        proof {
            use_type_invariant(self);
        }
        &self.master
    }
}

/// What an application decides about its sessions.
pub struct SessionSettings {
    pub cookie_name: &'static str,
    pub lifetime: Duration,
    pub cleanup_interval: Duration,
    pub key: Option<Key>,
    pub insecure: bool,
}

/// What an application decides about its sessions; the rest is filled in.
pub struct SessionSettingsBuilder {
    pub cookie_name: Option<&'static str>,
    pub lifetime: Option<Duration>,
    pub cleanup_interval: Option<Duration>,
    pub key: Option<Key>,
    pub insecure: Option<bool>,
}

/// The lifetime of sessions unless it is chosen: 14 days, in nanoseconds.
pub const DEFAULT_LIFETIME: i128 = 1_209_600_000_000_000;

impl SessionSettings {
    /// Settings of which nothing is decided yet.
    pub fn builder() -> (r: SessionSettingsBuilder)
        ensures
            r == (SessionSettingsBuilder {
                cookie_name: None,
                lifetime: None,
                cleanup_interval: None,
                key: None,
                insecure: None,
            }),
    {
        SessionSettingsBuilder {
            cookie_name: None,
            lifetime: None,
            cleanup_interval: None,
            key: None,
            insecure: None,
        }
    }
}

impl Default for SessionSettings {
    fn default() -> (r: SessionSettings)
        ensures
            r.cookie_name@ == "session"@,
            r.lifetime.nanoseconds == DEFAULT_LIFETIME,
            r.cleanup_interval == r.lifetime,
            r.key is None,
            !r.insecure,
    {
        SessionSettings::builder().build()
    }
}

impl SessionSettingsBuilder {
    /// Fills in what is not decided: the cookie is named `session`, sessions live for 14 days,
    /// and expired ones are taken out once in a lifetime.
    pub fn build(self) -> (r: SessionSettings)
        ensures
            match self.cookie_name {
                Some(cookie_name) => r.cookie_name == cookie_name,
                None => r.cookie_name@ == "session"@,
            },
            match self.lifetime {
                Some(lifetime) => r.lifetime == lifetime,
                None => r.lifetime.nanoseconds == DEFAULT_LIFETIME,
            },
            match self.cleanup_interval {
                Some(cleanup_interval) => r.cleanup_interval == cleanup_interval,
                None => r.cleanup_interval == r.lifetime,
            },
            r.key == self.key,
            r.insecure == (self.insecure == Some(true)),
    {
        let lifetime = match self.lifetime {
            Some(lifetime) => lifetime,
            None => Duration::days(14),
        };
        SessionSettings {
            cookie_name: match self.cookie_name {
                Some(cookie_name) => cookie_name,
                None => "session",
            },
            lifetime,
            cleanup_interval: match self.cleanup_interval {
                Some(cleanup_interval) => cleanup_interval,
                None => lifetime,
            },
            key: self.key,
            insecure: match self.insecure {
                Some(insecure) => insecure,
                None => false,
            },
        }
    }
}

/// The sessions of an application, and how they are kept in cookies.
pub struct SessionState<T> {
    pub store: Store<T>,
    pub cookie_name: &'static str,
    pub key: Key,
    pub insecure: bool,
}

/// There is no key for signing cookies.
#[derive(Clone, Copy, Debug, PartialEq, Eq, Structural)]
pub struct MissingKey;

impl MissingKey {
    /// The sentence that reports the error.
    pub fn message(&self) -> (r: &'static str)
        ensures
            r@ == "Failed to get or generate session key"@,
    {
        "Failed to get or generate session key"
    }
}

/// The key that was provided: in the settings, or else in a file that holds one.
pub open spec fn provided_key(settings: Option<Seq<u8>>, file: Option<Seq<u8>>) -> Option<
    Seq<u8>,
> {
    match settings {
        Some(key) => Some(key),
        None => match file {
            Some(bytes) => key_of(bytes),
            None => None,
        },
    }
}

/// The bytes in a file, if there is one.
pub open spec fn file_view(file: Option<Vec<u8>>) -> Option<Seq<u8>> {
    match file {
        Some(bytes) => Some(bytes@),
        None => None,
    }
}

/// The key that was provided: in the settings, or else in a file that holds one.
pub fn find_key(settings: Option<Key>, file: Option<Vec<u8>>) -> (r: Option<Key>)
    ensures
        key_view(r) == provided_key(key_view(settings), file_view(file)),
{
    match settings {
        Some(key) => Some(key),
        None => match file {
            Some(bytes) => Key::try_from(&bytes),
            None => None,
        },
    }
}

/// Settles on the key that was provided, or else on one that was generated.
pub fn settle_key(provided: Option<Key>, generated: Option<Key>) -> (r: Result<Key, MissingKey>)
    ensures
        r == match provided {
            Some(key) => Ok(key),
            None => match generated {
                Some(key) => Ok(key),
                None => Err::<Key, MissingKey>(MissingKey),
            },
        },
{
    match provided {
        Some(key) => Ok(key),
        None => match generated {
            Some(key) => Ok(key),
            None => Err(MissingKey),
        },
    }
}

/// Sets up sessions, with the contents of the key file if it could be read, and with the key
/// that was generated if none was provided.
pub fn sessions_with<T>(
    settings: SessionSettings,
    key_file: Option<Vec<u8>>,
    generated: Option<Key>,
) -> (r: Result<SessionState<T>, MissingKey>)
    ensures
        match r {
            Ok(state) => {
                &&& state.store.inner.well_formed()
                &&& state.store.inner@ == Map::<u128, T>::empty()
                &&& state.store.inner.kept_for() == settings.lifetime
                &&& state.store.cleanup_intervals@ == seq![settings.cleanup_interval]
                &&& state.cookie_name == settings.cookie_name
                &&& state.insecure == settings.insecure
                &&& state.key@.len() == KEY_LENGTH
                &&& match provided_key(key_view(settings.key), file_view(key_file)) {
                    Some(key) => state.key@ == key,
                    None => key_view(generated) == Some(state.key@),
                }
            },
            Err(_) => provided_key(key_view(settings.key), file_view(key_file)) is None
                && generated is None,
        },
{
    let store = Store::with_lifetime(settings.lifetime).with_cleanup(settings.cleanup_interval);
    let provided = find_key(settings.key, key_file);
    match settle_key(provided, generated) {
        Ok(key) => {
            let length = key.master().len();
            assert(length == KEY_LENGTH);
            assert(store.cleanup_intervals@ =~= seq![settings.cleanup_interval]);
            Ok(
                SessionState {
                    store,
                    cookie_name: settings.cookie_name,
                    key,
                    insecure: settings.insecure,
                },
            )
        },
        Err(error) => Err(error),
    }
}

/// Sets up sessions, with the contents of the key file if it could be read. Where no key was
/// provided, a random one is generated, if the machine provides any.
pub fn setup_sessions<T>(settings: SessionSettings, key_file: Option<Vec<u8>>) -> (r: Result<
    SessionState<T>,
    MissingKey,
>)
    ensures
        match r {
            Ok(state) => {
                &&& state.store.inner.well_formed()
                &&& state.store.inner@ == Map::<u128, T>::empty()
                &&& state.store.inner.kept_for() == settings.lifetime
                &&& state.store.cleanup_intervals@ == seq![settings.cleanup_interval]
                &&& state.cookie_name == settings.cookie_name
                &&& state.insecure == settings.insecure
                &&& state.key@.len() == KEY_LENGTH
                &&& match provided_key(key_view(settings.key), file_view(key_file)) {
                    Some(key) => state.key@ == key,
                    None => random_key(Some(state.key@)),
                }
            },
            Err(_) => provided_key(key_view(settings.key), file_view(key_file)) is None
                && random_key(None),
        },
{
    let SessionSettings { cookie_name, lifetime, cleanup_interval, key, insecure } = settings;
    let provided = find_key(key, key_file);
    let generated = match provided {
        Some(_) => None,
        None => Key::try_generate(),
    };
    let settings = SessionSettings {
        cookie_name,
        lifetime,
        cleanup_interval,
        key: provided,
        insecure,
    };
    sessions_with(settings, None, generated)
}

/// A session that a request belongs to.
pub struct Session<'a, T> {
    pub id: ID,
    pub store_ref: &'a mut StoreInner<T>,
}

/// Whether an error tells a client that it is not authorized, with the given text.
pub open spec fn refusal(error: WebError, text: Seq<char>) -> bool {
    &&& error.kind == WebErrorKind::Client
    &&& error.inner.display@ == text
    &&& error.inner.debug@ == seq!['"'] + text + seq!['"']
    &&& error.code matches Some(code) && code@ == 401
}

/// Tells a client that it is not authorized.
fn refuse(text: &str) -> (r: WebError)
    requires
        crate::errors::plain(text@),
    ensures
        refusal(r, text@),
{
    WebError::client(BoxError::from_text(text)).code(StatusCode::unauthorized())
}

impl<'a, T> Session<'a, T> {
    /// Accesses the session's value, unless the session has expired before the given point in
    /// time or is gone.
    pub fn resolve_at(self, now: Timestamp) -> (r: WebResult<ValueRef<'a, T>>)
        requires
            self.store_ref.well_formed(),
            self.store_ref@.dom().contains(self.id@) ==> representable(
                expiry(self.id@, self.store_ref.kept_for()),
            ),
        ensures
            match r {
                Ok(found) => {
                    &&& found_at(
                        old(self.store_ref)@,
                        old(self.store_ref).kept_for(),
                        self.id@,
                        now@,
                    )
                    &&& found.id@ == self.id@
                    &&& found.valid()
                    &&& *found.store == *old(self.store_ref)
                    &&& *final(found.store) == *final(self.store_ref)
                },
                Err(error) => {
                    &&& !found_at(
                        old(self.store_ref)@,
                        old(self.store_ref).kept_for(),
                        self.id@,
                        now@,
                    )
                    &&& refusal(error, "Session expired"@)
                    &&& *final(self.store_ref) == *old(self.store_ref)
                },
            },
    {
        proof {
            reveal_strlit("Session expired");
        }
        match self.store_ref.query_at(&self.id, now) {
            Some(found) => Ok(found),
            None => Err(refuse("Session expired")),
        }
    }

    /// Accesses the session's value, unless the session has expired by now or is gone.
    pub fn resolve(self) -> (r: WebResult<ValueRef<'a, T>>)
        requires
            self.store_ref.well_formed(),
            self.store_ref@.dom().contains(self.id@) ==> representable(
                expiry(self.id@, self.store_ref.kept_for()),
            ),
        ensures
            match r {
                Ok(found) => {
                    &&& old(self.store_ref)@.dom().contains(self.id@)
                    &&& found.id@ == self.id@
                    &&& found.valid()
                    &&& *found.store == *old(self.store_ref)
                    &&& *final(found.store) == *final(self.store_ref)
                },
                Err(error) => {
                    &&& refusal(error, "Session expired"@)
                    &&& *final(self.store_ref) == *old(self.store_ref)
                },
            },
            exists|now: int| #[trigger]
                clock_shows(now) && representable(now) && (r is Ok <==> found_at(
                    old(self.store_ref)@,
                    old(self.store_ref).kept_for(),
                    self.id@,
                    now,
                )),
    {
        let now = Timestamp::now_utc();
        assert(representable(now@));
        self.resolve_at(now)
    }
}

/// The session id in the cookies of a request: the one that was signed in the session cookie.
pub open spec fn claimed_id(
    cookies: Map<Seq<char>, Content>,
    cookie_name: Seq<char>,
    key: Seq<u8>,
) -> Option<u128> {
    if cookies.dom().contains(cookie_name) {
        match signed_text(key, cookies[cookie_name].value) {
            Some(text) => match read_timed(text) {
                Ok(id) => Some(id),
                Err(_) => None,
            },
            None => None,
        }
    } else {
        None
    }
}

/// The session that a request belongs to: the one with the id in its cookies, if it is stored.
pub open spec fn current_session<T>(
    cookies: Map<Seq<char>, Content>,
    cookie_name: Seq<char>,
    key: Seq<u8>,
    sessions: Map<u128, T>,
) -> Option<u128> {
    match claimed_id(cookies, cookie_name, key) {
        Some(id) => if sessions.dom().contains(id) {
            Some(id)
        } else {
            None
        },
        None => None,
    }
}

/// The cookie that a session is found by.
pub open spec fn session_cookie(
    id: u128,
    key: Seq<u8>,
    lifetime: Duration,
    insecure: bool,
) -> Content {
    Content {
        http_only: Some(true),
        max_age: Some(lifetime),
        same_site: Some(SameSite::Strict),
        secure: Some(!insecure),
        ..bare(signature(key, hyphenated(id)) + hyphenated(id))
    }
}

/// The sessions of an application, as the handler of a request sees them.
pub struct SessionManager<'a, T> {
    pub state: &'a mut SessionState<T>,
    pub cookies: &'a mut tower_cookies::cookie::CookieJar,
}

impl<'a, T> SessionManager<'a, T> {
    /// The session that the request belongs to.
    pub fn current(self) -> (r: WebResult<Session<'a, T>>)
        requires
            self.state.store.inner.well_formed(),
        ensures
            *final(self.cookies) == *old(self.cookies),
            match r {
                Ok(session) => {
                    &&& current_session(
                        jar_cookies(*old(self.cookies)),
                        old(self.state).cookie_name@,
                        old(self.state).key@,
                        old(self.state).store.inner@,
                    ) == Some(session.id@)
                    &&& *session.store_ref == old(self.state).store.inner
                    &&& *final(self.state) == (SessionState {
                        store: (Store {
                            inner: *final(session.store_ref),
                            ..old(self.state).store
                        }),
                        ..*old(self.state)
                    })
                },
                Err(error) => {
                    &&& current_session(
                        jar_cookies(*old(self.cookies)),
                        old(self.state).cookie_name@,
                        old(self.state).key@,
                        old(self.state).store.inner@,
                    ) is None
                    &&& refusal(error, "Unauthorized"@)
                    &&& *final(self.state) == *old(self.state)
                },
            },
    {
        proof {
            reveal_strlit("Unauthorized");
        }
        let state = self.state;
        let text = match signed_get(self.cookies, state.key.master(), state.cookie_name) {
            Some(text) => text,
            None => return Err(refuse("Unauthorized")),
        };
        let id = match TimedUuid::from_str(text.as_str()) {
            Ok(id) => id,
            Err(_) => return Err(refuse("Unauthorized")),
        };
        if state.store.inner.contains(&id) {
            Ok(Session { id, store_ref: &mut state.store.inner })
        } else {
            Err(refuse("Unauthorized"))
        }
    }

    /// Starts a session with the given id and value: stores the value, and adds the cookie by
    /// which later requests are found to belong to the session. Fails just where the id is taken.
    pub fn create_at(self, id: ID, data: T) -> (r: Result<ValueRef<'a, T>, StoreError>)
        requires
            self.state.store.inner.well_formed(),
            self.state.store.inner.kept_for().in_range(),
        ensures
            match r {
                Ok(stored) => {
                    &&& !old(self.state).store.inner@.dom().contains(id@)
                    &&& stored.id == id
                    &&& stored.valid()
                    &&& stored.store@ == old(self.state).store.inner@.insert(id@, data)
                    &&& stored.store.kept_for() == old(self.state).store.inner.kept_for()
                    &&& *final(self.state) == (SessionState {
                        store: (Store { inner: *final(stored.store), ..old(self.state).store }),
                        ..*old(self.state)
                    })
                    &&& jar_cookies(*final(self.cookies)) == jar_cookies(*old(self.cookies)).insert(
                        old(self.state).cookie_name@,
                        session_cookie(
                            id@,
                            old(self.state).key@,
                            old(self.state).store.inner.kept_for(),
                            old(self.state).insecure,
                        ),
                    )
                    &&& claimed_id(
                        jar_cookies(*final(self.cookies)),
                        old(self.state).cookie_name@,
                        old(self.state).key@,
                    ) == Some(id@)
                },
                Err(error) => {
                    &&& error == StoreError::KeyExists
                    &&& old(self.state).store.inner@.dom().contains(id@)
                    &&& *final(self.cookies) == *old(self.cookies)
                    &&& final(self.state).store.inner.well_formed()
                    &&& final(self.state).store.inner@ == old(self.state).store.inner@
                    &&& final(self.state).store.inner.kept_for()
                        == old(self.state).store.inner.kept_for()
                    &&& *final(self.state) == (SessionState {
                        store: (Store {
                            inner: final(self.state).store.inner,
                            ..old(self.state).store
                        }),
                        ..*old(self.state)
                    })
                },
            },
    {
        let state = self.state;
        let lifetime = state.store.inner.lifetime();
        match state.store.inner.insert_at(id, data) {
            Ok(_) => {},
            Err(error) => return Err(error),
        }
        let text = id.to_string();
        let mut cookie = RawCookie::new(state.cookie_name, text.as_str());
        cookie.http_only = Some(true);
        cookie.max_age = Some(lifetime);
        cookie.same_site = Some(SameSite::Strict);
        cookie.secure = Some(!state.insecure);
        signed_add(self.cookies, state.key.master(), cookie);
        proof {
            let signed = jar_cookies(*self.cookies)[state.cookie_name@].value;
            assert(signed.take(SIGNATURE_LENGTH as int) =~= signature(state.key@, text@));
            assert(signed.skip(SIGNATURE_LENGTH as int) =~= text@);
        }
        Ok(ValueRef { store: &mut state.store.inner, id })
    }

    /// Starts a session with the given value under a new id.
    pub fn create(self, data: T) -> (r: Result<ValueRef<'a, T>, StoreError>)
        requires
            self.state.store.inner.well_formed(),
            self.state.store.inner.kept_for().in_range(),
        ensures
            match r {
                Ok(stored) => {
                    &&& !old(self.state).store.inner@.dom().contains(stored.id@)
                    &&& version(stored.id@) == 7
                    &&& stored.valid()
                    &&& stored.store@ == old(self.state).store.inner@.insert(stored.id@, data)
                    &&& stored.store.kept_for() == old(self.state).store.inner.kept_for()
                    &&& *final(self.state) == (SessionState {
                        store: (Store { inner: *final(stored.store), ..old(self.state).store }),
                        ..*old(self.state)
                    })
                    &&& jar_cookies(*final(self.cookies)) == jar_cookies(*old(self.cookies)).insert(
                        old(self.state).cookie_name@,
                        session_cookie(
                            stored.id@,
                            old(self.state).key@,
                            old(self.state).store.inner.kept_for(),
                            old(self.state).insecure,
                        ),
                    )
                    &&& claimed_id(
                        jar_cookies(*final(self.cookies)),
                        old(self.state).cookie_name@,
                        old(self.state).key@,
                    ) == Some(stored.id@)
                },
                Err(error) => {
                    &&& error is KeyExists || error == StoreError::Uuid(
                        TimedUuidError::InvalidTimestamp(UuidTimeError::InvalidUnixTimestamp),
                    )
                    &&& error is KeyExists ==> exists|id: u128| #[trigger]
                        old(self.state).store.inner@.dom().contains(id) && version(id) == 7
                    &&& *final(self.cookies) == *old(self.cookies)
                    &&& final(self.state).store.inner.well_formed()
                    &&& final(self.state).store.inner@ == old(self.state).store.inner@
                    &&& final(self.state).store.inner.kept_for()
                        == old(self.state).store.inner.kept_for()
                    &&& *final(self.state) == (SessionState {
                        store: (Store {
                            inner: final(self.state).store.inner,
                            ..old(self.state).store
                        }),
                        ..*old(self.state)
                    })
                },
            },
            exists|bits: u128| #[trigger]
                drawn(bits) && version(bits) == 7 && match r {
                    Ok(stored) => stored.id@ == bits,
                    Err(StoreError::Uuid(cause)) => timed(bits) == Err::<u128, TimedUuidError>(
                        cause,
                    ),
                    Err(StoreError::KeyExists) => old(self.state).store.inner@.dom().contains(bits)
                        && uuid_time(bits) is Ok,
                },
    {
        match TimedUuid::new_now() {
            Ok(id) => self.create_at(id, data),
            Err(error) => Err(StoreError::Uuid(error)),
        }
    }
}

/// A session that was started is the current one for every later request that brings back the
/// value of its cookie, as long as the session is stored.
pub proof fn law_started_session_is_current<T>(
    sent: Map<Seq<char>, Content>,
    received: Map<Seq<char>, Content>,
    cookie_name: Seq<char>,
    key: Seq<u8>,
    sessions: Map<u128, T>,
    id: u128,
)
    requires
        claimed_id(sent, cookie_name, key) == Some(id),
        received.dom().contains(cookie_name),
        received[cookie_name].value == sent[cookie_name].value,
        sessions.dom().contains(id),
    ensures
        current_session(received, cookie_name, key, sessions) == Some(id),
{
}

/// Once a session is taken out of the store, its cookie has the same effect as none at all.
pub proof fn law_removed_session_is_gone<T>(
    cookies: Map<Seq<char>, Content>,
    cookie_name: Seq<char>,
    key: Seq<u8>,
    sessions: Map<u128, T>,
    id: u128,
)
    requires
        claimed_id(cookies, cookie_name, key) == Some(id),
    ensures
        current_session(cookies, cookie_name, key, sessions.remove(id)) is None,
        current_session(cookies, cookie_name, key, sessions.remove(id)) == current_session(
            cookies.remove(cookie_name),
            cookie_name,
            key,
            sessions,
        ),
{
}

/// A request whose session cookie does not start with the signature of the rest belongs to no
/// session, whatever is stored.
pub proof fn law_unsigned_cookie_is_refused<T>(
    cookies: Map<Seq<char>, Content>,
    cookie_name: Seq<char>,
    key: Seq<u8>,
    sessions: Map<u128, T>,
)
    requires
        cookies.dom().contains(cookie_name) ==> forall|text: Seq<char>|
            cookies[cookie_name].value != #[trigger] signature(key, text) + text,
    ensures
        current_session(cookies, cookie_name, key, sessions) is None,
{
    if cookies.dom().contains(cookie_name) {
        let value = cookies[cookie_name].value;
        if signed_text(key, value) is Some {
            let text = value.skip(SIGNATURE_LENGTH as int);
            assert(value =~= signature(key, text) + text);
        }
    }
}

/// A session is resolved just where it is stored and its lifetime has not passed at the time that
/// the clock shows. Otherwise the client is answered with 401.
pub proof fn law_session_expires_by_the_clock<'a, T>(
    session: Session<'a, T>,
    told: int,
    r: WebResult<ValueRef<'a, T>>,
)
    requires
        call_ensures(Session::<'a, T>::resolve, (session,), r),
        uuid_time(session.id@) == Ok::<int, UuidTimeError>(told),
    ensures
        exists|now: int| #[trigger]
            clock_shows(now) && (r is Ok <==> old(session.store_ref)@.dom().contains(session.id@)
                && now - told <= old(session.store_ref).kept_for().nanoseconds),
        r matches Err(error) ==> error.kind == WebErrorKind::Client && (error.code matches Some(
            code,
        ) && code@ == 401) && error.inner.display@ == "Session expired"@,
{
    let now = choose|now: int| #[trigger]
        clock_shows(now) && representable(now) && (r is Ok <==> found_at(
            old(session.store_ref)@,
            old(session.store_ref).kept_for(),
            session.id@,
            now,
        ));
    assert(clock_shows(now));
}

/// A session that is resolved at a given time follows the same rule.
pub proof fn law_session_expires_after_its_lifetime<'a, T>(
    session: Session<'a, T>,
    now: Timestamp,
    told: int,
    r: WebResult<ValueRef<'a, T>>,
)
    requires
        call_ensures(Session::<'a, T>::resolve_at, (session, now), r),
        uuid_time(session.id@) == Ok::<int, UuidTimeError>(told),
    ensures
        r is Ok <==> old(session.store_ref)@.dom().contains(session.id@) && now@ - told <= old(
            session.store_ref,
        ).kept_for().nanoseconds,
        r matches Err(error) ==> error.kind == WebErrorKind::Client && (error.code matches Some(
            code,
        ) && code@ == 401) && error.inner.display@ == "Session expired"@,
{
}

/// A request names a session just where its session cookie is the signature of a text followed by
/// that text, and the text is that of a UUID that tells a point in time.
pub proof fn law_named_session_is_signed(
    cookies: Map<Seq<char>, Content>,
    cookie_name: Seq<char>,
    key: Seq<u8>,
    id: u128,
)
    ensures
        claimed_id(cookies, cookie_name, key) == Some(id) <==> cookies.dom().contains(cookie_name)
            && exists|text: Seq<char>|
            {
                &&& cookies[cookie_name].value == #[trigger] signature(key, text) + text
                &&& signature(key, text).len() == 44
                &&& parsed_uuid(text) == Some(id)
                &&& uuid_time(id) is Ok
            },
{
    let value = cookies[cookie_name].value;
    if claimed_id(cookies, cookie_name, key) == Some(id) {
        let text = value.skip(44);
        assert(value =~= signature(key, text) + text);
    }
    if cookies.dom().contains(cookie_name) {
        assert forall|text: Seq<char>|
            value == #[trigger] signature(key, text) + text && signature(key, text).len()
                == 44 implies signed_text(key, value) == Some(text) by {
            assert(value.take(44) =~= signature(key, text));
            assert(value.skip(44) =~= text);
        }
    }
}

/// A request belongs to the session that it names, just where that is stored.
pub proof fn law_named_session_must_be_stored<T>(
    cookies: Map<Seq<char>, Content>,
    cookie_name: Seq<char>,
    key: Seq<u8>,
    sessions: Map<u128, T>,
    id: u128,
)
    ensures
        current_session(cookies, cookie_name, key, sessions) == Some(id) <==> claimed_id(
            cookies,
            cookie_name,
            key,
        ) == Some(id) && sessions.dom().contains(id),
{
}

/// The cookie of a session holds its id behind a signature. Scripts cannot read it, other sites
/// cannot send it, it lasts as long as the session, and it travels encrypted unless that is
/// switched off.
pub proof fn law_session_cookie_is_guarded(
    id: u128,
    key: Seq<u8>,
    lifetime: Duration,
    insecure: bool,
)
    ensures
        ({
            let cookie = session_cookie(id, key, lifetime, insecure);
            &&& cookie.value == signature(key, hyphenated(id)) + hyphenated(id)
            &&& cookie.http_only == Some(true)
            &&& cookie.same_site == Some(SameSite::Strict)
            &&& cookie.max_age == Some(lifetime)
            &&& cookie.secure == Some(!insecure)
            &&& cookie.path is None
            &&& cookie.domain is None
            &&& cookie.expires is None
            &&& cookie.partitioned is None
        }),
{
}

/// A key in the settings goes before one in a file, and a file holds a key just where it has at
/// least 64 bytes; the key is made of the first 64.
pub proof fn law_provided_key_is_the_first_there_is(
    settings: Option<Seq<u8>>,
    file: Option<Seq<u8>>,
)
    ensures
        settings is Some ==> provided_key(settings, file) == settings,
        settings is None && file is None ==> provided_key(settings, file) is None,
        settings is None ==> (file matches Some(bytes) ==> (provided_key(settings, file) is Some
            <==> bytes.len() >= 64)),
        settings is None ==> (provided_key(settings, file) matches Some(key) ==> key.len() == 64
            && forall|i: int| 0 <= i < 64 ==> #[trigger] key[i] == file->0[i]),
{
}

/// A client that is not authorized is answered with 401 and the reason between quotes.
pub proof fn law_refusal_is_answered(error: WebError, text: Seq<char>)
    requires
        refusal(error, text),
    ensures
        crate::errors::response_of(error) == (401u16, seq!['"'] + text + seq!['"']),
{
}

/// Starting a session fails for one of two reasons only: the UUID that was drawn lies after the
/// year 9999, or it is taken.
pub proof fn law_session_fails_for_two_reasons<'a, T>(
    manager: SessionManager<'a, T>,
    data: T,
    r: Result<ValueRef<'a, T>, StoreError>,
)
    requires
        call_ensures(SessionManager::<'a, T>::create, (manager, data), r),
    ensures
        exists|bits: u128| #[trigger]
            drawn(bits) && (r is Ok <==> uuid_time(bits) is Ok && !old(
                manager.state,
            ).store.inner@.dom().contains(bits)) && (r is Ok ==> r->Ok_0.id@ == bits && old(
                r->Ok_0.store,
            )@ == old(manager.state).store.inner@.insert(bits, data)),
{
    let bits = choose|bits: u128| #[trigger]
        drawn(bits) && version(bits) == 7 && match r {
            Ok(stored) => stored.id@ == bits,
            Err(StoreError::Uuid(cause)) => timed(bits) == Err::<u128, TimedUuidError>(cause),
            Err(StoreError::KeyExists) => old(manager.state).store.inner@.dom().contains(bits)
                && uuid_time(bits) is Ok,
        };
    assert(drawn(bits));
}

/// A random key is one that was generated.
proof fn law_random_key_was_generated(bytes: Option<Seq<u8>>)
    requires
        random_key(bytes),
    ensures
        exists|generated: Option<Vec<u8>>| #[trigger]
            call_ensures(generate_key, (), generated) && match generated {
                Some(key) => bytes == Some(key@),
                None => bytes is None,
            },
{
    let generated = choose|generated: Option<Vec<u8>>| #[trigger]
        call_ensures(generate_key, (), generated) && file_view(generated) == bytes;
    assert(call_ensures(generate_key, (), generated));
}

/// A key is made of the first 64 of at least as many bytes.
pub proof fn law_key_is_the_first_bytes(bytes: Vec<u8>, r: Option<Key>)
    requires
        call_ensures(Key::try_from, (&bytes,), r),
    ensures
        r is Some <==> bytes@.len() >= 64,
        r matches Some(key) ==> key@.len() == 64 && forall|i: int|
            0 <= i < 64 ==> #[trigger] key@[i] == bytes@[i],
{
}

/// The key in the settings is found before the one in the file.
pub proof fn law_found_key_is_the_first_there_is(
    settings: Option<Key>,
    file: Option<Vec<u8>>,
    r: Option<Key>,
)
    requires
        call_ensures(find_key, (settings, file), r),
    ensures
        settings matches Some(key) ==> (r matches Some(found) && found@ == key@),
        settings is None && file is None ==> r is None,
        settings is None ==> (file matches Some(bytes) ==> (r is Some <==> bytes@.len() >= 64) && (
        r matches Some(found) ==> found@ == bytes@.take(64))),
{
}

/// Sessions are set up with the key in the settings, or else the one in the file, or else the one
/// that was generated, and fail only where there is none of these.
pub proof fn law_sessions_have_the_first_key_there_is<T>(
    settings: SessionSettings,
    key_file: Option<Vec<u8>>,
    generated: Option<Key>,
    r: Result<SessionState<T>, MissingKey>,
)
    requires
        call_ensures(sessions_with::<T>, (settings, key_file, generated), r),
    ensures
        settings.key matches Some(key) ==> (r matches Ok(state) && state.key@ == key@),
        settings.key is None ==> (key_file matches Some(bytes) ==> bytes@.len() >= 64 ==> (
        r matches Ok(state) && state.key@ == bytes@.take(64))),
        settings.key is None && !(key_file matches Some(bytes) && bytes@.len() >= 64) ==> match (
            generated,
            r,
        ) {
            (Some(key), Ok(state)) => state.key@ == key@,
            (None, Err(_)) => true,
            _ => false,
        },
{
}

/// The current session of a request is the stored one that its signed cookie names; a request
/// without one is answered with 401.
pub proof fn law_current_session_is_the_named_one<'a, T>(
    manager: SessionManager<'a, T>,
    r: WebResult<Session<'a, T>>,
)
    requires
        call_ensures(SessionManager::<'a, T>::current, (manager,), r),
    ensures
        r matches Ok(session) ==> claimed_id(
            jar_cookies(*old(manager.cookies)),
            old(manager.state).cookie_name@,
            old(manager.state).key@,
        ) == Some(session.id@) && old(manager.state).store.inner@.dom().contains(session.id@),
        r matches Err(error) ==> error.kind == WebErrorKind::Client && (error.code matches Some(
            code,
        ) && code@ == 401) && forall|id: u128| #[trigger]
            old(manager.state).store.inner@.dom().contains(id) ==> claimed_id(
                jar_cookies(*old(manager.cookies)),
                old(manager.state).cookie_name@,
                old(manager.state).key@,
            ) != Some(id),
{
}

/// A request that brings back the cookie of a session that was started belongs to that session, as
/// long as it is stored.
pub proof fn law_cookie_leads_back_to_the_session<'a, 'b, T>(
    manager: SessionManager<'a, T>,
    id: ID,
    data: T,
    started: Result<ValueRef<'a, T>, StoreError>,
    later: SessionManager<'b, T>,
    r: WebResult<Session<'b, T>>,
)
    requires
        call_ensures(SessionManager::<'a, T>::create_at, (manager, id, data), started),
        started is Ok,
        call_ensures(SessionManager::<'b, T>::current, (later,), r),
        later.state.cookie_name@ == manager.state.cookie_name@,
        later.state.key@ == manager.state.key@,
        jar_cookies(*later.cookies).dom().contains(manager.state.cookie_name@),
        jar_cookies(*later.cookies)[manager.state.cookie_name@].value == jar_cookies(
            *final(manager.cookies),
        )[manager.state.cookie_name@].value,
        later.state.store.inner@.dom().contains(id@),
    ensures
        r matches Ok(session) && session.id@ == id@,
{
}

/// Starting a session under an id succeeds just where the id is not taken. It stores the value
/// there, and its cookie is the only one that changes.
pub proof fn law_started_session_is_stored<'a, T>(
    manager: SessionManager<'a, T>,
    id: ID,
    data: T,
    r: Result<ValueRef<'a, T>, StoreError>,
    other: Seq<char>,
)
    requires
        call_ensures(SessionManager::<'a, T>::create_at, (manager, id, data), r),
        other != manager.state.cookie_name@,
    ensures
        r is Ok <==> !old(manager.state).store.inner@.dom().contains(id@),
        r matches Ok(stored) ==> stored.store@ == old(manager.state).store.inner@.insert(
            id@,
            data,
        ),
        jar_cookies(*final(manager.cookies)).dom().contains(other) <==> jar_cookies(
            *old(manager.cookies),
        ).dom().contains(other),
        jar_cookies(*old(manager.cookies)).dom().contains(other) ==> jar_cookies(
            *final(manager.cookies),
        )[other] == jar_cookies(*old(manager.cookies))[other],
        r is Err ==> *final(manager.cookies) == *old(manager.cookies),
{
}

/// A provided key is settled on whatever was generated; where none was provided, the generated
/// one is, and it fails only where there is neither.
pub proof fn law_provided_key_is_settled_on(
    provided: Option<Key>,
    generated: Option<Key>,
    r: Result<Key, MissingKey>,
)
    requires
        call_ensures(settle_key, (provided, generated), r),
    ensures
        provided matches Some(key) ==> r == Ok::<Key, MissingKey>(key),
        provided is None ==> (generated matches Some(key) ==> r == Ok::<Key, MissingKey>(key)),
        r is Err <==> provided is None && generated is None,
{
}

} // verus!
