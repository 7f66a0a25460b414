//! Cookies whose values stand for values of a Rust type, and cookies that are signed.
use vstd::prelude::*;

use tower_cookies::cookie;

use crate::clock::Duration;
use crate::errors::BoxError;

verus! {

/// With which requests from other sites a cookie is sent along.
#[derive(Clone, Copy, Debug, PartialEq, Eq, Structural)]
pub enum SameSite {
    /// With none.
    Strict,
    /// With those that follow a link.
    Lax,
    /// With all.
    Unrestricted,
}

/// A cookie as it is sent.
#[derive(Debug)]
pub struct RawCookie {
    pub name: String,
    pub value: String,
    pub path: Option<String>,
    pub domain: Option<String>,
    /// When the cookie expires, in nanoseconds since the Unix epoch, or `None` within for the end
    /// of the browser's session.
    pub expires: Option<Option<i128>>,
    pub max_age: Option<Duration>,
    pub http_only: Option<bool>,
    pub same_site: Option<SameSite>,
    pub secure: Option<bool>,
    pub partitioned: Option<bool>,
}

/// What a cookie consists of beside its name.
pub struct Content {
    pub value: Seq<char>,
    pub path: Option<Seq<char>>,
    pub domain: Option<Seq<char>>,
    pub expires: Option<Option<i128>>,
    pub max_age: Option<Duration>,
    pub http_only: Option<bool>,
    pub same_site: Option<SameSite>,
    pub secure: Option<bool>,
    pub partitioned: Option<bool>,
}

/// The characters of a text, if there is one.
pub open spec fn text_view(text: Option<String>) -> Option<Seq<char>> {
    match text {
        Some(text) => Some(text@),
        None => None,
    }
}

/// A cookie of which nothing but its value is fixed.
pub open spec fn bare(value: Seq<char>) -> Content {
    Content {
        value,
        path: None,
        domain: None,
        expires: None,
        max_age: None,
        http_only: None,
        same_site: None,
        secure: None,
        partitioned: None,
    }
}

impl RawCookie {
    /// What the cookie consists of beside its name.
    pub open spec fn content(&self) -> Content {
        Content {
            value: self.value@,
            path: text_view(self.path),
            domain: text_view(self.domain),
            expires: self.expires,
            max_age: self.max_age,
            http_only: self.http_only,
            same_site: self.same_site,
            secure: self.secure,
            partitioned: self.partitioned,
        }
    }

    /// A cookie of which nothing but its name and its value is fixed.
    pub fn new(name: &str, value: &str) -> (r: RawCookie)
        ensures
            r.name@ == name@,
            r.content() == bare(value@),
    {
        RawCookie {
            name: name.to_owned(),
            value: value.to_owned(),
            path: None,
            domain: None,
            expires: None,
            max_age: None,
            http_only: None,
            same_site: None,
            secure: None,
            partitioned: None,
        }
    }
}

#[verifier::external_type_specification]
#[verifier::external_body]
pub struct ExCookieJar(cookie::CookieJar);

/// The cookies in a jar that have not been removed, by their names.
pub uninterp spec fn jar_cookies(jar: cookie::CookieJar) -> Map<Seq<char>, Content>;

/// `CookieJar::get` of the `cookie` crate: the cookie with the given name. The date of expiry is
/// handed out by its nanoseconds, and the domain without a dot at its start.
#[verifier::external_body]
fn jar_get(jar: &cookie::CookieJar, name: &str) -> (r: Option<RawCookie>)
    ensures
        match r {
            Some(cookie) => {
                &&& jar_cookies(*jar).dom().contains(name@)
                &&& cookie.name@ == name@
                &&& cookie.content() == jar_cookies(*jar)[name@]
            },
            None => !jar_cookies(*jar).dom().contains(name@),
        },
{
    jar.get(name).map(|cookie| RawCookie {
        name: cookie.name().to_owned(),
        value: cookie.value().to_owned(),
        path: cookie.path().map(str::to_owned),
        domain: cookie.domain().map(str::to_owned),
        expires: cookie.expires().map(|at| at.datetime().map(|at| at.unix_timestamp_nanos())),
        max_age: cookie.max_age().map(|age| Duration { nanoseconds: age.whole_nanoseconds() }),
        http_only: cookie.http_only(),
        same_site: cookie.same_site().map(|same_site| match same_site {
            cookie::SameSite::Strict => SameSite::Strict,
            cookie::SameSite::Lax => SameSite::Lax,
            cookie::SameSite::None => SameSite::Unrestricted,
        }),
        secure: cookie.secure(), partitioned: cookie.partitioned(),
    })
}

/// The signature that goes before a value that is signed with a key.
pub uninterp spec fn signature(key: Seq<u8>, value: Seq<char>) -> Seq<char>;

/// The length of a signature.
pub const SIGNATURE_LENGTH: usize = 44;

/// What was signed, if a value is signed with the given key.
pub open spec fn signed_text(key: Seq<u8>, value: Seq<char>) -> Option<Seq<char>> {
    if value.len() >= SIGNATURE_LENGTH && value.take(SIGNATURE_LENGTH as int) == signature(
        key,
        value.skip(SIGNATURE_LENGTH as int),
    ) {
        Some(value.skip(SIGNATURE_LENGTH as int))
    } else {
        None
    }
}

/// `SignedJar::get` of the `cookie` crate: what was signed in the cookie with the given name,
/// if there is such a cookie and its value starts with the signature of the rest.
#[verifier::external_body]
pub(crate) fn signed_get(
    jar: &cookie::CookieJar,
    key: &Vec<u8>,
    name: &str,
) -> (r: Option<String>)
    requires
        key.len() >= 64,
    ensures
        match r {
            Some(text) => jar_cookies(*jar).dom().contains(name@) && signed_text(
                key@,
                jar_cookies(*jar)[name@].value,
            ) == Some(text@),
            None => !jar_cookies(*jar).dom().contains(name@) || signed_text(
                key@,
                jar_cookies(*jar)[name@].value,
            ) is None,
        },
{
    jar.signed(&tower_cookies::Key::from(key)).get(name).map(|cookie| cookie.value().to_owned())
}

/// `SignedJar::add` of the `cookie` crate: puts a cookie into the jar, in the place of any other
/// with its name, and its signature before its value. A signature has 44 characters.
#[verifier::external_body]
pub(crate) fn signed_add(
    jar: &mut cookie::CookieJar,
    key: &Vec<u8>,
    cookie: RawCookie,
)
    requires
        key.len() >= 64,
        cookie.max_age matches Some(age) ==> age.in_range(),
        cookie.path is None,
        cookie.domain is None,
        cookie.expires is None,
        cookie.partitioned is None,
    ensures
        jar_cookies(*final(jar)) == jar_cookies(*old(jar)).insert(
            cookie.name@,
            (Content { value: signature(key@, cookie.value@) + cookie.value@, ..cookie.content() }),
        ),
        jar_cookies(*final(jar))[cookie.name@].value.len() == SIGNATURE_LENGTH
            + cookie.value@.len(),
{
    let mut added = tower_cookies::Cookie::new(cookie.name, cookie.value);
    added.set_http_only(cookie.http_only);
    added.set_max_age(cookie.max_age.map(|age| time::Duration::nanoseconds_i128(age.nanoseconds)));
    added.set_same_site(cookie.same_site.map(|same_site| match same_site {
        SameSite::Strict => cookie::SameSite::Strict,
        SameSite::Lax => cookie::SameSite::Lax,
        SameSite::Unrestricted => cookie::SameSite::None,
    }));
    added.set_secure(cookie.secure);
    jar.signed_mut(&tower_cookies::Key::from(key)).add(added)
}

/// A type whose values are kept in a cookie.
pub trait CookieDefinition: CookieRepr {
    /// The name of the cookie.
    const NAME: &'static str;
}

/// How values are written into a cookie and read from it.
pub trait CookieRepr: Sized {
    /// The value of the cookie.
    fn serialize(&self) -> String;

    /// Reads the value of the cookie.
    fn deserialize(value: &str) -> Result<Self, BoxError>;
}

/// A cookie, and the value that it stands for.
pub struct ParsedCookie<T> {
    pub raw: RawCookie,
    pub parsed: T,
}

/// Why a cookie could not be read.
#[derive(Debug)]
pub enum CookieErrorCause {
    /// There is no cookie with the name.
    NotFound,
    /// The value of the cookie does not stand for anything.
    Invalid(BoxError),
}

impl CookieErrorCause {
    /// The sentence that reports the cause.
    pub fn message(&self) -> (r: &'static str)
        ensures
            r@ == match self {
                CookieErrorCause::NotFound => "not found"@,
                CookieErrorCause::Invalid(_) => "contents are invalid"@,
            },
    {
        match self {
            CookieErrorCause::NotFound => "not found",
            CookieErrorCause::Invalid(_) => "contents are invalid",
        }
    }
}

/// A cookie could not be read.
#[derive(Debug)]
pub struct CookieError {
    pub name: &'static str,
    pub cause: CookieErrorCause,
}

impl CookieError {
    /// The sentence that reports the error.
    pub fn message(&self) -> (r: String)
        ensures
            r@ == "Error while getting a cookie: "@ + self.name@,
    {
        let mut text = "Error while getting a cookie: ".to_owned();
        text.append(self.name);
        text
    }
}

/// A cookie that stands for a value.
pub struct Cookie<T> {
    pub inner: ParsedCookie<T>,
}

/// What comes of a cookie that was looked for, given what reading its value came to.
pub open spec fn cookie_outcome<T: CookieDefinition>(
    found: Option<(RawCookie, Result<T, BoxError>)>,
) -> Result<Cookie<T>, CookieError> {
    match found {
        None => Err(CookieError { name: T::NAME, cause: CookieErrorCause::NotFound }),
        Some((raw, Ok(parsed))) => Ok(Cookie { inner: ParsedCookie { raw, parsed } }),
        Some((_, Err(error))) => Err(
            CookieError { name: T::NAME, cause: CookieErrorCause::Invalid(error) },
        ),
    }
}

impl<T: CookieDefinition> Cookie<T> {
    /// What comes of a cookie that was looked for, given what reading its value came to.
    pub fn from_found(found: Option<(RawCookie, Result<T, BoxError>)>) -> (r: Result<
        Cookie<T>,
        CookieError,
    >)
        ensures
            r == cookie_outcome(found),
    {
        match found {
            None => Err(CookieError { name: T::NAME, cause: CookieErrorCause::NotFound }),
            Some((raw, Ok(parsed))) => Ok(Cookie { inner: ParsedCookie { raw, parsed } }),
            Some((_, Err(error))) => Err(
                CookieError { name: T::NAME, cause: CookieErrorCause::Invalid(error) },
            ),
        }
    }

    /// Reads the cookie with the name of the type from a jar.
    pub fn get_from(cookies: &cookie::CookieJar) -> (r: Result<
        Cookie<T>,
        CookieError,
    >)
        ensures
            if jar_cookies(*cookies).dom().contains(T::NAME@) {
                exists|raw: RawCookie, value: &str, parsed: Result<T, BoxError>|
                    {
                        &&& raw.name@ == T::NAME@
                        &&& raw.content() == jar_cookies(*cookies)[T::NAME@]
                        &&& value@ == raw.value@
                        &&& #[trigger] call_ensures(T::deserialize, (value,), parsed)
                        &&& r == #[trigger] cookie_outcome(Some((raw, parsed)))
                    }
            } else {
                r == cookie_outcome::<T>(None)
            },
    {
        let found = match jar_get(cookies, T::NAME) {
            None => None,
            Some(raw) => {
                let parsed = T::deserialize(raw.value.as_str());
                Some((raw, parsed))
            },
        };
        Cookie::from_found(found)
    }

    /// The value that the cookie stands for.
    pub fn value(&self) -> (r: &T)
        ensures
            *r == self.inner.parsed,
    {
        &self.inner.parsed
    }

    /// The value of the cookie as it was sent.
    pub fn as_string(&self) -> (r: &str)
        ensures
            r@ == self.inner.raw.value@,
    {
        self.inner.raw.value.as_str()
    }

    /// The cookie as it was sent.
    pub fn raw(&self) -> (r: &RawCookie)
        ensures
            *r == self.inner.raw,
    {
        &self.inner.raw
    }
}

/// A cookie that was found and read stands for the value that was read, with the cookie as it was
/// sent. A cookie that is missing or could not be read is reported by the name of its type.
pub proof fn law_found_cookie_is_handed_on<T: CookieDefinition>(
    found: Option<(RawCookie, Result<T, BoxError>)>,
    r: Result<Cookie<T>, CookieError>,
)
    requires
        call_ensures(Cookie::<T>::from_found, (found,), r),
    ensures
        r is Ok <==> (found matches Some((_, Ok(_)))),
        found matches Some((raw, Ok(parsed))) ==> r->Ok_0.inner.raw == raw && r->Ok_0.inner.parsed
            == parsed,
        found is None ==> r->Err_0.name == T::NAME && r->Err_0.cause is NotFound,
        found matches Some((_, Err(error))) ==> r->Err_0.name == T::NAME && r->Err_0.cause
            == CookieErrorCause::Invalid(error),
{
}

/// A new cookie has its name and value, and nothing else is fixed of it.
pub proof fn law_new_cookie_is_bare(name: &str, value: &str, r: RawCookie)
    requires
        call_ensures(RawCookie::new, (name, value), r),
    ensures
        r.name@ == name@,
        r.value@ == value@,
        r.path is None,
        r.domain is None,
        r.expires is None,
        r.max_age is None,
        r.http_only is None,
        r.same_site is None,
        r.secure is None,
        r.partitioned is None,
{
}

} // verus!
