//! Errors that end up as HTTP responses.
use vstd::prelude::*;
use vstd::std_specs::convert::FromSpecImpl;

verus! {

/// An HTTP status code: a number of three digits.
#[derive(Clone, Copy, Debug, PartialEq, Eq, Structural)]
pub struct StatusCode {
    value: u16,
}

impl View for StatusCode {
    type V = u16;

    closed spec fn view(&self) -> u16 {
        self.value
    }
}

impl StatusCode {
    #[verifier::type_invariant]
    spec fn well_formed(&self) -> bool {
        100 <= self.value <= 999
    }

    /// The status code with the given number, if it has three digits.
    pub fn from_u16(value: u16) -> (r: Option<StatusCode>)
        ensures
            match r {
                Some(code) => 100 <= value <= 999 && code@ == value,
                None => !(100 <= value <= 999),
            },
    {
        if 100 <= value && value <= 999 {
            Some(StatusCode { value })
        } else {
            None
        }
    }

    /// The number of the status code.
    pub fn as_u16(&self) -> (r: u16)
        ensures
            r == self@,
            100 <= r <= 999,
    {
        proof {
            use_type_invariant(self);
        }
        self.value
    }

    /// 400 Bad Request
    pub fn bad_request() -> (r: StatusCode)
        ensures
            r@ == 400,
    {
        StatusCode { value: 400 }
    }

    /// 401 Unauthorized
    pub fn unauthorized() -> (r: StatusCode)
        ensures
            r@ == 401,
    {
        StatusCode { value: 401 }
    }

    /// 404 Not Found
    pub fn not_found() -> (r: StatusCode)
        ensures
            r@ == 404,
    {
        StatusCode { value: 404 }
    }

    /// 405 Method Not Allowed
    pub fn method_not_allowed() -> (r: StatusCode)
        ensures
            r@ == 405,
    {
        StatusCode { value: 405 }
    }

    /// 500 Internal Server Error
    pub fn internal_server_error() -> (r: StatusCode)
        ensures
            r@ == 500,
    {
        StatusCode { value: 500 }
    }
}

/// The text that Rust's debug format gives for a string.
pub uninterp spec fn quoted(text: Seq<char>) -> Seq<char>;

/// Whether a text consists of letters, digits and spaces.
pub open spec fn plain(text: Seq<char>) -> bool {
    forall|i: int|
        #![trigger text[i]]
        0 <= i < text.len() ==> {
            ||| 'a' <= text[i] <= 'z'
            ||| 'A' <= text[i] <= 'Z'
            ||| '0' <= text[i] <= '9'
            ||| text[i] == ' '
        }
}

/// `format!("{:?}", text)` of the standard library: a string between double quotes, with some
/// characters escaped. Letters, digits and spaces stay as they are.
#[verifier::external_body]
pub(crate) fn quote(text: &str) -> (r: String)
    ensures
        r@ == quoted(text@),
        plain(text@) ==> r@ == seq!['"'] + text@ + seq!['"'],
{
    format!("{:?}", text)
}

/// What is known of an error that led to a failure: how it is shown to readers of a log, and
/// how it is shown in detail.
#[derive(Debug)]
pub struct BoxError {
    pub display: String,
    pub debug: String,
}

impl Clone for BoxError {
    fn clone(&self) -> (r: BoxError)
        ensures
            r == *self,
    {
        BoxError { display: self.display.clone(), debug: self.debug.clone() }
    }
}

impl BoxError {
    /// An error that consists of a text only.
    pub fn from_text(text: &str) -> (r: BoxError)
        ensures
            r.display@ == text@,
            r.debug@ == quoted(text@),
            plain(text@) ==> r.debug@ == seq!['"'] + text@ + seq!['"'],
    {
        BoxError { display: text.to_owned(), debug: quote(text) }
    }
}

/// Who is to blame for an error.
#[derive(Clone, Copy, Debug, PartialEq, Eq, Structural)]
pub enum WebErrorKind {
    Client,
    Internal,
}

impl Default for WebErrorKind {
    fn default() -> (r: WebErrorKind)
        ensures
            r == WebErrorKind::Internal,
    {
        WebErrorKind::Internal
    }
}

/// An error of a request handler.
#[derive(Debug)]
pub struct WebError {
    pub kind: WebErrorKind,
    pub inner: BoxError,
    pub code: Option<StatusCode>,
}

pub type WebResult<T> = Result<T, WebError>;

/// The status code and the body that a failed request is answered with.
pub open spec fn response_of(error: WebError) -> (u16, Seq<char>) {
    match error.kind {
        WebErrorKind::Client => (
            match error.code {
                Some(code) => code@,
                None => 400,
            },
            error.inner.debug@,
        ),
        WebErrorKind::Internal => (
            match error.code {
                Some(code) => code@,
                None => 500,
            },
            "Something went wrong"@,
        ),
    }
}

impl WebError {
    /// A failure of the server.
    pub fn internal(error: BoxError) -> (r: WebError)
        ensures
            r == (WebError { kind: WebErrorKind::Internal, inner: error, code: None }),
    {
        WebError { kind: WebErrorKind::Internal, inner: error, code: None }
    }

    /// A failure of the client.
    pub fn client(error: BoxError) -> (r: WebError)
        ensures
            r == (WebError { kind: WebErrorKind::Client, inner: error, code: None }),
    {
        WebError { kind: WebErrorKind::Client, inner: error, code: None }
    }

    /// A failure of the server that is answered with the given status code.
    pub fn from_tuple(v: (StatusCode, &str)) -> (r: WebError)
        ensures
            r.kind == WebErrorKind::Internal,
            r.inner.display@ == v.1@,
            r.inner.debug@ == quoted(v.1@),
            r.code == Some(v.0),
    {
        let (code, text) = v;
        WebError {
            kind: WebErrorKind::Internal,
            inner: BoxError::from_text(text),
            code: Some(code),
        }
    }

    /// The same error, answered with the given status code.
    pub fn code(self, v: StatusCode) -> (r: WebError)
        ensures
            r == (WebError { code: Some(v), ..self }),
    {
        WebError { kind: self.kind, inner: self.inner, code: Some(v) }
    }

    /// The status code and the body that the error is answered with.
    pub fn into_response(self) -> (r: (StatusCode, String))
        ensures
            (r.0@, r.1@) == response_of(self),
    {
        match self.kind {
            WebErrorKind::Client => {
                let code = match self.code {
                    Some(code) => code,
                    None => StatusCode::bad_request(),
                };
                (code, self.inner.debug)
            },
            WebErrorKind::Internal => {
                let code = match self.code {
                    Some(code) => code,
                    None => StatusCode::internal_server_error(),
                };
                (code, "Something went wrong".to_owned())
            },
        }
    }
}

impl From<BoxError> for WebError {
    fn from(value: BoxError) -> (r: WebError) {
        WebError::internal(value)
    }
}

impl FromSpecImpl<BoxError> for WebError {
    open spec fn obeys_from_spec() -> bool {
        true
    }

    open spec fn from_spec(value: BoxError) -> WebError {
        WebError { kind: WebErrorKind::Internal, inner: value, code: None }
    }
}

/// Turning failures into failures of the client.
pub trait ResultWebExt<T>: Sized {
    /// Blames the client for a failure.
    fn client_error(self) -> Result<T, WebError>;
}

impl<T> ResultWebExt<T> for Result<T, BoxError> {
    fn client_error(self) -> (r: Result<T, WebError>)
        ensures
            r == match self {
                Ok(value) => Ok(value),
                Err(error) => Err::<T, WebError>(
                    (WebError { kind: WebErrorKind::Client, inner: error, code: None }),
                ),
            },
    {
        match self {
            Ok(value) => Ok(value),
            Err(error) => Err(WebError::client(error)),
        }
    }
}

/// Choosing the status code of failures.
pub trait ResultCodeExt<T>: Sized {
    /// Answers a failure with the given status code.
    fn code(self, v: StatusCode) -> Result<T, WebError>;
}

impl<T> ResultCodeExt<T> for Result<T, WebError> {
    fn code(self, v: StatusCode) -> (r: Result<T, WebError>)
        ensures
            r == match self {
                Ok(value) => Ok(value),
                Err(error) => Err::<T, WebError>((WebError { code: Some(v), ..error })),
            },
    {
        match self {
            Ok(value) => Ok(value),
            Err(error) => Err(error.code(v)),
        }
    }
}

/// The answer to a failure of the server tells nothing of its cause.
pub proof fn law_internal_errors_are_not_disclosed(first: WebError, second: WebError)
    requires
        first.kind == WebErrorKind::Internal,
        second.kind == WebErrorKind::Internal,
        first.code == second.code,
    ensures
        response_of(first) == response_of(second),
{
}

/// A status code that was chosen for an error is the one that the error is answered with, and
/// choosing one leaves the body alone.
pub proof fn law_chosen_code_is_answered(error: WebError, code: StatusCode)
    ensures
        response_of((WebError { code: Some(code), ..error })).0 == code@,
        response_of((WebError { code: Some(code), ..error })).1 == response_of(error).1,
{
}

/// A failure is answered with the status code that was chosen for it. Where none was, a failure of
/// the client is answered with 400 and one of the server with 500. The client sees a failure of
/// its own in detail, and nothing of one of the server.
pub proof fn law_failures_are_answered(error: WebError, r: (StatusCode, String))
    requires
        call_ensures(WebError::into_response, (error,), r),
    ensures
        error.code matches Some(code) ==> r.0@ == code@,
        error.code is None && error.kind == WebErrorKind::Client ==> r.0@ == 400,
        error.code is None && error.kind == WebErrorKind::Internal ==> r.0@ == 500,
        error.kind == WebErrorKind::Client ==> r.1@ == error.inner.debug@,
        error.kind == WebErrorKind::Internal ==> r.1@ == "Something went wrong"@,
{
}

/// What a failure tells has no part in its status code: two failures of the same kind, with the
/// same choice of a code, are answered with the same one.
pub proof fn law_text_has_no_part_in_the_code(first: WebError, second: WebError)
    requires
        first.kind == second.kind,
        first.code == second.code,
    ensures
        response_of(first).0 == response_of(second).0,
        first.code is None ==> response_of(first).0 == match first.kind {
            WebErrorKind::Client => 400u16,
            WebErrorKind::Internal => 500u16,
        },
{
}

} // verus!
