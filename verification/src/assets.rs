//! Serving files that are part of the program.
use vstd::prelude::*;

use crate::errors::{
    BoxError, ResultCodeExt, ResultWebExt, StatusCode, WebError, WebErrorKind, WebResult,
};

verus! {

/// A file that is part of the program.
#[derive(Debug)]
pub struct Asset {
    pub mimetype: String,
    pub data: Vec<u8>,
}

/// Why a request for a file is turned down.
#[derive(Clone, Copy, Debug, PartialEq, Eq, Structural)]
pub enum AssetError {
    /// There is no such file.
    NotFound,
    /// The file can only be read.
    MethodNotAllowed,
}

impl AssetError {
    /// The sentence that reports the error.
    pub fn message(&self) -> (r: &'static str)
        ensures
            r@ == match self {
                AssetError::NotFound => "404 Not Found"@,
                AssetError::MethodNotAllowed => "Method Not Allowed"@,
            },
    {
        match self {
            AssetError::NotFound => "404 Not Found",
            AssetError::MethodNotAllowed => "Method Not Allowed",
        }
    }

    /// The number of the status code that the error is answered with.
    pub open spec fn code_number(&self) -> u16 {
        match self {
            AssetError::NotFound => 404,
            AssetError::MethodNotAllowed => 405,
        }
    }

    /// The status code that the error is answered with.
    pub fn code(&self) -> (r: StatusCode)
        ensures
            r@ == self.code_number(),
    {
        match self {
            AssetError::NotFound => StatusCode::not_found(),
            AssetError::MethodNotAllowed => StatusCode::method_not_allowed(),
        }
    }
}

/// The same text without the slashes at its start.
pub open spec fn without_leading_slashes(text: Seq<char>) -> Seq<char>
    decreases text.len(),
{
    if text.len() > 0 && text[0] == '/' {
        without_leading_slashes(text.drop_first())
    } else {
        text
    }
}

/// `str::trim_start_matches` of the standard library for a slash: takes off all slashes at the
/// start of a text.
#[verifier::external_body]
fn trim_slashes(text: &str) -> (r: &str)
    ensures
        r@ == without_leading_slashes(text@),
{
    text.trim_start_matches('/')
}

/// What a request for a file comes to, given the file that was found: first of all the file must
/// be there, then the method must be `GET`.
pub open spec fn asset_outcome(found: Option<Asset>, method: Seq<char>) -> Result<
    Asset,
    AssetError,
> {
    match found {
        None => Err(AssetError::NotFound),
        Some(asset) => if method == "GET"@ {
            Ok(asset)
        } else {
            Err(AssetError::MethodNotAllowed)
        },
    }
}

/// What a request for a file comes to, given the file that was found.
pub fn answer(found: Option<Asset>, method: &String) -> (r: Result<Asset, AssetError>)
    ensures
        r == asset_outcome(found, method@),
{
    let get = "GET".to_owned();
    match found {
        None => Err(AssetError::NotFound),
        Some(asset) => if *method == get {
            Ok(asset)
        } else {
            Err(AssetError::MethodNotAllowed)
        },
    }
}

/// What a client is told whose request for a file was turned down. The detailed form of the
/// error is left to the reporting of errors that is in use.
pub fn report(outcome: Result<Asset, AssetError>, detailed: String) -> (r: WebResult<Asset>)
    ensures
        match outcome {
            Ok(asset) => r == Ok::<Asset, WebError>(asset),
            Err(cause) => {
                &&& r matches Err(error)
                &&& error.kind == WebErrorKind::Client
                &&& error.inner.display@ == match cause {
                    AssetError::NotFound => "404 Not Found"@,
                    AssetError::MethodNotAllowed => "Method Not Allowed"@,
                }
                &&& error.inner.debug == detailed
                &&& error.code matches Some(code) && code@ == cause.code_number()
            },
        },
{
    match outcome {
        Ok(asset) => Ok(asset),
        Err(cause) => {
            let error = BoxError { display: cause.message().to_owned(), debug: detailed };
            Err::<Asset, BoxError>(error).client_error().code(cause.code())
        },
    }
}

/// Files that are found by their paths.
pub struct ServeAssets<F> {
    pub get: F,
}

impl<F: Fn(&str) -> Option<Asset>> ServeAssets<F> {
    /// Serves the file that a request asks for.
    pub fn serve(&self, method: &String, path: &str) -> (r: Result<Asset, AssetError>)
        requires
            forall|name: &str| call_requires(self.get, (name,)),
        ensures
            exists|name: &str, found: Option<Asset>|
                {
                    &&& #[trigger] call_ensures(self.get, (name,), found)
                    &&& name@ == without_leading_slashes(path@)
                    &&& r == asset_outcome(found, method@)
                },
    {
        let found = (self.get)(trim_slashes(path));
        answer(found, method)
    }
}

/// Slashes at the start of a path make no difference.
pub proof fn law_leading_slash_is_ignored(path: Seq<char>)
    ensures
        without_leading_slashes(seq!['/'] + path) == without_leading_slashes(path),
{
    assert((seq!['/'] + path).drop_first() =~= path);
}

/// What is left of a path does not start with a slash.
pub proof fn law_no_leading_slash_is_left(path: Seq<char>)
    ensures
        without_leading_slashes(path).len() > 0 ==> without_leading_slashes(path)[0] != '/',
    decreases path.len(),
{
    if path.len() > 0 && path[0] == '/' {
        law_no_leading_slash_is_left(path.drop_first());
    }
}

/// A missing file is reported as missing whatever the method is.
pub proof fn law_missing_file_comes_first(method: Seq<char>)
    ensures
        asset_outcome(None, method) == Err::<Asset, AssetError>(AssetError::NotFound),
{
}

/// A file is served just where it was found and is asked for with `GET`, and it is served as it
/// is. A file that was found and is asked for otherwise is refused for the method.
pub proof fn law_found_file_is_served(
    found: Option<Asset>,
    method: String,
    r: Result<Asset, AssetError>,
)
    requires
        call_ensures(answer, (found, &method), r),
    ensures
        r is Ok <==> found is Some && method@ == "GET"@,
        r matches Ok(asset) ==> found == Some(asset),
        found is None ==> r == Err::<Asset, AssetError>(AssetError::NotFound),
        found is Some && method@ != "GET"@ ==> r == Err::<Asset, AssetError>(
            AssetError::MethodNotAllowed,
        ),
{
}

/// What is taken off a path are slashes only, all at its start.
pub proof fn law_only_slashes_are_taken_off(path: Seq<char>)
    ensures
        without_leading_slashes(path).len() <= path.len(),
        without_leading_slashes(path) == path.skip(
            path.len() - without_leading_slashes(path).len(),
        ),
        forall|i: int|
            0 <= i < path.len() - without_leading_slashes(path).len() ==> #[trigger] path[i]
                == '/',
    decreases path.len(),
{
    if path.len() > 0 && path[0] == '/' {
        let rest = path.drop_first();
        law_only_slashes_are_taken_off(rest);
        let taken = path.len() - without_leading_slashes(path).len();
        assert(rest.skip(taken - 1) =~= path.skip(taken));
        assert forall|i: int| 0 <= i < taken implies #[trigger] path[i] == '/' by {
            if i > 0 {
                assert(path[i] == rest[i - 1]);
            }
        }
    } else {
        assert(path.skip(0) =~= path);
    }
}

} // verus!
