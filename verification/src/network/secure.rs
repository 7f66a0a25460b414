//! Listening with encryption, and sending clients of plain HTTP there.
use vstd::prelude::*;
use vstd::utf8::encode_utf8;

use crate::errors::{BoxError, WebError};
use crate::network::{plain, IpAddr, NetworkAddr, LOOPBACK};
use crate::text::{
    decimal, law_decimal_has_no_leading_zero, law_decimal_is_read_back, law_decimals_differ,
    numeral_value, to_decimal,
};

verus! {

/// The files that hold the certificate chain and its private key.
#[derive(Debug)]
pub struct CertificateConfig {
    pub cert: String,
    pub key: String,
}

/// Where to listen for HTTPS, and for plain HTTP that is redirected.
#[derive(Debug)]
pub struct NetworkConfig {
    pub http: Option<plain::NetworkConfig>,
    pub https_address: NetworkAddr,
    pub certificates: Option<CertificateConfig>,
}

impl Default for NetworkConfig {
    fn default() -> (r: NetworkConfig)
        ensures
            r.http is None,
            r.https_address == (NetworkAddr { ip: IpAddr::V4(0x7f00_0001), port: 443 }),
            r.certificates is None,
    {
        NetworkConfig {
            http: None,
            https_address: NetworkAddr { ip: IpAddr::V4(LOOPBACK), port: 443 },
            certificates: None,
        }
    }
}

/// From where to listen for plain HTTP and to which port to redirect, if at all.
pub open spec fn redirection(config: NetworkConfig) -> Option<(NetworkAddr, u16)> {
    match config.http {
        Some(http) => Some((http.address, config.https_address.port)),
        None => None,
    }
}

/// From where to listen for plain HTTP and to which port to redirect, if at all.
pub fn http_redirect(config: &NetworkConfig) -> (r: Option<(NetworkAddr, u16)>)
    ensures
        r == redirection(*config),
{
    match &config.http {
        Some(http) => Some((http.address, config.https_address.port)),
        None => None,
    }
}

/// Where the keys for encryption come from.
pub enum TlsSource<'a> {
    /// They were handed over when the server was built.
    Settings,
    /// They are read from files.
    Files(&'a CertificateConfig),
}

/// There are no keys for encryption.
#[derive(Clone, Copy, Debug, PartialEq, Eq, Structural)]
pub struct MissingCertificates;

impl MissingCertificates {
    /// The sentence that reports the error.
    pub fn message(&self) -> (r: String)
        ensures
            r@ == "Either provide RustlsSettings, or `cert`, `key`"@,
    {
        "Either provide RustlsSettings, or `cert`, `key`".to_owned()
    }
}

/// Chooses where the keys for encryption come from: those in the settings come first.
pub fn tls_source(in_settings: bool, config: &NetworkConfig) -> (r: Result<
    TlsSource<'_>,
    MissingCertificates,
>)
    ensures
        match r {
            Ok(TlsSource::Settings) => in_settings,
            Ok(TlsSource::Files(files)) => !in_settings && config.certificates == Some(*files),
            Err(_) => !in_settings && config.certificates is None,
        },
{
    if in_settings {
        Ok(TlsSource::Settings)
    } else {
        match &config.certificates {
            Some(files) => Ok(TlsSource::Files(files)),
            None => Err(MissingCertificates),
        }
    }
}

/// The parts of a URI.
#[derive(Debug)]
pub struct UriParts {
    pub scheme: Option<String>,
    pub authority: Option<String>,
    pub path_and_query: Option<String>,
}

#[verifier::external_type_specification]
#[verifier::external_body]
pub struct ExHttpError(axum::http::Error);

/// Whether a text is a host name of small letters, a colon and a numeral.
pub open spec fn host_and_port(authority: Seq<char>) -> bool {
    exists|colon: int|
        {
            &&& 0 < colon < authority.len()
            &&& #[trigger] authority[colon] == ':'
            &&& forall|i: int| 0 <= i < colon ==> 'a' <= #[trigger] authority[i] <= 'z'
            &&& forall|i: int|
                colon < i < authority.len() ==> '0' <= #[trigger] authority[i] <= '9'
        }
}

/// The part of a text before the first occurrence of a character, or all of it.
pub open spec fn before(text: Seq<char>, mark: char) -> Seq<char>
    decreases text.len(),
{
    if text.len() == 0 || text[0] == mark {
        Seq::empty()
    } else {
        seq![text[0]] + before(text.drop_first(), mark)
    }
}

/// Whether a character can stand in a path.
pub open spec fn path_character(c: char) -> bool {
    ||| c == '!'
    ||| c == '"'
    ||| '$' <= c <= ';'
    ||| c == '='
    ||| '@' <= c <= '_'
    ||| 'a' <= c <= '~'
    ||| c >= '\u{80}'
}

/// Whether a character can stand in a query, or before it as a question mark.
pub open spec fn query_character(c: char) -> bool {
    ||| c == '!'
    ||| '$' <= c <= ';'
    ||| c == '='
    ||| '?' <= c <= '~'
    ||| c >= '\u{80}'
}

/// Whether a text is a path, a query or both, possibly with a fragment, or an asterisk. It takes
/// up at most 65534 bytes.
pub open spec fn accepted_path(text: Seq<char>) -> bool {
    let sent = before(text, '#');
    let path = before(sent, '?');
    &&& 0 < text.len()
    &&& encode_utf8(text).len() <= 65534
    &&& text == seq!['*'] || text[0] == '/' || text[0] == '?' || text[0] == '#'
    &&& forall|i: int| 0 <= i < path.len() ==> path_character(#[trigger] path[i])
    &&& forall|i: int| path.len() <= i < sent.len() ==> query_character(#[trigger] sent[i])
}

/// A path and a query as they stand in a URI: without the fragment, and with a slash for an
/// empty path.
pub open spec fn shown_path(text: Seq<char>) -> Seq<char> {
    let sent = before(text, '#');
    if sent.len() == 0 || sent[0] == '?' {
        seq!['/'] + sent
    } else {
        sent
    }
}

/// `Uri::from_parts` of the `http` crate on parsed parts, and the text of the URI, for the scheme
/// `https` and an authority that is a host and a port. Every path and query that the crate can
/// read is accepted, and no other text. The URI is written down with the scheme and the
/// authority as they are given, and the path and query without a fragment.
#[verifier::external_body]
fn assemble_uri(scheme: &str, authority: &str, path_and_query: &str) -> (r: Result<
    String,
    axum::http::Error,
>)
    requires
        scheme@ == "https"@,
        host_and_port(authority@),
    ensures
        match r {
            Ok(text) => accepted_path(path_and_query@) && text@ == scheme@ + "://"@ + authority@
                + shown_path(path_and_query@),
            Err(_) => !accepted_path(path_and_query@),
        },
{
    let mut parts = axum::http::uri::Parts::default();
    parts.scheme = Some(scheme.parse()?);
    parts.authority = Some(authority.parse()?);
    parts.path_and_query = Some(path_and_query.parse()?);
    Ok(axum::http::Uri::from_parts(parts)?.to_string())
}

/// A URI could not be turned into one for HTTPS.
#[derive(Clone, Copy, Debug, PartialEq, Eq, Structural)]
pub struct InvalidUri;

/// The authority that clients are redirected to.
pub open spec fn https_authority(https_port: u16) -> Seq<char> {
    "localhost:"@ + crate::text::decimal(https_port as nat)
}

/// The path and query that clients are redirected to.
pub open spec fn redirected_path(uri: UriParts) -> Seq<char> {
    match uri.path_and_query {
        Some(path_and_query) => path_and_query@,
        None => "/"@,
    }
}

/// The text of the URI that a client of plain HTTP is redirected to: the same path and query on
/// this machine's port for HTTPS.
pub fn make_https(uri: UriParts, https_port: u16) -> (r: Result<String, InvalidUri>)
    ensures
        match r {
            Ok(text) => accepted_path(redirected_path(uri)) && text@ == "https"@ + "://"@
                + https_authority(https_port) + shown_path(redirected_path(uri)),
            Err(_) => !accepted_path(redirected_path(uri)),
        },
{
    let mut authority = "localhost:".to_owned();
    authority.append(to_decimal(https_port as u64).as_str());
    proof {
        let port = crate::text::decimal(https_port as nat);
        crate::text::lemma_decimal_digits(https_port as nat);
        reveal_strlit("localhost:");
        assert(authority@[9] == ':');
        assert forall|i: int| 9 < i < authority@.len() implies '0' <= #[trigger] authority@[i]
            <= '9' by {
            assert(authority@[i] == port[i - 10]);
        }
        assert(host_and_port(authority@));
    }
    let path_and_query = match uri.path_and_query {
        Some(path_and_query) => path_and_query,
        None => "/".to_owned(),
    };
    match assemble_uri("https", authority.as_str(), path_and_query.as_str()) {
        Ok(text) => Ok(text),
        Err(_) => Err(InvalidUri),
    }
}

/// What stands before a character is the start of the text that does not hold it.
proof fn lemma_before(text: Seq<char>, mark: char)
    ensures
        before(text, mark).len() <= text.len(),
        before(text, mark) == text.take(before(text, mark).len() as int),
        !before(text, mark).contains(mark),
        !text.contains(mark) ==> before(text, mark) == text,
    decreases text.len(),
{
    if text.len() > 0 && text[0] != mark {
        let rest = text.drop_first();
        lemma_before(rest, mark);
        let part = before(text, mark);
        assert(part =~= text.take(part.len() as int));
        assert forall|i: int| 0 <= i < part.len() implies part[i] != mark by {
            if i > 0 {
                assert(part[i] == before(rest, mark)[i - 1]);
            }
        }
        if !text.contains(mark) {
            assert forall|i: int| 0 <= i < rest.len() implies rest[i] != mark by {
                assert(rest[i] == text[i + 1]);
            }
            assert(part =~= text);
        }
    }
}

/// The start of a text takes up no more bytes than the text.
proof fn lemma_start_is_no_longer(text: Seq<char>, length: int)
    requires
        0 <= length <= text.len(),
    ensures
        encode_utf8(text.take(length)).len() <= encode_utf8(text).len(),
    decreases text.len(),
{
    if length > 0 {
        lemma_start_is_no_longer(text.drop_first(), length - 1);
        assert(text.take(length).drop_first() =~= text.drop_first().take(length - 1));
    }
}

/// A slash takes up one byte.
proof fn lemma_slash_is_a_byte(text: Seq<char>)
    ensures
        encode_utf8(seq!['/'] + text).len() == 1 + encode_utf8(text).len(),
{
    assert((seq!['/'] + text).drop_first() =~= text);
}

/// A client that asked for no path is redirected to the root.
pub proof fn law_missing_path_is_the_root(uri: UriParts)
    requires
        uri.path_and_query is None,
    ensures
        accepted_path(redirected_path(uri)),
        shown_path(redirected_path(uri)) == seq!['/'],
{
    reveal_strlit("/");
    let root = seq!['/'];
    assert("/"@ =~= root);
    assert(root =~= root + Seq::<char>::empty());
    lemma_slash_is_a_byte(Seq::empty());
    lemma_before(root, '#');
    lemma_before(root, '?');
}

/// A client is redirected to the path and query that it asked for. A fragment is not among what
/// clients send.
pub proof fn law_path_and_query_are_kept(text: Seq<char>)
    requires
        text.len() > 0,
        text[0] != '?',
        !text.contains('#'),
    ensures
        shown_path(text) == text,
{
    lemma_before(text, '#');
}

/// A URI that a client was redirected to is redirected to itself. The slash for an empty path
/// must not make it too long.
pub proof fn law_redirecting_twice_changes_nothing(text: Seq<char>)
    requires
        accepted_path(text),
        text[0] == '?' ==> encode_utf8(text).len() < 65534,
    ensures
        accepted_path(shown_path(text)),
        shown_path(shown_path(text)) == shown_path(text),
{
    let sent = before(text, '#');
    let shown = shown_path(text);
    lemma_before(text, '#');
    lemma_before(sent, '?');
    lemma_start_is_no_longer(text, sent.len() as int);
    lemma_slash_is_a_byte(sent);
    assert(!shown.contains('#')) by {
        assert forall|i: int| 0 <= i < shown.len() implies shown[i] != '#' by {
            if shown != sent && i > 0 {
                assert(shown[i] == sent[i - 1]);
            }
        }
    }
    lemma_before(shown, '#');
    if shown != sent {
        assert(shown.drop_first() =~= sent);
        assert(before(sent, '?') =~= Seq::empty());
        assert(before(shown, '?') =~= seq!['/']);
        assert forall|i: int| 1 <= i < shown.len() implies query_character(
            #[trigger] shown[i],
        ) by {
            assert(shown[i] == sent[i - 1]);
        }
        if sent.len() == 0 {
            assert(encode_utf8(sent).len() == 0);
        }
    }
}

/// What a client of plain HTTP is answered: the URI of a permanent redirection, or an internal
/// error.
pub fn redirect(made: Result<String, InvalidUri>) -> (r: Result<String, WebError>)
    ensures
        match made {
            Ok(uri) => r == Ok::<String, WebError>(uri),
            Err(_) => {
                &&& r matches Err(error)
                &&& error.kind == crate::errors::WebErrorKind::Internal
                &&& error.inner.display@ == "Failed to convert URI to https"@
                &&& error.inner.debug@ == crate::errors::quoted("Failed to convert URI to https"@)
                &&& error.code is None
            },
        },
{
    match made {
        Ok(uri) => Ok(uri),
        Err(_) => Err(WebError::internal(BoxError::from_text("Failed to convert URI to https"))),
    }
}

/// What a client is redirected to: this machine, the port for HTTPS written out as a number, and a
/// path that starts with a slash or is an asterisk.
pub proof fn law_redirect_tells_the_port(
    uri: UriParts,
    https_port: u16,
    r: Result<String, InvalidUri>,
)
    requires
        call_ensures(make_https, (uri, https_port), r),
        r is Ok,
    ensures
        exists|numeral: Seq<char>, path: Seq<char>|
            {
                &&& r->Ok_0@ == "https"@ + "://"@ + "localhost:"@ + numeral + path
                &&& #[trigger] numeral_value(numeral) == https_port
                &&& forall|i: int| 0 <= i < numeral.len() ==> '0' <= #[trigger] numeral[i] <= '9'
                &&& numeral.len() > 0
                &&& https_port > 0 ==> numeral[0] != '0'
                &&& #[trigger] path.len() > 0
                &&& path[0] == '/' || path == seq!['*']
                &&& uri.path_and_query matches Some(asked) ==> asked@[0] == '/'
                    && !asked@.contains('#') ==> path == asked@
                &&& uri.path_and_query matches Some(asked) ==> path == shown_path(asked@)
                &&& uri.path_and_query is None ==> path == seq!['/']
            },
{
    let numeral = decimal(https_port as nat);
    let path = shown_path(redirected_path(uri));
    law_decimal_is_read_back(https_port as nat);
    law_decimal_has_no_leading_zero(https_port as nat);
    crate::text::lemma_decimal_digits(https_port as nat);
    lemma_shown_path_start(redirected_path(uri));
    if uri.path_and_query is None {
        law_missing_path_is_the_root(uri);
    } else if redirected_path(uri)[0] == '/' && !redirected_path(uri).contains('#') {
        law_path_and_query_are_kept(redirected_path(uri));
    }
    assert(r->Ok_0@ =~= "https"@ + "://"@ + "localhost:"@ + numeral + path);
    assert(numeral_value(numeral) == https_port && path.len() > 0);
}

/// A path in a URI starts with a slash, or is an asterisk.
proof fn lemma_shown_path_start(text: Seq<char>)
    requires
        accepted_path(text),
    ensures
        shown_path(text).len() > 0,
        shown_path(text)[0] == '/' || shown_path(text) == seq!['*'],
{
    let sent = before(text, '#');
    lemma_before(text, '#');
    if sent.len() > 0 {
        assert(sent[0] == text[0]);
        if text == seq!['*'] {
            assert(sent =~= text);
        }
    }
}

/// Two ports never give the same redirection.
pub proof fn law_ports_are_told_apart(
    first: UriParts,
    first_port: u16,
    first_made: Result<String, InvalidUri>,
    second: UriParts,
    second_port: u16,
    second_made: Result<String, InvalidUri>,
)
    requires
        call_ensures(make_https, (first, first_port), first_made),
        call_ensures(make_https, (second, second_port), second_made),
        first_made is Ok,
        second_made is Ok,
        first_port != second_port,
    ensures
        first_made->Ok_0@ != second_made->Ok_0@,
{
    let start = "https"@ + "://"@ + "localhost:"@;
    let a = decimal(first_port as nat);
    let b = decimal(second_port as nat);
    let p = shown_path(redirected_path(first));
    let q = shown_path(redirected_path(second));
    let x = first_made->Ok_0@;
    let y = second_made->Ok_0@;
    crate::text::lemma_decimal_digits(first_port as nat);
    crate::text::lemma_decimal_digits(second_port as nat);
    law_decimals_differ(first_port as nat, second_port as nat);
    lemma_shown_path_start(redirected_path(first));
    lemma_shown_path_start(redirected_path(second));
    assert(x =~= start + a + p);
    assert(y =~= start + b + q);
    if x == y {
        let n = start.len() as int;
        if a.len() < b.len() {
            assert(x[n + a.len()] == p[0]);
            assert(y[n + a.len()] == b[a.len() as int]);
        } else if b.len() < a.len() {
            assert(y[n + b.len()] == q[0]);
            assert(x[n + b.len()] == a[b.len() as int]);
        } else {
            assert forall|i: int| 0 <= i < a.len() implies a[i] == b[i] by {
                assert(x[n + i] == a[i]);
                assert(y[n + i] == b[i]);
            }
            assert(a =~= b);
        }
    }
}

/// Clients are redirected just where plain HTTP is listened for: from that address to the port
/// for HTTPS, whatever the certificates are.
pub proof fn law_redirection_follows_the_addresses(
    config: NetworkConfig,
    r: Option<(NetworkAddr, u16)>,
)
    requires
        call_ensures(http_redirect, (&config,), r),
    ensures
        r is Some <==> config.http is Some,
        r matches Some((address, port)) ==> (config.http matches Some(http) && address
            == http.address) && port == config.https_address.port,
{
}

/// A client is redirected whatever path it asked for, as long as it can be read as one, and also
/// where it asked for none.
pub proof fn law_every_readable_path_is_redirected(
    uri: UriParts,
    https_port: u16,
    r: Result<String, InvalidUri>,
)
    requires
        call_ensures(make_https, (uri, https_port), r),
    ensures
        uri.path_and_query is None ==> r is Ok,
        uri.path_and_query matches Some(asked) ==> (r is Ok <==> accepted_path(asked@)),
{
    if uri.path_and_query is None {
        law_missing_path_is_the_root(uri);
    }
}

/// Keys in the settings are used whatever files are named; without them the files are used, and it
/// fails only where there is neither.
pub proof fn law_keys_in_settings_come_first<'a>(
    in_settings: bool,
    config: &'a NetworkConfig,
    r: Result<TlsSource<'a>, MissingCertificates>,
)
    requires
        call_ensures(tls_source, (in_settings, config), r),
    ensures
        in_settings <==> (r matches Ok(TlsSource::Settings)),
        !in_settings && config.certificates is Some ==> (r matches Ok(TlsSource::Files(files))
            && config.certificates == Some(*files)),
        r is Err <==> !in_settings && config.certificates is None,
{
}

} // verus!
