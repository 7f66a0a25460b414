use web_scaffolding::network::secure::{
    http_redirect, make_https, redirect, tls_source, CertificateConfig, InvalidUri,
    MissingCertificates, NetworkConfig, TlsSource, UriParts,
};
use web_scaffolding::network::{plain, ClientIpSource, IpAddr, NetworkAddr, ReverseProxy};

fn uri(path_and_query: Option<&str>) -> UriParts {
    UriParts {
        scheme: None,
        authority: None,
        path_and_query: path_and_query.map(|path| path.to_string()),
    }
}

#[test]
fn proxies_have_sources_of_client_addresses() {
    let sources = [
        (ReverseProxy::Nginx, ClientIpSource::XRealIp),
        (ReverseProxy::Cloudflare, ClientIpSource::CfConnectingIp),
        (ReverseProxy::Cloudfront, ClientIpSource::CloudFrontViewerAddress),
        (ReverseProxy::FlyIo, ClientIpSource::FlyClientIp),
        (ReverseProxy::Akamai, ClientIpSource::TrueClientIp),
        (ReverseProxy::Envoy, ClientIpSource::XEnvoyExternalAddress),
        (ReverseProxy::Other, ClientIpSource::RightmostXForwardedFor),
        (ReverseProxy::NoProxy, ClientIpSource::ConnectInfo),
    ];
    for (i, (proxy, source)) in sources.iter().enumerate() {
        assert_eq!(proxy.ip_source(), *source);
        for (_, other) in &sources[i + 1..] {
            assert_ne!(source, other);
        }
    }
    assert_eq!(ReverseProxy::default(), ReverseProxy::NoProxy);
}

#[test]
fn servers_listen_on_the_machine_itself() {
    let plain = plain::NetworkConfig::default();
    assert_eq!(plain.address, NetworkAddr { ip: IpAddr::V4(0x7f000001), port: 80 });
    let secure = NetworkConfig::default();
    assert_eq!(secure.https_address, NetworkAddr { ip: IpAddr::V4(0x7f000001), port: 443 });
    assert!(secure.http.is_none());
    assert!(secure.certificates.is_none());
    assert_eq!(http_redirect(&secure), None);
}

#[test]
fn redirection_goes_from_http_to_the_https_port() {
    let mut config = NetworkConfig::default();
    config.http = Some(plain::NetworkConfig::default());
    config.https_address.port = 8443;
    let from = NetworkAddr { ip: IpAddr::V4(0x7f000001), port: 80 };
    assert_eq!(http_redirect(&config), Some((from, 8443)));
}

#[test]
fn keys_in_the_settings_come_first() {
    let mut config = NetworkConfig::default();
    assert!(matches!(tls_source(true, &config), Ok(TlsSource::Settings)));
    assert!(matches!(tls_source(false, &config), Err(MissingCertificates)));
    config.certificates =
        Some(CertificateConfig { cert: "cert.pem".to_string(), key: "key.pem".to_string() });
    assert!(matches!(tls_source(true, &config), Ok(TlsSource::Settings)));
    match tls_source(false, &config) {
        Ok(TlsSource::Files(files)) => {
            assert_eq!(files.cert, "cert.pem");
            assert_eq!(files.key, "key.pem");
        }
        _ => panic!("the files are the only source"),
    }
    assert_eq!(
        MissingCertificates.message(),
        "Either provide RustlsSettings, or `cert`, `key`",
    );
}

#[test]
fn redirected_uris_keep_path_and_query() {
    let redirected = make_https(uri(Some("/shop/item?id=7&lang=en")), 8443);
    assert_eq!(redirected, Ok("https://localhost:8443/shop/item?id=7&lang=en".to_string()));
    assert_eq!(make_https(uri(Some("/%20")), 1), Ok("https://localhost:1/%20".to_string()));
    let parts = UriParts {
        scheme: Some("http".to_string()),
        authority: Some("example.org".to_string()),
        path_and_query: Some("/".to_string()),
    };
    assert_eq!(make_https(parts, 65535), Ok("https://localhost:65535/".to_string()));
}

#[test]
fn redirected_uris_without_path_lead_to_the_root() {
    assert_eq!(make_https(uri(None), 443), Ok("https://localhost:443/".to_string()));
}

/// The URI that a path and query are redirected to, without what stands before them.
fn redirected(path_and_query: &str) -> Option<String> {
    let made = make_https(uri(Some(path_and_query)), 443).ok()?;
    Some(made.strip_prefix("https://localhost:443").unwrap().to_string())
}

#[test]
fn every_readable_path_is_redirected() {
    let paths = ["/{id}/\"x\"", "/a?b={c}`?d", "/\u{fc}\u{4e2d}?\u{1f600}", "*", "/~|^_[]@!$;="];
    for path in paths {
        assert_eq!(redirected(path).as_deref(), Some(path));
    }
    for code in 0..0x180u32 {
        let c = char::from_u32(code).unwrap();
        for path in [format!("/a{c}b"), format!("/a?b{c}c"), format!("{c}"), format!("?{c}")] {
            let parsed = path.parse::<axum::http::uri::PathAndQuery>().ok();
            let in_path = c == '!' || c == '"' || ('$'..=';').contains(&c) || c == '='
                || ('@'..='_').contains(&c) || ('a'..='~').contains(&c) || code >= 0x80;
            let in_query = c == '!' || ('$'..=';').contains(&c) || c == '='
                || ('?'..='~').contains(&c) || code >= 0x80;
            let expected = match path.as_bytes()[..2.min(path.len())] {
                [b'/', b'a'] if path.contains("?b") => in_query || c == '#',
                [b'/', b'a'] => in_path || c == '?' || c == '#',
                [b'?', _] => in_query || c == '#',
                _ => c == '*' || c == '/' || c == '?' || c == '#',
            };
            assert_eq!(redirected(&path).is_some(), expected, "{path:?}");
            assert_eq!(parsed.is_some(), expected, "{path:?}");
        }
    }
}

#[test]
fn fragments_are_dropped_and_empty_paths_filled_in() {
    assert_eq!(redirected("/a#b").as_deref(), Some("/a"));
    assert_eq!(redirected("/a?b#c d").as_deref(), Some("/a?b"));
    assert_eq!(redirected("?a").as_deref(), Some("/?a"));
    assert_eq!(redirected("#a").as_deref(), Some("/"));
    assert_eq!(redirected(""), None);
    assert_eq!(redirected("a"), None);
    assert_eq!(redirected("*a"), None);
}

#[test]
fn redirecting_twice_changes_nothing() {
    for path in ["/", "/a?b=c", "?a", "#a", "*", "/\u{fc}#x"] {
        let once = redirected(path).unwrap();
        assert_eq!(redirected(&once), Some(once));
    }
}

#[test]
fn long_paths_are_limited_by_their_bytes() {
    let fits = format!("/{}", "a".repeat(65533));
    assert_eq!(redirected(&fits), Some(fits));
    assert_eq!(redirected(&format!("/{}", "a".repeat(65534))), None);
    let fits = format!("/a{}", "\u{fc}".repeat(32766));
    assert_eq!(redirected(&fits), Some(fits));
    assert_eq!(redirected(&format!("/a{}", "\u{fc}".repeat(32767))), None);
}

#[test]
fn invalid_paths_are_not_redirected() {
    assert_eq!(make_https(uri(Some("/a b")), 443), Err(InvalidUri));
    let error = redirect(make_https(uri(Some("/a b")), 443)).unwrap_err();
    assert_eq!(error.inner.display, "Failed to convert URI to https");
    assert_eq!(error.inner.debug, "\"Failed to convert URI to https\"");
    let (code, body) = error.into_response();
    assert_eq!((code.as_u16(), body.as_str()), (500, "Something went wrong"));
    assert_eq!(redirect(Ok("https://x/".to_string())).unwrap(), "https://x/");
}
