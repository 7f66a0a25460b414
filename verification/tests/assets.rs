use web_scaffolding::assets::{answer, report, Asset, AssetError, ServeAssets};

fn embedded(path: &str) -> Option<Asset> {
    match path {
        "index.html" => {
            Some(Asset { mimetype: "text/html".to_string(), data: b"<p>hello".to_vec() })
        }
        _ => None,
    }
}

fn serve(method: &str, path: &str) -> Result<Asset, AssetError> {
    ServeAssets { get: embedded }.serve(&method.to_string(), path)
}

#[test]
fn files_are_served_by_their_paths() {
    for path in ["/index.html", "index.html", "//index.html", "///index.html"] {
        let asset = serve("GET", path).unwrap();
        assert_eq!(asset.mimetype, "text/html");
        assert_eq!(asset.data, b"<p>hello");
    }
}

#[test]
fn missing_files_are_not_found() {
    assert_eq!(serve("GET", "/other").unwrap_err(), AssetError::NotFound);
    assert_eq!(serve("GET", "/").unwrap_err(), AssetError::NotFound);
    assert_eq!(serve("GET", "/sub/index.html").unwrap_err(), AssetError::NotFound);
    assert_eq!(serve("POST", "/other").unwrap_err(), AssetError::NotFound);
}

#[test]
fn files_can_only_be_read() {
    for method in ["POST", "HEAD", "get", ""] {
        assert_eq!(serve(method, "/index.html").unwrap_err(), AssetError::MethodNotAllowed);
    }
    let get = "GET".to_string();
    assert!(answer(embedded("index.html"), &get).is_ok());
}

#[test]
fn asset_errors_are_failures_of_the_client() {
    let error = report(serve("GET", "/other"), "404 Not Found".to_string()).unwrap_err();
    assert_eq!(error.inner.display, "404 Not Found");
    let (code, body) = error.into_response();
    assert_eq!((code.as_u16(), body.as_str()), (404, "404 Not Found"));
    let error = report(serve("PUT", "/index.html"), "in detail".to_string()).unwrap_err();
    assert_eq!(error.inner.display, "Method Not Allowed");
    let (code, body) = error.into_response();
    assert_eq!((code.as_u16(), body.as_str()), (405, "in detail"));
    let asset = report(serve("GET", "/index.html"), String::new()).unwrap();
    assert_eq!(asset.mimetype, "text/html");
    assert_eq!(AssetError::NotFound.code().as_u16(), 404);
    assert_eq!(AssetError::MethodNotAllowed.message(), "Method Not Allowed");
}
